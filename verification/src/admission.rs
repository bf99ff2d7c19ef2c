//! The namespace allow-list the admission webhook enforces: which kinds it
//! governs, how the rules of every `AuthentikNamespacePolicy` are pooled,
//! and the allow/deny verdict for one `(namespace, kind)` request.
use vstd::prelude::*;
use crate::crd::namespace_policy::{AuthentikNamespacePolicySpec, Effect, NamespaceRule, ResourceKind};
use crate::status::ReasonCode;
use crate::text::{join2, same_text};

verus! {

/// The kind named by a request's `kind.kind`, when the webhook governs it.
pub open spec fn kind_named(kind: Seq<char>) -> Option<ResourceKind> {
    if kind == "AuthentikApplication"@ {
        Some(ResourceKind::AuthentikApplication)
    } else if kind == "AuthentikAccessPolicy"@ {
        Some(ResourceKind::AuthentikAccessPolicy)
    } else {
        None
    }
}

/// Parses a request's `kind.kind`; any other kind is `None`.
pub fn parse_kind(kind: &str) -> (k: Option<ResourceKind>)
    ensures
        k == kind_named(kind@),
{
    if same_text(kind, "AuthentikApplication") {
        Some(ResourceKind::AuthentikApplication)
    } else if same_text(kind, "AuthentikAccessPolicy") {
        Some(ResourceKind::AuthentikAccessPolicy)
    } else {
        None
    }
}

/// The rules of every policy, in order.
pub open spec fn pooled_rules(policies: Seq<AuthentikNamespacePolicySpec>) -> Seq<NamespaceRule>
    decreases policies.len(),
{
    if policies.len() == 0 {
        Seq::empty()
    } else {
        pooled_rules(policies.drop_last()) + policies.last().rules@
    }
}

/// Pools the rules of every policy, and says whether any policy exists at
/// all: a policy with no rules still counts, and keeps default-deny on.
pub fn fetch_rules(policies: Vec<AuthentikNamespacePolicySpec>) -> (r: (Vec<NamespaceRule>, bool))
    ensures
        r.0@ == pooled_rules(policies@),
        r.1 == (policies@.len() > 0),
{
    let ghost all = policies@;
    let n = policies.len();
    let exist = n > 0;
    let mut rest = policies;
    let mut rules: Vec<NamespaceRule> = Vec::new();
    let mut k: usize = 0;
    while rest.len() > 0
        invariant
            all.len() == n,
            k <= all.len(),
            rest@ == all.subrange(k as int, all.len() as int),
            rules@ == pooled_rules(all.subrange(0, k as int)),
        decreases rest@.len(),
    {
        let mut p = rest.remove(0);
        proof {
            assert(p == all[k as int]);
            assert(all.subrange(0, k + 1).drop_last() =~= all.subrange(0, k as int));
        }
        rules.append(&mut p.rules);
        k = k + 1;
        assert(rest@ =~= all.subrange(k as int, all.len() as int));
    }
    assert(all.subrange(0, k as int) =~= all);
    (rules, exist)
}

/// Whether `rule` names namespace `ns` and kind `kind`.
pub open spec fn rule_covers(rule: NamespaceRule, ns: Seq<char>, kind: ResourceKind) -> bool {
    &&& exists|i: int| 0 <= i < rule.namespaces@.len() && #[trigger] rule.namespaces@[i]@ == ns
    &&& rule.allowed_kinds@.contains(kind)
}

/// Whether some rule with effect `effect` covers `(ns, kind)`.
pub open spec fn some_rule(rules: Seq<NamespaceRule>, ns: Seq<char>, kind: ResourceKind, effect: Effect) -> bool {
    exists|i: int| 0 <= i < rules.len() && #[trigger] rules[i].effect == effect && rule_covers(rules[i], ns, kind)
}

/// The allow-list decision. With no policy at all, everything is allowed.
/// Otherwise a request is allowed only when some `Allow` rule covers it and
/// no `Deny` rule does: an explicit deny wins, and the default is deny.
pub open spec fn allowed_by(rules: Seq<NamespaceRule>, policies_exist: bool, ns: Seq<char>, kind: ResourceKind) -> bool {
    !policies_exist || (some_rule(rules, ns, kind, Effect::Allow) && !some_rule(rules, ns, kind, Effect::Deny))
}

/// Result of evaluating a request against the allow-list.
#[derive(Clone, Copy, Debug, PartialEq, Eq)]
pub struct AdmissionResult {
    pub allowed: bool,
    /// Why it was refused; `None` when allowed.
    pub reason: Option<ReasonCode>,
}

fn names_namespace(rule: &NamespaceRule, ns: &str) -> (r: bool)
    ensures
        r == (exists|i: int| 0 <= i < rule.namespaces@.len() && #[trigger] rule.namespaces@[i]@ == ns@),
{
    let mut i: usize = 0;
    while i < rule.namespaces.len()
        invariant
            i <= rule.namespaces@.len(),
            forall|j: int| 0 <= j < i ==> #[trigger] rule.namespaces@[j]@ != ns@,
        decreases rule.namespaces@.len() - i,
    {
        if same_text(rule.namespaces[i].as_str(), ns) {
            return true;
        }
        i = i + 1;
    }
    false
}

fn names_kind(rule: &NamespaceRule, kind: ResourceKind) -> (r: bool)
    ensures
        r == rule.allowed_kinds@.contains(kind),
{
    let mut i: usize = 0;
    while i < rule.allowed_kinds.len()
        invariant
            i <= rule.allowed_kinds@.len(),
            forall|j: int| 0 <= j < i ==> rule.allowed_kinds@[j] != kind,
        decreases rule.allowed_kinds@.len() - i,
    {
        let same = match (rule.allowed_kinds[i], kind) {
            (ResourceKind::AuthentikApplication, ResourceKind::AuthentikApplication) => true,
            (ResourceKind::AuthentikAccessPolicy, ResourceKind::AuthentikAccessPolicy) => true,
            _ => false,
        };
        if same {
            assert(rule.allowed_kinds@[i as int] == kind);
            return true;
        }
        i = i + 1;
    }
    false
}

fn same_effect(a: Effect, b: Effect) -> (r: bool)
    ensures
        r == (a == b),
{
    match (a, b) {
        (Effect::Allow, Effect::Allow) => true,
        (Effect::Deny, Effect::Deny) => true,
        _ => false,
    }
}

fn has_rule(rules: &Vec<NamespaceRule>, ns: &str, kind: ResourceKind, effect: Effect) -> (r: bool)
    ensures
        r == some_rule(rules@, ns@, kind, effect),
{
    let mut i: usize = 0;
    while i < rules.len()
        invariant
            i <= rules@.len(),
            forall|j: int| 0 <= j < i ==> !(#[trigger] rules@[j].effect == effect && rule_covers(rules@[j], ns@, kind)),
        decreases rules@.len() - i,
    {
        let r = &rules[i];
        if same_effect(r.effect, effect) && names_namespace(r, ns) && names_kind(r, kind) {
            return true;
        }
        i = i + 1;
    }
    false
}

/// Evaluates one `(namespace, kind)` request against the pooled rules.
pub fn evaluate_admission(namespace: &str, kind: ResourceKind, rules: &Vec<NamespaceRule>, policies_exist: bool) -> (r: AdmissionResult)
    ensures
        r.allowed == allowed_by(rules@, policies_exist, namespace@, kind),
        r.allowed ==> r.reason is None,
        !r.allowed ==> r.reason == Some(ReasonCode::NamespaceNotAllowed),
{
    let allowed = !policies_exist || (has_rule(rules, namespace, kind, Effect::Allow) && !has_rule(rules, namespace, kind, Effect::Deny));
    if allowed {
        AdmissionResult { allowed: true, reason: None }
    } else {
        AdmissionResult { allowed: false, reason: Some(ReasonCode::NamespaceNotAllowed) }
    }
}

/// The webhook's answer to one admission request.
#[derive(Clone, Debug, PartialEq, Eq)]
pub enum Verdict {
    Allow,
    /// Refused with HTTP 403, `reason` as the status reason.
    Deny { reason: ReasonCode, message: String },
}

/// The refusal of a request whose kind the webhook does not govern: it
/// fails closed.
pub fn unrecognized_kind_verdict(kind: &str) -> (v: Verdict)
    ensures
        v matches Verdict::Deny { reason, message } && reason == ReasonCode::NamespaceNotAllowed
            && message@ == "unrecognized kind for this webhook: "@ + kind@,
{
    Verdict::Deny {
        reason: ReasonCode::NamespaceNotAllowed,
        message: join2("unrecognized kind for this webhook: ", kind),
    }
}

/// The refusal of a request when the policies could not be listed: it
/// fails closed.
pub fn lookup_failed_verdict() -> (v: Verdict)
    ensures
        v matches Verdict::Deny { reason, message } && reason == ReasonCode::NamespaceNotAllowed
            && message@ == "AuthentikNamespacePolicy lookup failed"@,
{
    Verdict::Deny {
        reason: ReasonCode::NamespaceNotAllowed,
        message: String::from_str("AuthentikNamespacePolicy lookup failed"),
    }
}

/// The verdict for a governed kind, once the policies are known.
pub fn admission_verdict(namespace: &str, kind: ResourceKind, rules: &Vec<NamespaceRule>, policies_exist: bool) -> (v: Verdict)
    ensures
        allowed_by(rules@, policies_exist, namespace@, kind) ==> v == Verdict::Allow,
        !allowed_by(rules@, policies_exist, namespace@, kind) ==> (v matches Verdict::Deny { reason, message }
            && reason == ReasonCode::NamespaceNotAllowed
            && message@ == "namespace not allowed by any AuthentikNamespacePolicy"@),
{
    let result = evaluate_admission(namespace, kind, rules, policies_exist);
    if result.allowed {
        Verdict::Allow
    } else {
        let reason = match result.reason {
            Some(r) => r,
            None => ReasonCode::NamespaceNotAllowed,
        };
        Verdict::Deny {
            reason,
            message: String::from_str("namespace not allowed by any AuthentikNamespacePolicy"),
        }
    }
}

/// The `result` label a decision is counted under.
pub fn record_decision(allowed: bool) -> (label: &'static str)
    ensures
        allowed ==> label@ == "allow"@,
        !allowed ==> label@ == "deny"@,
{
    if allowed { "allow" } else { "deny" }
}

/// With no policy anywhere, every request is allowed; once any policy
/// exists, a request that no rule covers is denied, and a covering `Deny`
/// rule refuses a request whatever `Allow` rules also cover it.
pub proof fn allow_list_defaults(rules: Seq<NamespaceRule>, ns: Seq<char>, kind: ResourceKind)
    ensures
        allowed_by(rules, false, ns, kind),
        (forall|i: int| 0 <= i < rules.len() ==> !rule_covers(#[trigger] rules[i], ns, kind))
            ==> !allowed_by(rules, true, ns, kind),
        some_rule(rules, ns, kind, Effect::Deny) ==> !allowed_by(rules, true, ns, kind),
{
}

/// Adding policies can only take access away from a request that no new
/// rule allows: pooling more rules never turns a denial into an allowance
/// unless one of the added rules is an `Allow` covering the request.
pub proof fn more_rules_never_widen_without_an_allow(
    rules: Seq<NamespaceRule>,
    extra: Seq<NamespaceRule>,
    ns: Seq<char>,
    kind: ResourceKind,
)
    requires
        !allowed_by(rules, true, ns, kind),
        !some_rule(extra, ns, kind, Effect::Allow),
    ensures
        !allowed_by(rules + extra, true, ns, kind),
{
    let all = rules + extra;
    if some_rule(all, ns, kind, Effect::Allow) && !some_rule(all, ns, kind, Effect::Deny) {
        let i = choose|i: int| 0 <= i < all.len() && #[trigger] all[i].effect == Effect::Allow
            && rule_covers(all[i], ns, kind);
        if i < rules.len() {
            assert(rules[i] == all[i]);
            assert(some_rule(rules, ns, kind, Effect::Allow));
            assert(some_rule(rules, ns, kind, Effect::Deny)) ;
            let j = choose|j: int| 0 <= j < rules.len() && #[trigger] rules[j].effect == Effect::Deny
                && rule_covers(rules[j], ns, kind);
            assert(all[j] == rules[j]);
        } else {
            assert(extra[i - rules.len()] == all[i]);
        }
    }
}

} // verus!
