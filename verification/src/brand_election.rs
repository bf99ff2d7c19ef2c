//! Election of the default brand: of every `AuthentikBrand` claiming
//! `spec.default: true`, the earliest created wins (ties broken by name);
//! every other claimant is refused without touching Authentik.
use vstd::prelude::*;
use crate::status::{ReasonCode, ReconcileOutcome};
use crate::text::{chars_of, join3};

verus! {

/// What the election needs to know of one brand.
#[derive(Clone, Debug, PartialEq, Eq)]
pub struct BrandReconcileInput {
    pub name: String,
    /// Creation time, in seconds since the epoch; 0 when unknown.
    pub creation_timestamp: i64,
    pub wants_default: bool,
}

/// The election input of brand `name`, created at `creation_timestamp`
/// (absent: 0) and claiming default iff `wants_default`.
pub fn to_input(name: &str, creation_timestamp: Option<i64>, wants_default: bool) -> (b: BrandReconcileInput)
    ensures
        b.name@ == name@,
        b.creation_timestamp == (match creation_timestamp {
            Some(t) => t,
            None => 0,
        }),
        b.wants_default == wants_default,
{
    let ts = match creation_timestamp {
        Some(t) => t,
        None => 0,
    };
    BrandReconcileInput { name: String::from_str(name), creation_timestamp: ts, wants_default }
}

/// Strict lexicographic order on character sequences.
pub open spec fn text_less(a: Seq<char>, b: Seq<char>) -> bool
    decreases a.len(),
{
    if a.len() == 0 {
        b.len() > 0
    } else if b.len() == 0 {
        false
    } else if (a[0] as int) < (b[0] as int) {
        true
    } else if a[0] == b[0] {
        text_less(a.drop_first(), b.drop_first())
    } else {
        false
    }
}

/// Whether brand `a` precedes brand `b` in the election: created earlier,
/// or at the same second with a smaller name.
pub open spec fn precedes(a: BrandReconcileInput, b: BrandReconcileInput) -> bool {
    a.creation_timestamp < b.creation_timestamp || (a.creation_timestamp == b.creation_timestamp
        && text_less(a.name@, b.name@))
}

/// Index of the elected claimant: the first one that no other precedes.
pub open spec fn elected(cs: Seq<BrandReconcileInput>) -> int
    decreases cs.len(),
{
    if cs.len() <= 1 {
        0
    } else {
        let w = elected(cs.drop_last());
        if precedes(cs.last(), cs[w]) {
            cs.len() - 1
        } else {
            w
        }
    }
}

/// The brands claiming default, in order.
pub open spec fn claimants_in(all: Seq<BrandReconcileInput>) -> Seq<BrandReconcileInput>
    decreases all.len(),
{
    if all.len() == 0 {
        Seq::empty()
    } else if all.last().wants_default {
        claimants_in(all.drop_last()).push(all.last())
    } else {
        claimants_in(all.drop_last())
    }
}

/// Whether some brand in `s` is named `name`.
pub open spec fn has_name(s: Seq<BrandReconcileInput>, name: Seq<char>) -> bool {
    exists|i: int| 0 <= i < s.len() && #[trigger] s[i].name@ == name
}

fn text_less_exec(a: &str, b: &str) -> (r: bool)
    ensures
        r == text_less(a@, b@),
{
    let x = chars_of(a);
    let y = chars_of(b);
    let mut i: usize = 0;
    assert(a@.subrange(0, a@.len() as int) =~= a@);
    assert(b@.subrange(0, b@.len() as int) =~= b@);
    while i < x.len() && i < y.len() && x[i] == y[i]
        invariant
            i <= x@.len(),
            i <= y@.len(),
            x@ == a@,
            y@ == b@,
            text_less(a@, b@) == text_less(
                a@.subrange(i as int, a@.len() as int),
                b@.subrange(i as int, b@.len() as int),
            ),
        decreases x@.len() - i,
    {
        let ghost sa = a@.subrange(i as int, a@.len() as int);
        let ghost sb = b@.subrange(i as int, b@.len() as int);
        assert(sa.drop_first() =~= a@.subrange(i + 1, a@.len() as int));
        assert(sb.drop_first() =~= b@.subrange(i + 1, b@.len() as int));
        i = i + 1;
    }
    let ghost sa = a@.subrange(i as int, a@.len() as int);
    let ghost sb = b@.subrange(i as int, b@.len() as int);
    if i == x.len() {
        assert(sa.len() == 0);
        i < y.len()
    } else if i == y.len() {
        assert(sa.len() > 0 && sb.len() == 0);
        false
    } else {
        assert(sa[0] == x@[i as int] && sb[0] == y@[i as int]);
        x[i] < y[i]
    }
}

fn precedes_exec(a: &BrandReconcileInput, b: &BrandReconcileInput) -> (r: bool)
    ensures
        r == precedes(*a, *b),
{
    a.creation_timestamp < b.creation_timestamp || (a.creation_timestamp == b.creation_timestamp
        && text_less_exec(a.name.as_str(), b.name.as_str()))
}

/// The brands claiming default, plus `this` when it claims default and is
/// missing from `all` (a freshly created brand the list may not show yet).
pub fn list_default_claimants(all: Vec<BrandReconcileInput>, this: &BrandReconcileInput) -> (cs: Vec<BrandReconcileInput>)
    ensures
        this.wants_default && !has_name(claimants_in(all@), this.name@) ==> cs@.len() == claimants_in(all@).len() + 1
            && cs@.subrange(0, cs@.len() - 1) == claimants_in(all@)
            && cs@.last().name@ == this.name@
            && cs@.last().creation_timestamp == this.creation_timestamp
            && cs@.last().wants_default == this.wants_default,
        !(this.wants_default && !has_name(claimants_in(all@), this.name@)) ==> cs@ == claimants_in(all@),
{
    let ghost orig = all@;
    let n = all.len();
    let mut rest = all;
    let mut cs: Vec<BrandReconcileInput> = Vec::new();
    let mut k: usize = 0;
    while rest.len() > 0
        invariant
            orig.len() == n,
            k <= n,
            rest@ == orig.subrange(k as int, n as int),
            cs@ == claimants_in(orig.subrange(0, k as int)),
        decreases rest@.len(),
    {
        let b = rest.remove(0);
        proof {
            assert(b == orig[k as int]);
            assert(orig.subrange(0, k + 1).drop_last() =~= orig.subrange(0, k as int));
        }
        if b.wants_default {
            cs.push(b);
        }
        k = k + 1;
        assert(rest@ =~= orig.subrange(k as int, n as int));
    }
    assert(orig.subrange(0, n as int) =~= orig);
    if this.wants_default {
        let mut present = false;
        let mut i: usize = 0;
        while i < cs.len()
            invariant
                i <= cs@.len(),
                present == (exists|j: int| 0 <= j < i && #[trigger] cs@[j].name@ == this.name@),
            decreases cs@.len() - i,
        {
            if cs[i].name == this.name {
                present = true;
            }
            i = i + 1;
        }
        if !present {
            let ghost before = cs@;
            cs.push(BrandReconcileInput {
                name: this.name.clone(),
                creation_timestamp: this.creation_timestamp,
                wants_default: this.wants_default,
            });
            assert(cs@.subrange(0, cs@.len() - 1) =~= before);
        }
    }
    cs
}

/// What a brand's reconcile does about the default.
#[derive(Clone, Debug, PartialEq, Eq)]
pub enum BrandAction {
    /// The brand does not claim default: sync it as a non-default brand.
    NoDefaultClaim,
    /// The brand won the election: sync it as the default brand.
    BecomeDefault,
    /// Another claimant won: refuse, without touching Authentik.
    Conflict { winner_name: String, reason: ReasonCode },
}

/// The election's decision for `this` among claimants `cs`.
pub open spec fn planned_action(this: BrandReconcileInput, cs: Seq<BrandReconcileInput>) -> (u8, Seq<char>) {
    if !this.wants_default {
        (0, Seq::empty())
    } else if cs.len() == 0 || cs[elected(cs)].name@ == this.name@ {
        (1, Seq::empty())
    } else {
        (2, cs[elected(cs)].name@)
    }
}

/// The plain view of an action, to compare with `planned_action`.
pub open spec fn action_view(a: BrandAction) -> (u8, Seq<char>) {
    match a {
        BrandAction::NoDefaultClaim => (0, Seq::empty()),
        BrandAction::BecomeDefault => (1, Seq::empty()),
        BrandAction::Conflict { winner_name, .. } => (2, winner_name@),
    }
}

fn elect(cs: &Vec<BrandReconcileInput>) -> (w: usize)
    requires
        cs@.len() > 0,
    ensures
        w == elected(cs@),
        w < cs@.len(),
{
    let mut w: usize = 0;
    let mut i: usize = 1;
    assert(elected(cs@.subrange(0, 1)) == 0);
    while i < cs.len()
        invariant
            1 <= i <= cs@.len(),
            w < i,
            w == elected(cs@.subrange(0, i as int)),
        decreases cs@.len() - i,
    {
        let ghost pre = cs@.subrange(0, i as int);
        let ghost next = cs@.subrange(0, i + 1);
        assert(next.drop_last() =~= pre);
        assert(pre[w as int] == cs@[w as int]);
        if precedes_exec(&cs[i], &cs[w]) {
            w = i;
        }
        i = i + 1;
    }
    assert(cs@.subrange(0, cs@.len() as int) =~= cs@);
    w
}

/// Decides what `this` does about the default, given every claimant.
/// A brand not claiming default never conflicts; a claimant becomes the
/// default iff it is the elected claimant (the earliest created, ties
/// broken by name); any other claimant conflicts with the winner.
pub fn plan_brand_action(this: &BrandReconcileInput, claimants: &Vec<BrandReconcileInput>) -> (a: BrandAction)
    ensures
        action_view(a) == planned_action(*this, claimants@),
        a matches BrandAction::Conflict { reason, .. } ==> reason == ReasonCode::DefaultBrandConflict,
{
    if !this.wants_default {
        return BrandAction::NoDefaultClaim;
    }
    if claimants.len() == 0 {
        return BrandAction::BecomeDefault;
    }
    let w = elect(claimants);
    if claimants[w].name == this.name {
        BrandAction::BecomeDefault
    } else {
        BrandAction::Conflict {
            winner_name: claimants[w].name.clone(),
            reason: ReasonCode::DefaultBrandConflict,
        }
    }
}

impl BrandAction {
    /// Whether the brand is synced as the default (`Some(true)`), as a
    /// non-default brand (`Some(false)`), or not synced at all (`None`).
    pub fn sync_as_default(&self) -> (d: Option<bool>)
        ensures
            action_view(*self).0 == 0 ==> d == Some(false),
            action_view(*self).0 == 1 ==> d == Some(true),
            action_view(*self).0 == 2 ==> d is None,
    {
        match self {
            BrandAction::NoDefaultClaim => Some(false),
            BrandAction::BecomeDefault => Some(true),
            BrandAction::Conflict { .. } => None,
        }
    }
}

/// The outcome reported by a brand that lost the election to `winner_name`.
pub fn conflict_outcome(winner_name: &str, reason: ReasonCode) -> (o: ReconcileOutcome)
    ensures
        o matches ReconcileOutcome::Errored { reason: r, message } && r == reason
            && message@ == "another AuthentikBrand ("@ + winner_name@ + ") already holds spec.default: true"@,
{
    ReconcileOutcome::Errored {
        reason,
        message: join3("another AuthentikBrand (", winner_name, ") already holds spec.default: true"),
    }
}

proof fn lemma_text_less_irreflexive(a: Seq<char>)
    ensures
        !text_less(a, a),
    decreases a.len(),
{
    if a.len() > 0 {
        lemma_text_less_irreflexive(a.drop_first());
    }
}

proof fn lemma_text_less_transitive(a: Seq<char>, b: Seq<char>, c: Seq<char>)
    requires
        text_less(a, b),
        text_less(b, c),
    ensures
        text_less(a, c),
    decreases a.len(),
{
    if a.len() > 0 && b.len() > 0 && c.len() > 0 && a[0] == b[0] && b[0] == c[0] {
        lemma_text_less_transitive(a.drop_first(), b.drop_first(), c.drop_first());
    }
}

proof fn lemma_precedes_transitive(a: BrandReconcileInput, b: BrandReconcileInput, c: BrandReconcileInput)
    requires
        precedes(a, b),
        precedes(b, c),
    ensures
        precedes(a, c),
{
    if a.creation_timestamp == b.creation_timestamp && b.creation_timestamp == c.creation_timestamp {
        lemma_text_less_transitive(a.name@, b.name@, c.name@);
    }
}

proof fn lemma_elected_is_minimal(cs: Seq<BrandReconcileInput>)
    requires
        cs.len() > 0,
    ensures
        0 <= elected(cs) < cs.len(),
        forall|j: int| 0 <= j < cs.len() ==> !precedes(#[trigger] cs[j], cs[elected(cs)]),
    decreases cs.len(),
{
    if cs.len() == 1 {
        lemma_text_less_irreflexive(cs[0].name@);
    } else {
        let pre = cs.drop_last();
        lemma_elected_is_minimal(pre);
        let w = elected(pre);
        assert(pre[w] == cs[w]);
        if precedes(cs.last(), cs[w]) {
            lemma_text_less_irreflexive(cs.last().name@);
            assert forall|j: int| 0 <= j < cs.len() implies !precedes(#[trigger] cs[j], cs[cs.len() - 1]) by {
                if j < cs.len() - 1 {
                    assert(pre[j] == cs[j]);
                    if precedes(cs[j], cs.last()) {
                        lemma_precedes_transitive(cs[j], cs.last(), cs[w]);
                    }
                }
            }
        } else {
            assert forall|j: int| 0 <= j < cs.len() implies !precedes(#[trigger] cs[j], cs[w]) by {
                if j < cs.len() - 1 {
                    assert(pre[j] == cs[j]);
                }
            }
        }
    }
}

/// Against the same claimants, at most one name is told to become the
/// default: two brands that both win carry the same name.
pub proof fn at_most_one_default(a: BrandReconcileInput, b: BrandReconcileInput, cs: Seq<BrandReconcileInput>)
    requires
        cs.len() > 0,
        planned_action(a, cs).0 == 1,
        planned_action(b, cs).0 == 1,
    ensures
        a.name@ == b.name@,
{
}

/// The winner is one of the claimants, and no claimant precedes it: it is
/// the earliest created (smallest name among those created the same
/// second). A lone claimant always wins, and a brand that does not claim
/// default is never in conflict.
pub proof fn winner_is_the_earliest_claimant(this: BrandReconcileInput, cs: Seq<BrandReconcileInput>)
    ensures
        cs.len() > 0 ==> 0 <= elected(cs) < cs.len(),
        cs.len() > 0 ==> forall|j: int| 0 <= j < cs.len() ==> !precedes(#[trigger] cs[j], cs[elected(cs)]),
        this.wants_default && cs == seq![this] ==> planned_action(this, cs).0 == 1,
        !this.wants_default ==> planned_action(this, cs).0 == 0,
{
    if cs.len() > 0 {
        lemma_elected_is_minimal(cs);
    }
}

} // verus!
