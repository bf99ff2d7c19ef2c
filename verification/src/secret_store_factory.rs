//! Routing of an application's oauth2 credentials: the instance's single
//! default destination when the application lists no `secretTargets`,
//! otherwise one resolved destination per target; and the cache of Vault
//! logins, keyed by instance.
use vstd::prelude::*;
use crate::crd::application::SecretTarget;
use crate::crd::instance::{
    AuthentikInstanceSpec, SecretKeyRef, SecretStoreBackend, VaultSecretStoreSpec,
};
use crate::ports::SecretStoreFactoryError;
use crate::text::{debug_quoted, debug_text, join2, join3, same_text};

verus! {

/// std's `Debug` rendering of an optional string: `Some("…")` or `None`.
pub open spec fn debug_option_text(name: Option<Seq<char>>) -> Seq<char> {
    match name {
        Some(n) => "Some("@ + debug_text(n) + ")"@,
        None => "None"@,
    }
}

/// The error for an instance asked for a Vault destination without a
/// `secretStore.vault` block.
pub open spec fn missing_vault_text(instance_name: Option<Seq<char>>) -> Seq<char> {
    "AuthentikInstance "@ + debug_option_text(instance_name)
        + " is asked for a Vault secret destination but has no secretStore.vault config"@
}

/// The plain view of an optional string.
pub open spec fn opt_view(s: Option<String>) -> Option<Seq<char>> {
    match s {
        Some(x) => Some(x@),
        None => None,
    }
}

fn missing_vault(instance_name: &Option<String>) -> (e: SecretStoreFactoryError)
    ensures
        e matches SecretStoreFactoryError::ResolutionFailed(m) && m@ == missing_vault_text(opt_view(*instance_name)),
{
    let shown = match instance_name {
        Some(n) => {
            let q = debug_quoted(n.as_str());
            join3("Some(", q.as_str(), ")")
        },
        None => String::from_str("None"),
    };
    SecretStoreFactoryError::ResolutionFailed(join3(
        "AuthentikInstance ",
        shown.as_str(),
        " is asked for a Vault secret destination but has no secretStore.vault config",
    ))
}

/// The Vault connection config of an instance asked for a Vault
/// destination; its absence is a misconfiguration, never a silent skip.
pub fn require_vault_spec<'a>(instance_name: &Option<String>, instance: &'a AuthentikInstanceSpec) -> (r: Result<&'a VaultSecretStoreSpec, SecretStoreFactoryError>)
    ensures
        instance.secret_store.vault matches Some(v) ==> r == Ok::<&VaultSecretStoreSpec, SecretStoreFactoryError>(&v),
        instance.secret_store.vault is None ==> (r matches Err(SecretStoreFactoryError::ResolutionFailed(m))
            && m@ == missing_vault_text(opt_view(*instance_name))),
{
    match &instance.secret_store.vault {
        Some(v) => Ok(v),
        None => Err(missing_vault(instance_name)),
    }
}

/// The instance-default destination of an application's credentials.
#[derive(Clone, Copy, Debug, PartialEq, Eq)]
pub enum DefaultDestination {
    /// A Secret named after the application, in its namespace.
    Kubernetes,
    /// The instance's Vault path convention.
    Vault,
}

/// The instance-default destination: the backend the instance names, a
/// Vault backend requiring the instance's Vault config.
pub fn default_destination(instance_name: &Option<String>, instance: &AuthentikInstanceSpec) -> (r: Result<DefaultDestination, SecretStoreFactoryError>)
    ensures
        instance.secret_store.backend == SecretStoreBackend::Kubernetes ==> r == Ok::<DefaultDestination, SecretStoreFactoryError>(DefaultDestination::Kubernetes),
        instance.secret_store.backend == SecretStoreBackend::Vault && instance.secret_store.vault is Some
            ==> r == Ok::<DefaultDestination, SecretStoreFactoryError>(DefaultDestination::Vault),
        instance.secret_store.backend == SecretStoreBackend::Vault && instance.secret_store.vault is None
            ==> (r matches Err(SecretStoreFactoryError::ResolutionFailed(m)) && m@ == missing_vault_text(opt_view(*instance_name))),
{
    match instance.secret_store.backend {
        SecretStoreBackend::Kubernetes => Ok(DefaultDestination::Kubernetes),
        SecretStoreBackend::Vault => match require_vault_spec(instance_name, instance) {
            Ok(_) => Ok(DefaultDestination::Vault),
            Err(e) => Err(e),
        },
    }
}

/// The namespace and name an application's credentials are filed under:
/// its own namespace (empty when unset), and its own name, falling back to
/// its slug.
pub fn store_coordinates(namespace: Option<String>, name: Option<String>, slug: &str) -> (c: (String, String))
    ensures
        c.0@ == (match namespace {
            Some(n) => n@,
            None => Seq::<char>::empty(),
        }),
        c.1@ == (match name {
            Some(n) => n@,
            None => slug@,
        }),
{
    let ns = match namespace {
        Some(n) => n,
        None => String::new(),
    };
    let nm = match name {
        Some(n) => n,
        None => String::from_str(slug),
    };
    (ns, nm)
}

/// One application target, fully resolved.
#[derive(Clone, Debug, PartialEq, Eq)]
pub enum PlannedTarget {
    /// The Secret `namespace/name`.
    Kubernetes { namespace: String, name: String },
    /// The KV path `path` under the instance's Vault mount.
    Vault { path: String },
}

/// Where target `t` of application `namespace/name` resolves to, given the
/// instance's Vault path prefix.
pub open spec fn target_view(t: SecretTarget, prefix: Seq<char>, namespace: Seq<char>, name: Seq<char>) -> (bool, Seq<char>, Seq<char>) {
    match t.backend {
        SecretStoreBackend::Kubernetes => (
            true,
            namespace,
            match t.name {
                Some(n) => n@,
                None => name,
            },
        ),
        SecretStoreBackend::Vault => (
            false,
            Seq::empty(),
            match t.path {
                Some(p) => p@,
                None => prefix + "/"@ + namespace + "/"@ + name,
            },
        ),
    }
}

/// The plain view of a planned target.
pub open spec fn planned_view(p: PlannedTarget) -> (bool, Seq<char>, Seq<char>) {
    match p {
        PlannedTarget::Kubernetes { namespace, name } => (true, namespace@, name@),
        PlannedTarget::Vault { path } => (false, Seq::empty(), path@),
    }
}

/// Whether some target goes to Vault.
pub open spec fn uses_vault(targets: Seq<SecretTarget>) -> bool {
    exists|i: int| 0 <= i < targets.len() && #[trigger] targets[i].backend == SecretStoreBackend::Vault
}

/// Resolves every `secretTargets` entry of application `namespace/name`:
/// a Kubernetes target to the Secret it names (default: the application's
/// name) in the application's namespace; a Vault target to the path it
/// names (default: `<pathPrefix>/<namespace>/<name>`). A Vault target on an
/// instance without Vault config fails the whole plan.
pub fn plan_secret_targets(instance_name: &Option<String>, instance: &AuthentikInstanceSpec, namespace: &str, name: &str, targets: &Vec<SecretTarget>) -> (r: Result<Vec<PlannedTarget>, SecretStoreFactoryError>)
    ensures
        uses_vault(targets@) && instance.secret_store.vault is None ==> (r matches Err(SecretStoreFactoryError::ResolutionFailed(m))
            && m@ == missing_vault_text(opt_view(*instance_name))),
        !(uses_vault(targets@) && instance.secret_store.vault is None) ==> (r matches Ok(ps)
            && ps@.len() == targets@.len()
            && forall|i: int| 0 <= i < ps@.len() ==> planned_view(#[trigger] ps@[i]) == target_view(
                targets@[i],
                match instance.secret_store.vault {
                    Some(v) => v.path_prefix@,
                    None => Seq::<char>::empty(),
                },
                namespace@,
                name@,
            )),
{
    let ghost prefix = match &instance.secret_store.vault {
        Some(v) => v.path_prefix@,
        None => Seq::<char>::empty(),
    };
    let mut out: Vec<PlannedTarget> = Vec::new();
    let mut i: usize = 0;
    while i < targets.len()
        invariant
            i <= targets@.len(),
            out@.len() == i,
            prefix == (match instance.secret_store.vault {
                Some(v) => v.path_prefix@,
                None => Seq::<char>::empty(),
            }),
            forall|j: int| 0 <= j < i ==> planned_view(#[trigger] out@[j]) == target_view(targets@[j], prefix, namespace@, name@),
            forall|j: int| 0 <= j < i ==> (#[trigger] targets@[j]).backend == SecretStoreBackend::Vault
                ==> instance.secret_store.vault is Some,
        decreases targets@.len() - i,
    {
        let t = &targets[i];
        match t.backend {
            SecretStoreBackend::Kubernetes => {
                let secret_name = match &t.name {
                    Some(n) => n.clone(),
                    None => String::from_str(name),
                };
                out.push(PlannedTarget::Kubernetes { namespace: String::from_str(namespace), name: secret_name });
            },
            SecretStoreBackend::Vault => {
                let v = match require_vault_spec(instance_name, instance) {
                    Ok(v) => v,
                    Err(e) => {
                        assert(uses_vault(targets@) && targets@[i as int].backend == SecretStoreBackend::Vault);
                        return Err(e);
                    },
                };
                let path = match &t.path {
                    Some(p) => p.clone(),
                    None => {
                        let head = join3(v.path_prefix.as_str(), "/", namespace);
                        join3(head.as_str(), "/", name)
                    },
                };
                out.push(PlannedTarget::Vault { path });
            },
        }
        i = i + 1;
    }
    proof {
        if uses_vault(targets@) {
            let j = choose|j: int| 0 <= j < targets@.len() && #[trigger] targets@[j].backend == SecretStoreBackend::Vault;
            assert(instance.secret_store.vault is Some);
        }
    }
    Ok(out)
}

/// The plain view of a Vault connection config, for comparison.
pub open spec fn vault_spec_view(s: VaultSecretStoreSpec) -> (Seq<char>, Seq<char>, Seq<char>, Seq<char>, Seq<char>, Option<(Seq<char>, Seq<char>, Seq<char>)>) {
    (
        s.address@,
        s.mount@,
        s.path_prefix@,
        s.kubernetes_auth_role@,
        s.kubernetes_auth_mount@,
        match s.ca_secret_ref {
            Some(r) => Some((r.name@, r.namespace@, r.key@)),
            None => None,
        },
    )
}

fn same_key_ref(a: &Option<SecretKeyRef>, b: &Option<SecretKeyRef>) -> (r: bool)
    ensures
        r == (match (*a, *b) {
            (Some(x), Some(y)) => x.name@ == y.name@ && x.namespace@ == y.namespace@ && x.key@ == y.key@,
            (None, None) => true,
            _ => false,
        }),
{
    match (a, b) {
        (Some(x), Some(y)) => same_text(x.name.as_str(), y.name.as_str()) && same_text(
            x.namespace.as_str(),
            y.namespace.as_str(),
        ) && same_text(x.key.as_str(), y.key.as_str()),
        (None, None) => true,
        _ => false,
    }
}

/// Whether two Vault connection configs are the same.
pub fn same_vault_spec(a: &VaultSecretStoreSpec, b: &VaultSecretStoreSpec) -> (r: bool)
    ensures
        r == (vault_spec_view(*a) == vault_spec_view(*b)),
{
    let r = same_text(a.address.as_str(), b.address.as_str()) && same_text(a.mount.as_str(), b.mount.as_str())
        && same_text(a.path_prefix.as_str(), b.path_prefix.as_str()) && same_text(
        a.kubernetes_auth_role.as_str(),
        b.kubernetes_auth_role.as_str(),
    ) && same_text(a.kubernetes_auth_mount.as_str(), b.kubernetes_auth_mount.as_str())
        && same_key_ref(&a.ca_secret_ref, &b.ca_secret_ref);
    proof {
        if !r {
            if !same_key_ref_spec(a.ca_secret_ref, b.ca_secret_ref) {
                assert(vault_spec_view(*a).5 != vault_spec_view(*b).5);
            }
        }
    }
    r
}

/// Two Vault configs are the same config exactly when they agree on the
/// address, the mount, the path prefix, the Kubernetes auth role and mount,
/// and the CA bundle reference (both absent, or the same name, namespace
/// and key).
pub proof fn vault_configs_are_the_same_exactly_when_every_field_is(
    a: VaultSecretStoreSpec,
    b: VaultSecretStoreSpec,
)
    ensures
        (vault_spec_view(a) == vault_spec_view(b)) <==> (a.address@ == b.address@
            && a.mount@ == b.mount@ && a.path_prefix@ == b.path_prefix@
            && a.kubernetes_auth_role@ == b.kubernetes_auth_role@
            && a.kubernetes_auth_mount@ == b.kubernetes_auth_mount@
            && match (a.ca_secret_ref, b.ca_secret_ref) {
            (Some(x), Some(y)) => x.name@ == y.name@ && x.namespace@ == y.namespace@ && x.key@ == y.key@,
            (None, None) => true,
            _ => false,
        }),
{
}

spec fn same_key_ref_spec(a: Option<SecretKeyRef>, b: Option<SecretKeyRef>) -> bool {
    match (a, b) {
        (Some(x), Some(y)) => x.name@ == y.name@ && x.namespace@ == y.namespace@ && x.key@ == y.key@,
        (None, None) => true,
        _ => false,
    }
}

/// The abstract value of one cached login: when it expires (in
/// milliseconds on the caller's clock), the Vault config it was made with,
/// and the caller's slot holding the connection.
pub type LoginView = (u64, (Seq<char>, Seq<char>, Seq<char>, Seq<char>, Seq<char>, Option<(Seq<char>, Seq<char>, Seq<char>)>), usize);

/// One cached Vault login.
pub struct CachedLogin {
    pub instance_ref: String,
    pub expires_at: u64,
    pub spec: VaultSecretStoreSpec,
    pub slot: usize,
}

/// The abstract value of a cached login.
pub open spec fn login_view(e: CachedLogin) -> LoginView {
    (e.expires_at, vault_spec_view(e.spec), e.slot)
}

/// The map from instance name to login that a list of entries holds.
pub open spec fn cache_map(s: Seq<CachedLogin>) -> Map<Seq<char>, LoginView>
    decreases s.len(),
{
    if s.len() == 0 {
        Map::empty()
    } else {
        cache_map(s.drop_last()).insert(s.last().instance_ref@, login_view(s.last()))
    }
}

/// No two entries share an instance name.
pub open spec fn keys_distinct(s: Seq<CachedLogin>) -> bool {
    forall|i: int, j: int| 0 <= i < s.len() && 0 <= j < s.len() && i != j ==> #[trigger] s[i].instance_ref@ != #[trigger] s[j].instance_ref@
}

proof fn lemma_cache_map_dom(s: Seq<CachedLogin>, k: Seq<char>)
    ensures
        cache_map(s).contains_key(k) <==> exists|i: int| 0 <= i < s.len() && #[trigger] s[i].instance_ref@ == k,
    decreases s.len(),
{
    if s.len() > 0 {
        let pre = s.drop_last();
        lemma_cache_map_dom(pre, k);
        if cache_map(s).contains_key(k) && s.last().instance_ref@ != k {
            let i = choose|i: int| 0 <= i < pre.len() && #[trigger] pre[i].instance_ref@ == k;
            assert(s[i] == pre[i]);
        }
        if exists|i: int| 0 <= i < s.len() && #[trigger] s[i].instance_ref@ == k {
            let i = choose|i: int| 0 <= i < s.len() && #[trigger] s[i].instance_ref@ == k;
            if i < s.len() - 1 {
                assert(pre[i] == s[i]);
            }
        }
    }
}

proof fn lemma_cache_map_value(s: Seq<CachedLogin>, i: int)
    requires
        keys_distinct(s),
        0 <= i < s.len(),
    ensures
        cache_map(s).contains_key(s[i].instance_ref@),
        cache_map(s)[s[i].instance_ref@] == login_view(s[i]),
    decreases s.len(),
{
    let pre = s.drop_last();
    if i < s.len() - 1 {
        assert(pre[i] == s[i]);
        assert(keys_distinct(pre)) by {
            assert forall|a: int, b: int| 0 <= a < pre.len() && 0 <= b < pre.len() && a != b implies #[trigger] pre[a].instance_ref@ != #[trigger] pre[b].instance_ref@ by {
                assert(pre[a] == s[a] && pre[b] == s[b]);
            }
        }
        lemma_cache_map_value(pre, i);
        assert(s[i].instance_ref@ != s[s.len() - 1].instance_ref@);
    }
}

proof fn lemma_cache_map_remove(s: Seq<CachedLogin>, i: int)
    requires
        keys_distinct(s),
        0 <= i < s.len(),
    ensures
        keys_distinct(s.remove(i)),
        cache_map(s.remove(i)) == cache_map(s).remove(s[i].instance_ref@),
    decreases s.len(),
{
    let r = s.remove(i);
    let k = s[i].instance_ref@;
    assert forall|a: int, b: int| 0 <= a < r.len() && 0 <= b < r.len() && a != b implies #[trigger] r[a].instance_ref@ != #[trigger] r[b].instance_ref@ by {
        let sa = if a < i { a } else { a + 1 };
        let sb = if b < i { b } else { b + 1 };
        assert(r[a] == s[sa] && r[b] == s[sb]);
    }
    let pre = s.drop_last();
    assert(keys_distinct(pre)) by {
        assert forall|a: int, b: int| 0 <= a < pre.len() && 0 <= b < pre.len() && a != b implies #[trigger] pre[a].instance_ref@ != #[trigger] pre[b].instance_ref@ by {
            assert(pre[a] == s[a] && pre[b] == s[b]);
        }
    }
    if i == s.len() - 1 {
        assert(r =~= pre);
        assert(!cache_map(pre).contains_key(k)) by {
            lemma_cache_map_dom(pre, k);
            if cache_map(pre).contains_key(k) {
                let j = choose|j: int| 0 <= j < pre.len() && #[trigger] pre[j].instance_ref@ == k;
                assert(pre[j] == s[j]);
            }
        }
        assert(cache_map(s).remove(k) =~= cache_map(pre));
    } else {
        lemma_cache_map_remove(pre, i);
        assert(r.drop_last() =~= pre.remove(i));
        assert(r.last() == s.last());
        assert(s.last().instance_ref@ != k);
        assert(cache_map(r) =~= cache_map(s).remove(k));
    }
}

/// The connection slot a lookup yields: a login for `key` made with the
/// same Vault config and not yet expired at `now`.
pub open spec fn cache_hit(m: Map<Seq<char>, LoginView>, key: Seq<char>, now: u64, spec: (Seq<char>, Seq<char>, Seq<char>, Seq<char>, Seq<char>, Option<(Seq<char>, Seq<char>, Seq<char>)>)) -> Option<usize> {
    if m.contains_key(key) && now < m[key].0 && m[key].1 == spec {
        Some(m[key].2)
    } else {
        None
    }
}

/// Vault logins by instance name, so that reconciles of applications
/// sharing an instance reuse one login for as long as its lease allows.
/// The caller holds the connections; the cache holds their slots.
pub struct VaultLoginCache {
    entries: Vec<CachedLogin>,
}

impl View for VaultLoginCache {
    type V = Map<Seq<char>, LoginView>;

    closed spec fn view(&self) -> Map<Seq<char>, LoginView> {
        cache_map(self.entries@)
    }
}

fn find_login(entries: &Vec<CachedLogin>, instance_ref: &str) -> (r: Option<usize>)
    ensures
        r matches Some(i) ==> i < entries@.len() && entries@[i as int].instance_ref@ == instance_ref@,
        r is None ==> forall|j: int| 0 <= j < entries@.len() ==> #[trigger] entries@[j].instance_ref@ != instance_ref@,
{
    let mut i: usize = 0;
    while i < entries.len()
        invariant
            i <= entries@.len(),
            forall|j: int| 0 <= j < i ==> #[trigger] entries@[j].instance_ref@ != instance_ref@,
        decreases entries@.len() - i,
    {
        if same_text(entries[i].instance_ref.as_str(), instance_ref) {
            return Some(i);
        }
        i = i + 1;
    }
    None
}

impl VaultLoginCache {
    #[verifier::type_invariant]
    closed spec fn distinct_instances(&self) -> bool {
        keys_distinct(self.entries@)
    }

    /// An empty cache.
    pub fn new() -> (c: Self)
        ensures
            c@ == Map::<Seq<char>, LoginView>::empty(),
    {
        VaultLoginCache { entries: Vec::new() }
    }

    /// The slot of the login for `instance_ref`, when one was recorded with
    /// the same Vault config and has not expired at `now`.
    pub fn lookup(&self, instance_ref: &str, now: u64, spec: &VaultSecretStoreSpec) -> (r: Option<usize>)
        ensures
            r == cache_hit(self@, instance_ref@, now, vault_spec_view(*spec)),
    {
        proof {
            use_type_invariant(self);
            lemma_cache_map_dom(self.entries@, instance_ref@);
        }
        match find_login(&self.entries, instance_ref) {
            Some(i) => {
                let e = &self.entries[i];
                proof {
                    lemma_cache_map_value(self.entries@, i as int);
                }
                if now < e.expires_at && same_vault_spec(&e.spec, spec) {
                    Some(e.slot)
                } else {
                    None
                }
            },
            None => None,
        }
    }

    /// Records the login for `instance_ref`, replacing any earlier one.
    pub fn record(&mut self, instance_ref: String, expires_at: u64, spec: VaultSecretStoreSpec, slot: usize)
        ensures
            final(self)@ == old(self)@.insert(instance_ref@, (expires_at, vault_spec_view(spec), slot)),
    {
        proof {
            use_type_invariant(&*self);
        }
        let ghost key = instance_ref@;
        let ghost before = cache_map(self.entries@);
        let mut entries: Vec<CachedLogin> = Vec::new();
        std::mem::swap(&mut entries, &mut self.entries);
        assert(keys_distinct(entries@));
        assert(cache_map(entries@) == before);
        match find_login(&entries, instance_ref.as_str()) {
            Some(i) => {
                proof {
                    lemma_cache_map_remove(entries@, i as int);
                }
                entries.remove(i);
            },
            None => {
                proof {
                    lemma_cache_map_dom(entries@, key);
                    assert(before.remove(key) =~= before);
                }
            },
        }
        assert(cache_map(entries@) == before.remove(key));
        proof {
            lemma_cache_map_dom(entries@, key);
        }
        let ghost mid = entries@;
        entries.push(CachedLogin { instance_ref, expires_at, spec, slot });
        proof {
            assert(entries@.drop_last() =~= mid);
            assert forall|a: int, b: int| 0 <= a < entries@.len() && 0 <= b < entries@.len() && a != b implies #[trigger] entries@[a].instance_ref@ != #[trigger] entries@[b].instance_ref@ by {
                if a < mid.len() && b < mid.len() {
                    assert(entries@[a] == mid[a] && entries@[b] == mid[b]);
                } else if a < mid.len() {
                    assert(entries@[a] == mid[a]);
                } else if b < mid.len() {
                    assert(entries@[b] == mid[b]);
                }
            }
            assert(cache_map(entries@) =~= before.insert(key, (expires_at, vault_spec_view(spec), slot)));
        }
        self.entries = entries;
    }
}

/// When a login made at `now` (milliseconds) with cache lifetime
/// `ttl_secs` expires: `now` plus the lifetime, saturating; a login that
/// must not be cached expires at once.
pub fn login_expiry(now: u64, ttl_secs: Option<u64>) -> (e: u64)
    ensures
        ttl_secs is None ==> e == now,
        ttl_secs matches Some(t) ==> e == (if now + t * 1000 <= u64::MAX {
            (now + t * 1000) as u64
        } else {
            u64::MAX
        }),
{
    match ttl_secs {
        None => now,
        Some(t) => {
            if t > (u64::MAX - now) / 1000 {
                u64::MAX
            } else {
                now + t * 1000
            }
        },
    }
}

/// A recorded login is handed back for its instance, with the same Vault
/// config, until it expires, and never afterwards nor for another config;
/// recording it leaves every other instance's lookups as they were.
pub proof fn recorded_login_is_reused_until_it_expires(
    m: Map<Seq<char>, LoginView>,
    key: Seq<char>,
    login: LoginView,
    other: Seq<char>,
    now: u64,
    spec: (Seq<char>, Seq<char>, Seq<char>, Seq<char>, Seq<char>, Option<(Seq<char>, Seq<char>, Seq<char>)>),
)
    requires
        other != key,
    ensures
        cache_hit(m.insert(key, login), key, now, spec) == (if now < login.0 && spec == login.1 {
            Some(login.2)
        } else {
            None
        }),
        cache_hit(m.insert(key, login), other, now, spec) == cache_hit(m, other, now, spec),
{
}

/// A login recorded for an instance is never handed back for a Vault
/// config whose address differs from the one it was made with, however
/// fresh it is: the instance's connection goes to a new Vault.
pub proof fn a_login_is_not_reused_for_another_vault_address(
    m: Map<Seq<char>, LoginView>,
    key: Seq<char>,
    expires_at: u64,
    made_with: VaultSecretStoreSpec,
    asked_with: VaultSecretStoreSpec,
    slot: usize,
    now: u64,
)
    requires
        made_with.address@ != asked_with.address@,
    ensures
        cache_hit(m.insert(key, (expires_at, vault_spec_view(made_with), slot)), key, now, vault_spec_view(asked_with))
            is None,
{
    vault_configs_are_the_same_exactly_when_every_field_is(made_with, asked_with);
}

/// A login recorded for an instance is handed back for a lookup with a
/// Vault config equal field by field to the one it was made with exactly
/// while it has not expired.
pub proof fn a_login_is_reused_for_the_same_vault_config_until_it_expires(
    m: Map<Seq<char>, LoginView>,
    key: Seq<char>,
    expires_at: u64,
    made_with: VaultSecretStoreSpec,
    asked_with: VaultSecretStoreSpec,
    slot: usize,
    now: u64,
)
    requires
        made_with.address@ == asked_with.address@,
        made_with.mount@ == asked_with.mount@,
        made_with.path_prefix@ == asked_with.path_prefix@,
        made_with.kubernetes_auth_role@ == asked_with.kubernetes_auth_role@,
        made_with.kubernetes_auth_mount@ == asked_with.kubernetes_auth_mount@,
        match (made_with.ca_secret_ref, asked_with.ca_secret_ref) {
            (Some(x), Some(y)) => x.name@ == y.name@ && x.namespace@ == y.namespace@ && x.key@ == y.key@,
            (None, None) => true,
            _ => false,
        },
    ensures
        cache_hit(m.insert(key, (expires_at, vault_spec_view(made_with), slot)), key, now, vault_spec_view(asked_with))
            == (if now < expires_at { Some(slot) } else { None }),
{
    vault_configs_are_the_same_exactly_when_every_field_is(made_with, asked_with);
}

} // verus!
