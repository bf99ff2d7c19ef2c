//! The Vault KV v2 backend's decisions: the path convention, how long a
//! login may be reused, whether a stored document already matches, and
//! the single re-login-and-retry on an authentication failure.
use vstd::prelude::*;
use crate::crd::instance::VaultSecretStoreSpec;
use crate::ports::{credential_document, pairs_view, Oauth2Credentials, SecretStoreError};
use crate::text::{debug_quoted, debug_text, join3, join4, same_text};

verus! {

/// How long a login may be cached, in seconds: 80% of a renewable,
/// non-zero lease; `None` (do not cache) otherwise.
pub open spec fn ttl_of_lease(lease_duration: u64, renewable: bool) -> Option<u64> {
    if lease_duration == 0 || !renewable {
        None
    } else {
        Some((lease_duration * 4 / 5) as u64)
    }
}

/// How long a Vault login may be reused, in seconds: 80% of its lease,
/// leaving headroom before the token expires. A zero lease or a
/// non-renewable token is never cached. Computed without overflow for every
/// lease, however long.
pub fn cache_ttl_from_lease(lease_duration: u64, renewable: bool) -> (ttl: Option<u64>)
    ensures
        ttl == ttl_of_lease(lease_duration, renewable),
{
    if lease_duration == 0 || !renewable {
        return None;
    }
    let q = lease_duration / 5;
    let r = lease_duration % 5;
    assert(q * 4 + r * 4 / 5 == lease_duration * 4 / 5 && q * 4 + r * 4 / 5 <= lease_duration) by (nonlinear_arith)
        requires
            q == lease_duration / 5,
            r == lease_duration % 5,
    {
        assert(lease_duration == 5 * q + r);
        assert(lease_duration * 4 == 5 * (4 * q) + 4 * r);
    }
    Some(q * 4 + r * 4 / 5)
}

/// A cached login never outlives its lease.
pub proof fn cached_login_ends_before_its_lease(lease_duration: u64, renewable: bool)
    ensures
        ttl_of_lease(lease_duration, renewable) matches Some(t) ==> t < lease_duration,
{
}

/// The connection-independent part of a Vault-backed store: where it
/// writes, how it re-authenticates, and how long its login may be reused.
#[derive(Clone, Debug, PartialEq, Eq)]
pub struct VaultSecretStore {
    pub mount: String,
    pub path_prefix: String,
    pub kubernetes_auth_mount: String,
    pub kubernetes_auth_role: String,
    /// This pod's ServiceAccount token, already trimmed.
    pub jwt: String,
    /// Seconds the login may be reused; `None`: re-login on every use.
    pub cache_ttl: Option<u64>,
}

/// The error of a failed Kubernetes-auth login.
pub open spec fn login_failure_text(auth_mount: Seq<char>, role: Seq<char>, rendered: Seq<char>) -> Seq<char> {
    "Vault Kubernetes auth login (mount "@ + debug_text(auth_mount) + ", role "@ + debug_text(role)
        + ") failed: "@ + rendered
}

/// The error of a failed re-login.
pub open spec fn relogin_failure_text(auth_mount: Seq<char>, role: Seq<char>, rendered: Seq<char>) -> Seq<char> {
    "Vault Kubernetes auth re-login (mount "@ + debug_text(auth_mount) + ", role "@ + debug_text(role)
        + ") failed: "@ + rendered
}

fn auth_failure(prefix: &str, auth_mount: &str, role: &str, rendered: &str) -> (e: SecretStoreError)
    ensures
        e matches SecretStoreError::Write(m) && m@ == prefix@ + debug_text(auth_mount@) + ", role "@
            + debug_text(role@) + ") failed: "@ + rendered@,
{
    let mq = debug_quoted(auth_mount);
    let rq = debug_quoted(role);
    let head = join4(prefix, mq.as_str(), ", role ", rq.as_str());
    SecretStoreError::Write(join3(head.as_str(), ") failed: ", rendered))
}

/// The error reported when the Kubernetes-auth login of `spec` failed with
/// `rendered`.
pub fn login_error(spec: &VaultSecretStoreSpec, rendered: &str) -> (e: SecretStoreError)
    ensures
        e matches SecretStoreError::Write(m) && m@ == login_failure_text(
            spec.kubernetes_auth_mount@,
            spec.kubernetes_auth_role@,
            rendered@,
        ),
{
    auth_failure(
        "Vault Kubernetes auth login (mount ",
        spec.kubernetes_auth_mount.as_str(),
        spec.kubernetes_auth_role.as_str(),
        rendered,
    )
}

impl VaultSecretStore {
    /// The store built from a successful login with `spec`'s role, whose
    /// token lease is `lease_duration` seconds (`renewable` or not).
    pub fn new(spec: &VaultSecretStoreSpec, jwt: String, lease_duration: u64, renewable: bool) -> (s: Self)
        ensures
            s.mount == spec.mount,
            s.path_prefix == spec.path_prefix,
            s.kubernetes_auth_mount == spec.kubernetes_auth_mount,
            s.kubernetes_auth_role == spec.kubernetes_auth_role,
            s.jwt == jwt,
            s.cache_ttl == ttl_of_lease(lease_duration, renewable),
    {
        VaultSecretStore {
            mount: spec.mount.clone(),
            path_prefix: spec.path_prefix.clone(),
            kubernetes_auth_mount: spec.kubernetes_auth_mount.clone(),
            kubernetes_auth_role: spec.kubernetes_auth_role.clone(),
            jwt,
            cache_ttl: cache_ttl_from_lease(lease_duration, renewable),
        }
    }

    /// How long, in seconds, the login may be reused; `None`: re-login on
    /// every use.
    pub fn cache_ttl(&self) -> (t: Option<u64>)
        ensures
            t == self.cache_ttl,
    {
        self.cache_ttl
    }

    /// The default KV path of the credentials of application `name` in
    /// `namespace`: `<pathPrefix>/<namespace>/<name>`.
    pub fn default_path(&self, namespace: &str, name: &str) -> (p: String)
        ensures
            p@ == self.path_prefix@ + "/"@ + namespace@ + "/"@ + name@,
    {
        let head = join3(self.path_prefix.as_str(), "/", namespace);
        join3(head.as_str(), "/", name)
    }

    /// The error reported when re-authenticating failed with `rendered`.
    pub fn relogin_error(&self, rendered: &str) -> (e: SecretStoreError)
        ensures
            e matches SecretStoreError::Write(m) && m@ == relogin_failure_text(
                self.kubernetes_auth_mount@,
                self.kubernetes_auth_role@,
                rendered@,
            ),
    {
        auth_failure(
            "Vault Kubernetes auth re-login (mount ",
            self.kubernetes_auth_mount.as_str(),
            self.kubernetes_auth_role.as_str(),
            rendered,
        )
    }
}

/// Whether a Vault answer means the token is no good: 401 or 403.
pub fn is_auth_error(code: Option<u16>) -> (r: bool)
    ensures
        r == (code == Some(401u16) || code == Some(403u16)),
{
    match code {
        Some(c) => c == 401 || c == 403,
        None => false,
    }
}

/// Whether a stored document holds exactly the canonical credential
/// document: three entries, each canonical `(key, value)` among them.
pub open spec fn document_matches_spec(stored: Seq<(Seq<char>, Seq<char>)>, c: Oauth2Credentials) -> bool {
    &&& stored.len() == 3
    &&& forall|k: int| 0 <= k < 3 ==> #[trigger] stored.contains(credential_document(c)[k])
}

fn has_pair(stored: &Vec<(String, String)>, key: &str, value: &str) -> (r: bool)
    ensures
        r == pairs_view(stored@).contains((key@, value@)),
{
    let mut i: usize = 0;
    while i < stored.len()
        invariant
            i <= stored@.len(),
            forall|j: int| 0 <= j < i ==> pairs_view(stored@)[j] != (key@, value@),
        decreases stored@.len() - i,
    {
        if same_text(stored[i].0.as_str(), key) && same_text(stored[i].1.as_str(), value) {
            assert(pairs_view(stored@)[i as int] == (key@, value@));
            return true;
        }
        i = i + 1;
    }
    false
}

/// Whether the document already stored at a path is the one about to be
/// written, so that the write can be skipped (KV v2 would otherwise add an
/// identical version).
pub fn document_matches(stored: &Vec<(String, String)>, c: &Oauth2Credentials) -> (r: bool)
    ensures
        r == document_matches_spec(pairs_view(stored@), *c),
{
    let ghost doc = credential_document(*c);
    if stored.len() != 3 {
        return false;
    }
    let a = has_pair(stored, "AUTHENTIK_CLIENT_ID", c.client_id.as_str());
    let b = has_pair(stored, "AUTHENTIK_CLIENT_SECRET", c.client_secret.as_str());
    let d = has_pair(stored, "AUTHENTIK_URL", c.authentik_url.as_str());
    proof {
        assert(doc[0] == ("AUTHENTIK_CLIENT_ID"@, c.client_id@));
        assert(doc[1] == ("AUTHENTIK_CLIENT_SECRET"@, c.client_secret@));
        assert(doc[2] == ("AUTHENTIK_URL"@, c.authentik_url@));
        if !(a && b && d) {
            if !a {
                assert(!pairs_view(stored@).contains(doc[0]));
            } else if !b {
                assert(!pairs_view(stored@).contains(doc[1]));
            } else {
                assert(!pairs_view(stored@).contains(doc[2]));
            }
        }
    }
    a && b && d
}

/// A failed KV call, as plain values: the API status code when Vault
/// answered with one, and the error's rendered text.
/// How a credential write begins.
#[derive(Clone, Copy, Debug, PartialEq, Eq)]
pub enum WriteStart {
    /// The path already holds this document: nothing is set (a KV v2 set
    /// would make a new version even of an identical document).
    AlreadyStored,
    /// The document is set.
    SetDocument,
}

/// The plain view of what reading a path gave.
pub open spec fn stored_view(stored: Option<Vec<(String, String)>>) -> Option<Seq<(Seq<char>, Seq<char>)>> {
    match stored {
        Some(d) => Some(pairs_view(d@)),
        None => None,
    }
}

/// How a write of `c` begins when reading the path gave `stored`.
pub open spec fn write_start_of(stored: Option<Seq<(Seq<char>, Seq<char>)>>, c: Oauth2Credentials) -> WriteStart {
    match stored {
        Some(d) => if document_matches_spec(d, c) {
            WriteStart::AlreadyStored
        } else {
            WriteStart::SetDocument
        },
        None => WriteStart::SetDocument,
    }
}

/// Decides how a write of `c` begins from what reading the path gave:
/// `stored` is the stored document as string pairs, `None` when the read
/// failed (a missing path included) or the document is not one of strings.
/// Only a stored document equal to `c`'s skips the set; any failure to read
/// goes on to the set.
pub fn write_start(stored: Option<Vec<(String, String)>>, c: &Oauth2Credentials) -> (w: WriteStart)
    ensures
        w == write_start_of(stored_view(stored), *c),
{
    match stored {
        Some(d) => if document_matches(&d, c) {
            WriteStart::AlreadyStored
        } else {
            WriteStart::SetDocument
        },
        None => WriteStart::SetDocument,
    }
}

/// Once a path holds the document a write of `c` sets (`entries`), a
/// second write of `c` issues no set.
pub proof fn an_identical_second_write_issues_no_set(c: Oauth2Credentials)
    ensures
        write_start_of(Some(credential_document(c)), c) == WriteStart::AlreadyStored,
{
    let d = credential_document(c);
    assert forall|k: int| 0 <= k < 3 implies #[trigger] d.contains(credential_document(c)[k]) by {
        assert(d[k] == credential_document(c)[k]);
    }
}

/// A write skips the set exactly when the path holds a three-entry
/// document with `AUTHENTIK_CLIENT_ID`, `AUTHENTIK_CLIENT_SECRET` and
/// `AUTHENTIK_URL` each set to `c`'s value; a stale client id, secret or
/// URL, an extra or missing entry, or a failed read all lead to the set.
pub proof fn a_write_is_skipped_only_over_the_same_three_values(
    stored: Option<Seq<(Seq<char>, Seq<char>)>>,
    c: Oauth2Credentials,
)
    ensures
        (write_start_of(stored, c) == WriteStart::AlreadyStored) <==> (stored matches Some(d) && d.len() == 3
            && d.contains(("AUTHENTIK_CLIENT_ID"@, c.client_id@))
            && d.contains(("AUTHENTIK_CLIENT_SECRET"@, c.client_secret@))
            && d.contains(("AUTHENTIK_URL"@, c.authentik_url@))),
{
    let doc = credential_document(c);
    assert(doc[0] == ("AUTHENTIK_CLIENT_ID"@, c.client_id@));
    assert(doc[1] == ("AUTHENTIK_CLIENT_SECRET"@, c.client_secret@));
    assert(doc[2] == ("AUTHENTIK_URL"@, c.authentik_url@));
    if let Some(d) = stored {
        if d.len() == 3 && d.contains(doc[0]) && d.contains(doc[1]) && d.contains(doc[2]) {
            assert forall|k: int| 0 <= k < 3 implies #[trigger] d.contains(credential_document(c)[k]) by {
                if k == 0 {
                } else if k == 1 {
                } else {
                }
            }
        }
    }
}

#[derive(Clone, Debug, PartialEq, Eq)]
pub struct VaultFailure {
    pub code: Option<u16>,
    pub rendered: String,
}

/// What to do after a KV call.
#[derive(Debug, PartialEq, Eq)]
pub enum KvNext {
    /// Finished, with this result.
    Done(Result<(), SecretStoreError>),
    /// Re-authenticate, then repeat the call once.
    Relogin,
}

/// After a KV write (`retried`: whether this was the repeat after a
/// re-login): success is done; an authentication failure on the first
/// attempt asks for a re-login; any other failure, and any failure of the
/// repeat, is a `Write` error with the failure's text.
pub fn after_write(result: Result<(), VaultFailure>, retried: bool) -> (n: KvNext)
    ensures
        result is Ok ==> n == KvNext::Done(Ok(())),
        result matches Err(f) ==> (!retried && (f.code == Some(401u16) || f.code == Some(403u16))
            ==> n == KvNext::Relogin),
        result matches Err(f) ==> ((retried || !(f.code == Some(401u16) || f.code == Some(403u16)))
            ==> n == KvNext::Done(Err(SecretStoreError::Write(f.rendered)))),
        retried ==> !(n is Relogin),
{
    match result {
        Ok(()) => KvNext::Done(Ok(())),
        Err(f) => if !retried && is_auth_error(f.code) {
            KvNext::Relogin
        } else {
            KvNext::Done(Err(SecretStoreError::Write(f.rendered)))
        },
    }
}

/// After a KV delete of all versions and metadata (`retried` as for
/// writes): success, or a 404 (nothing there), is done; an authentication
/// failure on the first attempt asks for a re-login; any other failure is
/// a `Delete` error with the failure's text.
pub fn after_delete(result: Result<(), VaultFailure>, retried: bool) -> (n: KvNext)
    ensures
        result is Ok ==> n == KvNext::Done(Ok(())),
        result matches Err(f) ==> (f.code == Some(404u16) ==> n == KvNext::Done(Ok(()))),
        result matches Err(f) ==> (f.code != Some(404u16) && !retried && (f.code == Some(401u16)
            || f.code == Some(403u16)) ==> n == KvNext::Relogin),
        result matches Err(f) ==> (f.code != Some(404u16) && (retried || !(f.code == Some(401u16)
            || f.code == Some(403u16))) ==> n == KvNext::Done(Err(SecretStoreError::Delete(f.rendered)))),
        retried ==> !(n is Relogin),
{
    match result {
        Ok(()) => KvNext::Done(Ok(())),
        Err(f) => {
            let gone = match f.code {
                Some(c) => c == 404,
                None => false,
            };
            if gone {
                KvNext::Done(Ok(()))
            } else if !retried && is_auth_error(f.code) {
                KvNext::Relogin
            } else {
                KvNext::Done(Err(SecretStoreError::Delete(f.rendered)))
            }
        },
    }
}

} // verus!
