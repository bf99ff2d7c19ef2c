//! `AuthentikInstance`: the connection to one Authentik server, and the
//! derivation of its two base URLs.
use vstd::prelude::*;
use crate::text::{chars_of, ends_with, join2, trim_end_char, trim_end_char_len, trim_end_seq, trim_end_seq_len};

verus! {

/// Connection to a real Authentik server. Cluster-scoped.
#[derive(Clone, Debug, PartialEq, Eq)]
pub struct AuthentikInstanceSpec {
    /// The instance's web base URL; the REST base is derived from it by
    /// `split_urls`.
    pub url: String,
    pub token_secret_ref: SecretKeyRef,
    pub tls: TlsOptions,
    pub secret_store: SecretStoreSpec,
}

/// A key of a Kubernetes `Secret`.
#[derive(Clone, Debug, PartialEq, Eq)]
pub struct SecretKeyRef {
    pub name: String,
    pub namespace: String,
    pub key: String,
}

/// TLS verification of the API connection.
#[derive(Clone, Debug, PartialEq, Eq)]
pub struct TlsOptions {
    pub insecure_skip_verify: bool,
    pub ca_secret_ref: Option<SecretKeyRef>,
}

impl Default for TlsOptions {
    fn default() -> (t: Self)
        ensures
            !t.insecure_skip_verify,
            t.ca_secret_ref is None,
    {
        TlsOptions { insecure_skip_verify: false, ca_secret_ref: None }
    }
}

/// Where an instance's oauth2 credentials are written by default.
#[derive(Clone, Debug, PartialEq, Eq)]
pub struct SecretStoreSpec {
    pub backend: SecretStoreBackend,
    /// Required whenever a Vault destination is used.
    pub vault: Option<VaultSecretStoreSpec>,
}

impl Default for SecretStoreSpec {
    fn default() -> (s: Self)
        ensures
            s.backend == SecretStoreBackend::Kubernetes,
            s.vault is None,
    {
        SecretStoreSpec { backend: SecretStoreBackend::Kubernetes, vault: None }
    }
}

#[derive(Clone, Copy, Debug, PartialEq, Eq, Structural)]
pub enum SecretStoreBackend {
    Kubernetes,
    Vault,
}

impl Default for SecretStoreBackend {
    fn default() -> (b: Self)
        ensures
            b == SecretStoreBackend::Kubernetes,
    {
        SecretStoreBackend::Kubernetes
    }
}

/// How to reach and authenticate to Vault, and where under its KV v2
/// mount the credentials go.
#[derive(Clone, Debug, PartialEq, Eq)]
pub struct VaultSecretStoreSpec {
    pub address: String,
    pub mount: String,
    /// Final KV path: `<pathPrefix>/<namespace>/<name>`.
    pub path_prefix: String,
    pub kubernetes_auth_role: String,
    pub kubernetes_auth_mount: String,
    pub ca_secret_ref: Option<SecretKeyRef>,
}

/// The value `pathPrefix` takes when the manifest omits it.
pub fn default_vault_path_prefix() -> (s: String)
    ensures
        s@ == "weebo-authentik"@,
{
    String::from_str("weebo-authentik")
}

/// The value `kubernetesAuthMount` takes when the manifest omits it.
pub fn default_kubernetes_auth_mount() -> (s: String)
    ensures
        s@ == "kubernetes"@,
{
    String::from_str("kubernetes")
}

/// The suffix of Authentik's REST base path.
pub open spec fn api_suffix() -> Seq<char> {
    seq!['/', 'a', 'p', 'i', '/', 'v', '3']
}

/// The web base derived from `spec.url`: trailing slashes removed, then
/// any trailing `/api/v3`, then trailing slashes again.
pub open spec fn web_base(url: Seq<char>) -> Seq<char> {
    trim_end_char(trim_end_seq(trim_end_char(url, '/'), api_suffix()), '/')
}

/// Derives `(api_base_path, web_base_url)` from the single `url` field:
/// the web base (see `web_base`) and that base followed by `/api/v3`.
pub fn split_urls(url: &str) -> (r: (String, String))
    ensures
        r.1@ == web_base(url@),
        r.0@ == web_base(url@) + api_suffix(),
{
    let v = chars_of(url);
    proof {
        reveal_strlit("/api/v3");
    }
    let suffix = chars_of("/api/v3");
    assert(suffix@ == api_suffix());
    assert(v@.subrange(0, v@.len() as int) =~= v@);
    let k1 = trim_end_char_len(&v, v.len(), '/');
    let k2 = trim_end_seq_len(&v, k1, &suffix);
    let k3 = trim_end_char_len(&v, k2, '/');
    let web = url.substring_char(0, k3);
    let web_owned = String::from_str(web);
    let api = join2(web, "/api/v3");
    (api, web_owned)
}

proof fn lemma_trim_end_char_leaves_no_trailing(s: Seq<char>, c: char)
    ensures
        trim_end_char(s, c).len() == 0 || trim_end_char(s, c).last() != c,
    decreases s.len(),
{
    if s.len() > 0 && s.last() == c {
        lemma_trim_end_char_leaves_no_trailing(s.drop_last(), c);
    }
}

proof fn lemma_trim_end_char_one(s: Seq<char>, c: char)
    requires
        s.len() == 0 || s.last() != c,
    ensures
        trim_end_char(s, c) == s,
        trim_end_char(s.push(c), c) == s,
{
    assert(trim_end_char(s, c) == s);
    assert(s.push(c).drop_last() =~= s);
    assert(trim_end_char(s.push(c), c) == trim_end_char(s, c));
}

proof fn lemma_trim_end_seq_one(s: Seq<char>, p: Seq<char>)
    requires
        p.len() > 0,
        !ends_with(s, p),
    ensures
        trim_end_seq(s, p) == s,
        trim_end_seq(s + p, p) == s,
{
    let t = s + p;
    assert(t.subrange(t.len() - p.len(), t.len() as int) =~= p);
    assert(t.subrange(0, t.len() - p.len()) =~= s);
}

/// The web base never ends with a slash.
pub proof fn web_base_has_no_trailing_slash(url: Seq<char>)
    ensures
        web_base(url).len() == 0 || web_base(url).last() != '/',
{
    lemma_trim_end_char_leaves_no_trailing(
        trim_end_seq(trim_end_char(url, '/'), api_suffix()),
        '/',
    );
}

/// A web base written bare, with a trailing slash, as the REST URL
/// (`<base>/api/v3`), or as the REST URL with a trailing slash, derives the
/// same web base: the base itself.
pub proof fn web_base_of_equivalent_spellings(base: Seq<char>)
    requires
        base.len() == 0 || base.last() != '/',
        !ends_with(base, api_suffix()),
    ensures
        web_base(base) == base,
        web_base(base.push('/')) == base,
        web_base(base + api_suffix()) == base,
        web_base((base + api_suffix()).push('/')) == base,
{
    let api = base + api_suffix();
    assert(api.last() == '3');
    lemma_trim_end_char_one(base, '/');
    lemma_trim_end_seq_one(base, api_suffix());
    lemma_trim_end_char_one(api, '/');
}

/// Deriving again from the web base, or from the REST URL built on it,
/// gives back the same web base (for every `url` whose web base does not
/// itself end in `/api/v3`).
pub proof fn web_base_is_stable(url: Seq<char>)
    requires
        !ends_with(web_base(url), api_suffix()),
    ensures
        web_base(web_base(url)) == web_base(url),
        web_base(web_base(url) + api_suffix()) == web_base(url),
{
    web_base_has_no_trailing_slash(url);
    web_base_of_equivalent_spellings(web_base(url));
}

} // verus!
