//! `AuthentikApplication`: an application and its protocol provider.
//! Namespaced.
use vstd::prelude::*;
use crate::crd::instance::SecretStoreBackend;

verus! {

/// Mirrors `authentik_application` plus its provider.
#[derive(Clone, Debug, PartialEq, Eq)]
pub struct AuthentikApplicationSpec {
    /// Name of an `AuthentikInstance` CR.
    pub instance_ref: String,
    pub name: String,
    pub slug: String,
    pub meta_icon: Option<String>,
    pub provider: ProviderSpec,
    /// Where the oauth2 credentials go. Empty: the instance's single default
    /// destination; otherwise every listed target.
    pub secret_targets: Vec<SecretTarget>,
}

/// One destination of an application's oauth2 credentials.
#[derive(Clone, Debug, PartialEq, Eq)]
pub struct SecretTarget {
    pub backend: SecretStoreBackend,
    /// Vault only: the exact KV path; default `<pathPrefix>/<namespace>/<name>`.
    pub path: Option<String>,
    /// Kubernetes only: the Secret's name; default the application CR's name.
    pub name: Option<String>,
}

/// The provider: `kind` says which of `oauth2`/`proxy` is meant.
#[derive(Clone, Debug, PartialEq, Eq)]
pub struct ProviderSpec {
    pub kind: ProviderKind,
    pub oauth2: Option<Oauth2ProviderSpec>,
    pub proxy: Option<ProxyProviderSpec>,
}

/// `Saml` and `Ldap` are accepted by the schema but never reconciled.
#[derive(Clone, Copy, Debug, PartialEq, Eq)]
pub enum ProviderKind {
    Oauth2,
    Proxy,
    Saml,
    Ldap,
}

#[derive(Clone, Debug, PartialEq, Eq)]
pub struct Oauth2ProviderSpec {
    pub client_id: Option<String>,
    pub authorization_flow: String,
    pub invalidation_flow: String,
    /// Name of an existing certificate key pair; see `default_signing_key`.
    pub signing_key: Option<String>,
    pub allowed_redirect_uris: Vec<RedirectUri>,
    pub property_mappings: Vec<String>,
    pub grant_types: Vec<String>,
}

/// The certificate an oauth2 provider signs with when the manifest names
/// none: Authentik's built-in self-signed key pair.
pub open spec fn builtin_signing_key() -> Seq<char> {
    "authentik Self-signed Certificate"@
}

/// The value `signingKey` takes when the manifest omits it.
pub fn default_signing_key() -> (k: Option<String>)
    ensures
        k matches Some(name) && name@ == builtin_signing_key(),
{
    Some(String::from_str("authentik Self-signed Certificate"))
}

#[derive(Clone, Debug, PartialEq, Eq)]
pub struct RedirectUri {
    pub matching_mode: MatchingMode,
    pub url: String,
}

#[derive(Clone, Copy, Debug, PartialEq, Eq)]
pub enum MatchingMode {
    Strict,
    Regex,
}

#[derive(Clone, Debug, PartialEq, Eq)]
pub struct ProxyProviderSpec {
    pub internal_host: String,
    pub external_host: String,
    pub authorization_flow: String,
    pub invalidation_flow: String,
    /// `None`: Authentik's embedded outpost.
    pub outpost_ref: Option<String>,
}

} // verus!
