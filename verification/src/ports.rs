//! The values exchanged between the reconcile logic and its outside
//! collaborators (the Authentik gateway, the secret stores and their
//! factories), with the text each error renders as.
use vstd::prelude::*;
use crate::text::join2;

verus! {

/// Failure of an Authentik API call.
#[derive(Clone, Debug, PartialEq, Eq)]
pub enum GatewayError {
    /// The object (or a referenced one) does not exist.
    NotFound(String),
    /// A name/slug collision: the object already exists.
    AlreadyExists(String),
    /// Any other failure.
    Api(String),
}

/// Failure to build a gateway for an `AuthentikInstance`.
#[derive(Clone, Debug, PartialEq, Eq)]
pub enum GatewayFactoryError {
    ResolutionFailed(String),
    InstanceNotFound(String),
    AmbiguousDefault(String),
}

/// The oauth2 credentials of one application, in the shape every consumer
/// reads: client id, client secret and issuer URL.
#[derive(Clone, Debug, PartialEq, Eq)]
pub struct Oauth2Credentials {
    pub client_id: String,
    pub client_secret: String,
    pub authentik_url: String,
}

/// The canonical document every secret store writes for `c`, as
/// `(key, value)` pairs.
pub open spec fn credential_document(c: Oauth2Credentials) -> Seq<(Seq<char>, Seq<char>)> {
    seq![
        ("AUTHENTIK_CLIENT_ID"@, c.client_id@),
        ("AUTHENTIK_CLIENT_SECRET"@, c.client_secret@),
        ("AUTHENTIK_URL"@, c.authentik_url@),
    ]
}

/// The plain view of a list of string pairs.
pub open spec fn pairs_view(v: Seq<(String, String)>) -> Seq<(Seq<char>, Seq<char>)> {
    v.map_values(|p: (String, String)| (p.0@, p.1@))
}

impl Oauth2Credentials {
    /// The canonical document every secret store writes:
    /// `AUTHENTIK_CLIENT_ID`, `AUTHENTIK_CLIENT_SECRET`, `AUTHENTIK_URL`.
    pub fn entries(&self) -> (d: Vec<(String, String)>)
        ensures
            pairs_view(d@) == credential_document(*self),
    {
        let mut d: Vec<(String, String)> = Vec::new();
        d.push((String::from_str("AUTHENTIK_CLIENT_ID"), self.client_id.clone()));
        d.push((String::from_str("AUTHENTIK_CLIENT_SECRET"), self.client_secret.clone()));
        d.push((String::from_str("AUTHENTIK_URL"), self.authentik_url.clone()));
        assert(pairs_view(d@) =~= credential_document(*self));
        d
    }
}

/// Failure of a secret store.
#[derive(Clone, Debug, PartialEq, Eq)]
pub enum SecretStoreError {
    Write(String),
    Delete(String),
}

/// The text a secret-store error renders as.
pub open spec fn secret_error_text(e: SecretStoreError) -> Seq<char> {
    match e {
        SecretStoreError::Write(m) => "secret store write failed: "@ + m@,
        SecretStoreError::Delete(m) => "secret store delete failed: "@ + m@,
    }
}

impl SecretStoreError {
    /// The text this error renders as.
    pub fn text(&self) -> (t: String)
        ensures
            t@ == secret_error_text(*self),
    {
        match self {
            SecretStoreError::Write(m) => join2("secret store write failed: ", m.as_str()),
            SecretStoreError::Delete(m) => join2("secret store delete failed: ", m.as_str()),
        }
    }
}

/// Failure to build a secret store for an `AuthentikApplication`.
#[derive(Clone, Debug, PartialEq, Eq)]
pub enum SecretStoreFactoryError {
    ResolutionFailed(String),
    InstanceNotFound(String),
}

} // verus!
