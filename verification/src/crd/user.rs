//! `AuthentikUser`: a user and its group memberships. Cluster-scoped.
use vstd::prelude::*;

verus! {

/// Mirrors `authentik_user`. Carries no credential field: Authentik owns its
/// own invite and reset flows.
#[derive(Clone, Debug, PartialEq, Eq)]
pub struct AuthentikUserSpec {
    pub username: String,
    pub name: String,
    pub email: String,
    pub is_active: bool,
    /// Groups by their Authentik-side name (`AuthentikGroup.spec.name`).
    pub group_refs: Vec<String>,
}

/// The value `isActive` takes when the manifest omits it.
pub fn default_true() -> (b: bool)
    ensures
        b,
{
    true
}

} // verus!
