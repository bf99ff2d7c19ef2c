//! `AuthentikAccessPolicy`: binds a group to an application. Namespaced.
use vstd::prelude::*;

verus! {

/// Mirrors `authentik_policy_binding`. `application_ref` is a bare name: it
/// always resolves in the policy's own namespace, never across namespaces.
#[derive(Clone, Debug, PartialEq, Eq)]
pub struct AuthentikAccessPolicySpec {
    /// Name of an `AuthentikApplication` CR in the same namespace.
    pub application_ref: String,
    /// Name of an `AuthentikGroup` CR (cluster-scoped).
    pub group_ref: String,
    pub order: i32,
    pub negate: bool,
}

} // verus!
