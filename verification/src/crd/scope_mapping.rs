//! `AuthentikScopeMapping`: an OAuth2/OIDC scope mapping. Cluster-scoped.
use vstd::prelude::*;

verus! {

/// Mirrors `authentik_property_mapping_provider_scope`. Keyed by `name`,
/// which providers list in their `propertyMappings`.
#[derive(Clone, Debug, PartialEq, Eq)]
pub struct AuthentikScopeMappingSpec {
    pub name: String,
    /// OAuth scope a client must request for the mapping to run.
    pub scope_name: String,
    /// Python expression run by Authentik, passed through verbatim.
    pub expression: String,
    pub description: Option<String>,
}

} // verus!
