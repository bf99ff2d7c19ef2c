//! `AuthentikGroup`: group hierarchy. Cluster-scoped.
use std::collections::BTreeMap;
use vstd::prelude::*;

verus! {

/// Mirrors `authentik_group`.
#[derive(Clone, Debug, PartialEq, Eq)]
pub struct AuthentikGroupSpec {
    pub name: String,
    pub is_superuser: bool,
    /// The parent's Authentik-side name (its `spec.name`), resolved by name
    /// against the instance; a miss fails the reconcile.
    pub parent_ref: Option<String>,
    pub attributes: BTreeMap<String, String>,
}

} // verus!
