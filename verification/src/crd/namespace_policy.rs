//! `AuthentikNamespacePolicy`: the namespace allow-list enforced by the
//! admission webhook. Cluster-scoped.
use vstd::prelude::*;

verus! {

/// The rules of one policy; the rules of every policy are pooled.
#[derive(Clone, Debug, PartialEq, Eq)]
pub struct AuthentikNamespacePolicySpec {
    pub rules: Vec<NamespaceRule>,
}

/// One rule: for each listed namespace and kind, allow or deny.
#[derive(Clone, Debug, PartialEq, Eq)]
pub struct NamespaceRule {
    pub namespaces: Vec<String>,
    pub allowed_kinds: Vec<ResourceKind>,
    pub effect: Effect,
}

/// The kinds the allow-list governs.
#[derive(Clone, Copy, Debug, PartialEq, Eq)]
pub enum ResourceKind {
    AuthentikApplication,
    AuthentikAccessPolicy,
}

#[derive(Clone, Copy, Debug, PartialEq, Eq)]
pub enum Effect {
    Allow,
    Deny,
}

} // verus!
