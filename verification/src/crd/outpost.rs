//! `AuthentikOutpost`: outpost kinds.
use vstd::prelude::*;

verus! {

/// The kind of an Authentik outpost.
#[derive(Clone, Copy, Debug, PartialEq, Eq)]
pub enum OutpostType {
    Proxy,
    Ldap,
    Radius,
}

} // verus!
