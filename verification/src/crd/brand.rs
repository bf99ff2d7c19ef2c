//! `AuthentikBrand`: domain and branding. Cluster-scoped.
use vstd::prelude::*;

verus! {

/// Mirrors `authentik_brand`. At most one brand CR holds `default: true`
/// at a time; see `crate::brand_election`.
#[derive(Clone, Debug, PartialEq, Eq)]
pub struct AuthentikBrandSpec {
    pub domain: String,
    pub default: bool,
    pub branding_title: Option<String>,
    pub branding_logo: Option<String>,
    pub branding_favicon: Option<String>,
    pub branding_default_flow_background: Option<String>,
    pub default_application_ref: Option<String>,
    pub flow_authentication: Option<String>,
    pub flow_invalidation: Option<String>,
    pub flow_recovery: Option<String>,
    pub flow_unenrollment: Option<String>,
    pub flow_user_settings: Option<String>,
}

} // verus!
