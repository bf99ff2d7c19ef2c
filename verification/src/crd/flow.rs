//! `AuthentikFlow`: an authentication/authorization flow. Cluster-scoped,
//! slug-keyed.
use vstd::prelude::*;

verus! {

/// Mirrors `authentik_flow`; its stage bindings are out of scope.
#[derive(Clone, Debug, PartialEq, Eq)]
pub struct AuthentikFlowSpec {
    pub slug: String,
    pub name: String,
    pub title: String,
    pub designation: FlowDesignation,
    pub authentication: Option<FlowAuthentication>,
    pub policy_engine_mode: Option<PolicyEngineMode>,
    pub compatibility_mode: Option<bool>,
    pub layout: Option<FlowLayout>,
    pub denied_action: Option<FlowDeniedAction>,
    pub background: Option<String>,
}

#[derive(Clone, Copy, Debug, PartialEq, Eq)]
pub enum FlowDesignation {
    Authentication,
    Authorization,
    Invalidation,
    Enrollment,
    Unenrollment,
    Recovery,
    StageConfiguration,
}

#[derive(Clone, Copy, Debug, PartialEq, Eq)]
pub enum FlowAuthentication {
    /// No requirement on the user (the manifest's `none`).
    NoRequirement,
    RequireAuthenticated,
    RequireUnauthenticated,
    RequireSuperuser,
    RequireRedirect,
    RequireOutpost,
    RequireToken,
}

#[derive(Clone, Copy, Debug, PartialEq, Eq)]
pub enum PolicyEngineMode {
    All,
    Any,
}

#[derive(Clone, Copy, Debug, PartialEq, Eq)]
pub enum FlowLayout {
    Stacked,
    ContentLeft,
    ContentRight,
    SidebarLeft,
    SidebarRight,
    SidebarLeftFrameBackground,
    SidebarRightFrameBackground,
}

#[derive(Clone, Copy, Debug, PartialEq, Eq)]
pub enum FlowDeniedAction {
    MessageContinue,
    Message,
    Continue,
}

} // verus!
