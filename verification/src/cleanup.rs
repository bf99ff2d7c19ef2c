//! What deleting a custom resource removes on the Authentik side, decided
//! from its recorded `status.authentikId`. A resource that never synced has
//! nothing remote to remove; its finalizer is released at once.
use vstd::prelude::*;
use crate::crd::application::ProviderKind;

verus! {

/// The removals an `AuthentikApplication`'s deletion makes, in order: the
/// Authentik application, then its stored oauth2 credentials. A failed
/// removal stops the cleanup and keeps the finalizer, so it is retried.
#[derive(Clone, Debug, PartialEq, Eq)]
pub struct ApplicationCleanup {
    /// The Authentik application to delete.
    pub delete_application: Option<String>,
    /// Whether the credentials written for it are deleted too.
    pub delete_credentials: bool,
}

/// Plans an `AuthentikApplication`'s cleanup: the recorded application is
/// deleted, and its credentials with it when its provider is oauth2 (the
/// only kind whose credentials are ever stored).
pub fn application_cleanup(authentik_id: Option<String>, kind: ProviderKind) -> (c: ApplicationCleanup)
    ensures
        c.delete_application == authentik_id,
        c.delete_credentials == (authentik_id is Some && kind == ProviderKind::Oauth2),
{
    let delete_credentials = authentik_id.is_some() && matches!(kind, ProviderKind::Oauth2);
    ApplicationCleanup { delete_application: authentik_id, delete_credentials }
}

/// Which Authentik instance a cleanup talks to.
#[derive(Clone, Debug, PartialEq, Eq)]
pub enum InstanceChoice {
    /// The `AuthentikInstance` of this name.
    Named(String),
    /// The single default instance.
    Default,
}

/// The removal an `AuthentikAccessPolicy`'s deletion makes: the recorded
/// policy binding, through the instance of its owning application.
#[derive(Clone, Debug, PartialEq, Eq)]
pub struct AccessPolicyCleanup {
    pub binding: String,
    pub instance: InstanceChoice,
}

/// Plans an `AuthentikAccessPolicy`'s cleanup. `owning_instance_ref` is the
/// `instanceRef` of the application it references, when that application
/// could still be read. An application and its policies are often deleted
/// together, so when it is gone the single default instance is used rather
/// than blocking the cleanup.
pub fn access_policy_cleanup(authentik_id: Option<String>, owning_instance_ref: Option<String>) -> (c: Option<AccessPolicyCleanup>)
    ensures
        authentik_id is None ==> c is None,
        authentik_id matches Some(id) ==> (c matches Some(p) && p.binding == id && p.instance == (
            match owning_instance_ref {
                Some(n) => InstanceChoice::Named(n),
                None => InstanceChoice::Default,
            })),
{
    match authentik_id {
        None => None,
        Some(id) => {
            let instance = match owning_instance_ref {
                Some(n) => InstanceChoice::Named(n),
                None => InstanceChoice::Default,
            };
            Some(AccessPolicyCleanup { binding: id, instance })
        },
    }
}

} // verus!
