//! The requests the Authentik gateway sends to create or update an object,
//! built from a manifest and the Authentik primary keys its references
//! resolved to. A resolved reference is a UUID, held as its 128-bit value.
use vstd::prelude::*;
use crate::crd::application::{Oauth2ProviderSpec, ProxyProviderSpec, RedirectUri};
use crate::crd::brand::AuthentikBrandSpec;
use crate::crd::group::AuthentikGroupSpec;
use crate::crd::user::AuthentikUserSpec;
use crate::gateway::{
    all_grants_known, bad_id_message, grant_types, grants_named, i32_literal, parse_i32,
    unknown_grant_error, GrantType,
};
use crate::ports::GatewayError;

verus! {

/// Where a provider write goes: a new object, or the existing one with
/// this integer primary key.
#[derive(Clone, Copy, Debug, PartialEq, Eq)]
pub enum WriteTarget {
    Create,
    Update(i32),
}

/// The plain view of an optional id.
pub open spec fn id_view(authentik_id: Option<&str>) -> Option<Seq<char>> {
    match authentik_id {
        Some(id) => Some(id@),
        None => None,
    }
}

/// The write a recorded `authentik_id` asks for: a create when there is
/// none, an update of the provider it names when it spells an `i32`, and
/// none at all otherwise.
pub open spec fn target_for(authentik_id: Option<Seq<char>>) -> Option<WriteTarget> {
    match authentik_id {
        None => Some(WriteTarget::Create),
        Some(id) => match i32_literal(id) {
            Some(v) => Some(WriteTarget::Update(v)),
            None => None,
        },
    }
}

/// Decides between creating a provider and updating the recorded one; a
/// recorded id that is not an integer is an `Api` error.
pub fn write_target(authentik_id: Option<&str>) -> (r: Result<WriteTarget, GatewayError>)
    ensures
        target_for(id_view(authentik_id)) matches Some(t) ==> r == Ok::<WriteTarget, GatewayError>(t),
        target_for(id_view(authentik_id)) is None ==> (authentik_id matches Some(id)
            && r matches Err(GatewayError::Api(m)) && m@ == bad_id_message(id@)),
{
    match authentik_id {
        None => Ok(WriteTarget::Create),
        Some(id) => match parse_i32(id) {
            Ok(v) => Ok(WriteTarget::Update(v)),
            Err(e) => Err(e),
        },
    }
}

/// Who holds an oauth2 provider's secret.
#[derive(Clone, Copy, Debug, PartialEq, Eq)]
pub enum ClientType {
    Confidential,
    Public,
}

/// The Authentik objects an oauth2 provider's manifest references, resolved:
/// its two flows, its property mappings in manifest order, and its signing
/// key when it names one.
#[derive(Clone, Debug, PartialEq, Eq)]
pub struct Oauth2Refs {
    pub authorization_flow: u128,
    pub invalidation_flow: u128,
    pub property_mappings: Vec<u128>,
    pub signing_key: Option<u128>,
}

/// What an oauth2 provider write sends.
#[derive(Clone, Debug, PartialEq, Eq)]
pub struct Oauth2ProviderRequest {
    pub target: WriteTarget,
    pub name: String,
    pub client_type: ClientType,
    pub authorization_flow: u128,
    pub invalidation_flow: u128,
    pub property_mappings: Vec<u128>,
    /// `None`: Authentik's default grant types.
    pub grant_types: Option<Vec<GrantType>>,
    pub client_id: Option<String>,
    pub signing_key: Option<u128>,
    pub redirect_uris: Vec<RedirectUri>,
}

/// Builds the oauth2 provider write for a manifest whose references
/// resolved to `refs`: a confidential client carrying the manifest's name,
/// flows, mappings, grant types, client id, signing key and redirect URIs.
/// The grant types are checked first, then the recorded id.
pub fn oauth2_provider_request(
    authentik_id: Option<&str>,
    name: String,
    spec: Oauth2ProviderSpec,
    refs: Oauth2Refs,
) -> (r: Result<Oauth2ProviderRequest, GatewayError>)
    ensures
        r is Ok <==> all_grants_known(spec.grant_types@) && target_for(id_view(authentik_id)) is Some,
        !all_grants_known(spec.grant_types@) ==> (r matches Err(e) && unknown_grant_error(spec.grant_types@, e)),
        all_grants_known(spec.grant_types@) && target_for(id_view(authentik_id)) is None
            ==> (authentik_id matches Some(id) && r matches Err(GatewayError::Api(m)) && m@ == bad_id_message(id@)),
        r matches Ok(q) ==> {
            &&& target_for(id_view(authentik_id)) == Some(q.target)
            &&& q.name == name
            &&& q.client_type == ClientType::Confidential
            &&& q.authorization_flow == refs.authorization_flow
            &&& q.invalidation_flow == refs.invalidation_flow
            &&& q.property_mappings@ == refs.property_mappings@
            &&& (spec.grant_types@.len() == 0 ==> q.grant_types is None)
            &&& (spec.grant_types@.len() > 0 ==> (q.grant_types matches Some(gs) && grants_named(
                spec.grant_types@,
                gs@,
            )))
            &&& q.client_id == spec.client_id
            &&& q.signing_key == refs.signing_key
            &&& q.redirect_uris@ == spec.allowed_redirect_uris@
        },
{
    let grants = match grant_types(&spec) {
        Ok(g) => g,
        Err(e) => return Err(e),
    };
    let target = match write_target(authentik_id) {
        Ok(t) => t,
        Err(e) => return Err(e),
    };
    Ok(Oauth2ProviderRequest {
        target,
        name,
        client_type: ClientType::Confidential,
        authorization_flow: refs.authorization_flow,
        invalidation_flow: refs.invalidation_flow,
        property_mappings: refs.property_mappings,
        grant_types: grants,
        client_id: spec.client_id,
        signing_key: refs.signing_key,
        redirect_uris: spec.allowed_redirect_uris,
    })
}

/// What a proxy provider write sends.
#[derive(Clone, Debug, PartialEq, Eq)]
pub struct ProxyProviderRequest {
    pub target: WriteTarget,
    pub name: String,
    pub authorization_flow: u128,
    pub invalidation_flow: u128,
    pub internal_host: String,
    pub external_host: String,
}

/// Builds the proxy provider write for a manifest whose flows resolved to
/// `authorization_flow` and `invalidation_flow`; a recorded id that is not
/// an integer is an `Api` error.
pub fn proxy_provider_request(
    authentik_id: Option<&str>,
    name: String,
    spec: ProxyProviderSpec,
    authorization_flow: u128,
    invalidation_flow: u128,
) -> (r: Result<ProxyProviderRequest, GatewayError>)
    ensures
        r is Ok <==> target_for(id_view(authentik_id)) is Some,
        target_for(id_view(authentik_id)) is None ==> (authentik_id matches Some(id)
            && r matches Err(GatewayError::Api(m)) && m@ == bad_id_message(id@)),
        r matches Ok(q) ==> {
            &&& target_for(id_view(authentik_id)) == Some(q.target)
            &&& q.name == name
            &&& q.authorization_flow == authorization_flow
            &&& q.invalidation_flow == invalidation_flow
            &&& q.internal_host == spec.internal_host
            &&& q.external_host == spec.external_host
        },
{
    let target = match write_target(authentik_id) {
        Ok(t) => t,
        Err(e) => return Err(e),
    };
    Ok(ProxyProviderRequest {
        target,
        name,
        authorization_flow,
        invalidation_flow,
        internal_host: spec.internal_host,
        external_host: spec.external_host,
    })
}

/// What a policy binding write sends: the group bound to the application
/// `target`, enabled, at `order`, negated when asked.
#[derive(Clone, Copy, Debug, PartialEq, Eq)]
pub struct PolicyBindingRequest {
    pub group: u128,
    pub target: u128,
    pub negate: bool,
    pub enabled: bool,
    pub order: i32,
}

/// Builds the policy binding write binding `group` to the application whose
/// primary key is `target`. A binding this operator writes is always
/// enabled.
pub fn policy_binding_request(target: u128, group: u128, order: i32, negate: bool) -> (q: PolicyBindingRequest)
    ensures
        q == (PolicyBindingRequest { group, target, negate, enabled: true, order }),
{
    PolicyBindingRequest { group, target, negate, enabled: true, order }
}

/// What a group write sends. `send_attributes` says whether the manifest's
/// attribute map goes with it.
#[derive(Clone, Debug, PartialEq, Eq)]
pub struct GroupRequest {
    pub name: String,
    pub is_superuser: bool,
    pub parents: Vec<u128>,
    pub send_attributes: bool,
}

/// Builds the group write: its parent when the manifest names one (resolved
/// to `parent`), no parent otherwise. A create sends the attributes only
/// when there are any; an update always sends them, so that removing the
/// last attribute clears it remotely.
pub fn group_request(spec: &AuthentikGroupSpec, parent: Option<u128>, updating: bool) -> (q: GroupRequest)
    ensures
        q.name == spec.name,
        q.is_superuser == spec.is_superuser,
        q.parents@ == (match parent {
            Some(p) => seq![p],
            None => Seq::<u128>::empty(),
        }),
        q.send_attributes == (updating || !spec.attributes@.is_empty()),
{
    let mut parents: Vec<u128> = Vec::new();
    match parent {
        Some(p) => parents.push(p),
        None => {},
    }
    let send_attributes = updating || !spec.attributes.is_empty();
    GroupRequest { name: spec.name.clone(), is_superuser: spec.is_superuser, parents, send_attributes }
}

/// What a user write sends.
#[derive(Clone, Debug, PartialEq, Eq)]
pub struct UserRequest {
    pub username: String,
    pub name: String,
    pub is_active: bool,
    pub groups: Vec<u128>,
    pub email: String,
}

/// Builds the user write, with `groups` the primary keys its `groupRefs`
/// resolved to, in manifest order.
pub fn user_request(spec: &AuthentikUserSpec, groups: Vec<u128>) -> (q: UserRequest)
    ensures
        q.username == spec.username,
        q.name == spec.name,
        q.is_active == spec.is_active,
        q.groups@ == groups@,
        q.email == spec.email,
{
    UserRequest {
        username: spec.username.clone(),
        name: spec.name.clone(),
        is_active: spec.is_active,
        groups,
        email: spec.email.clone(),
    }
}

/// The flows a brand's manifest names, each resolved (`None` where the
/// manifest leaves it unset).
#[derive(Clone, Copy, Debug, PartialEq, Eq)]
pub struct BrandFlows {
    pub authentication: Option<u128>,
    pub invalidation: Option<u128>,
    pub recovery: Option<u128>,
    pub unenrollment: Option<u128>,
    pub user_settings: Option<u128>,
}

/// What a brand create or update sends. The default flag is never part of
/// it: only the brand election sets it, by a write of its own.
#[derive(Clone, Debug, PartialEq, Eq)]
pub struct BrandRequest {
    pub domain: String,
    pub branding_title: Option<String>,
    pub branding_logo: Option<String>,
    pub branding_favicon: Option<String>,
    pub branding_default_flow_background: Option<String>,
    pub flows: BrandFlows,
}

/// Builds the brand write from its manifest and its resolved flows.
pub fn brand_request(spec: AuthentikBrandSpec, flows: BrandFlows) -> (q: BrandRequest)
    ensures
        q.domain == spec.domain,
        q.branding_title == spec.branding_title,
        q.branding_logo == spec.branding_logo,
        q.branding_favicon == spec.branding_favicon,
        q.branding_default_flow_background == spec.branding_default_flow_background,
        q.flows == flows,
{
    BrandRequest {
        domain: spec.domain,
        branding_title: spec.branding_title,
        branding_logo: spec.branding_logo,
        branding_favicon: spec.branding_favicon,
        branding_default_flow_background: spec.branding_default_flow_background,
        flows,
    }
}

} // verus!
