use weebo_authentik::crd::application::{Oauth2ProviderSpec, ProviderKind};
use weebo_authentik::crd::instance::split_urls;
use weebo_authentik::gateway::{
    ca_roots, check_ca_bundle, delete_provider_route, elect_default_instance, grant_types, ignore_not_found,
    is_duplicate_conflict, map_err, outpost_name, parse_i32, pick_by_name, provider_credentials,
    with_provider, ApiFailure, GrantType, ProviderEndpoint,
};
use weebo_authentik::ports::{GatewayError, GatewayFactoryError};

fn failure(status: Option<u16>, content: &str) -> ApiFailure {
    ApiFailure {
        status,
        content: content.to_string(),
        rendered: format!("error in response: status code {status:?}"),
    }
}

#[test]
fn create_group_conflict_maps_to_already_exists() {
    let err = map_err(failure(Some(409), r#"{"name":["already exists"]}"#));
    assert!(matches!(err, GatewayError::AlreadyExists(_)));
}

#[test]
fn create_group_400_with_already_exists_body_maps_to_already_exists() {
    let body = r#"{"name":["Group with this name already exists."]}"#;
    assert_eq!(map_err(failure(Some(400), body)), GatewayError::AlreadyExists(body.to_string()));
}

#[test]
fn create_group_400_without_already_exists_body_maps_to_api_error() {
    let err = map_err(failure(Some(400), r#"{"name":["This field is required."]}"#));
    assert_eq!(
        err,
        GatewayError::Api("error in response: status code Some(400)".to_string())
    );
}

#[test]
fn a_404_maps_to_not_found_and_other_failures_to_api() {
    assert_eq!(
        map_err(failure(Some(404), "nope")),
        GatewayError::NotFound("nope".to_string())
    );
    assert!(matches!(map_err(failure(Some(500), "boom")), GatewayError::Api(_)));
    assert!(matches!(map_err(failure(None, "")), GatewayError::Api(_)));
}

#[test]
fn delete_group_on_404_is_idempotent() {
    assert_eq!(ignore_not_found(Err(failure(Some(404), "missing"))), Ok(()));
    assert_eq!(ignore_not_found(Ok(())), Ok(()));
    assert!(matches!(
        ignore_not_found(Err(failure(Some(409), "busy"))),
        Err(GatewayError::AlreadyExists(_))
    ));
}

#[test]
fn duplicate_phrase_is_found_in_any_case() {
    assert!(is_duplicate_conflict("Application with this slug ALREADY Exists."));
    assert!(!is_duplicate_conflict("already exist"));
    assert!(!is_duplicate_conflict(""));
}

#[test]
fn integer_ids_parse_like_str_parse() {
    assert_eq!(parse_i32("42"), Ok(42));
    assert_eq!(parse_i32("+7"), Ok(7));
    assert_eq!(parse_i32("-2147483648"), Ok(i32::MIN));
    assert_eq!(parse_i32("2147483647"), Ok(i32::MAX));
    assert_eq!(parse_i32("007"), Ok(7));
    for bad in ["", "-", "+", "2147483648", "-2147483649", "4x", " 4", "99999999999999999999"] {
        assert_eq!(parse_i32(bad).is_err(), bad.parse::<i32>().is_err(), "{bad:?}");
    }
}

#[test]
fn a_non_integer_id_is_an_api_error_quoting_it() {
    assert_eq!(
        parse_i32("11111111-1111"),
        Err(GatewayError::Api(
            "expected an integer id, got \"11111111-1111\"".to_string()
        ))
    );
}

#[test]
fn lookups_pick_the_first_exact_match() {
    let names = vec!["weebo".to_string(), "weebo-user".to_string(), "weebo-user".to_string()];
    assert_eq!(pick_by_name("group", &names, "weebo-user"), Ok(1));
    assert_eq!(
        pick_by_name("flow", &names, "default-authorization-flow"),
        Err(GatewayError::NotFound(
            "flow \"default-authorization-flow\" not found".to_string()
        ))
    );
}

#[test]
fn the_embedded_outpost_is_the_default_target() {
    assert_eq!(outpost_name(None), "authentik Embedded Outpost");
    assert_eq!(outpost_name(Some("edge")), "edge");
}

#[test]
fn attaching_a_provider_is_idempotent() {
    let once = with_provider(vec![3, 5], 7);
    assert_eq!(once, vec![3, 5, 7]);
    assert_eq!(with_provider(once.clone(), 7), once);
}

fn oauth2(grants: &[&str]) -> Oauth2ProviderSpec {
    Oauth2ProviderSpec {
        client_id: None,
        authorization_flow: "default-authorization-flow".to_string(),
        invalidation_flow: "default-invalidation-flow".to_string(),
        signing_key: None,
        allowed_redirect_uris: vec![],
        property_mappings: vec![],
        grant_types: grants.iter().map(|g| g.to_string()).collect(),
    }
}

#[test]
fn grant_types_map_known_names_and_reject_the_first_unknown() {
    assert_eq!(grant_types(&oauth2(&[])), Ok(None));
    assert_eq!(
        grant_types(&oauth2(&["authorization_code", "refresh_token", "password"])),
        Ok(Some(vec![
            GrantType::AuthorizationCode,
            GrantType::RefreshToken,
            GrantType::Password
        ]))
    );
    assert_eq!(
        grant_types(&oauth2(&["implicit", "device_code", "nope"])),
        Err(GatewayError::Api(
            "unsupported oauth2 grant type \"device_code\"".to_string()
        ))
    );
}

#[test]
fn delete_provider_hits_the_endpoint_of_its_kind() {
    assert_eq!(delete_provider_route(ProviderKind::Oauth2), Ok(ProviderEndpoint::Oauth2));
    assert_eq!(delete_provider_route(ProviderKind::Proxy), Ok(ProviderEndpoint::Proxy));
    assert_eq!(
        delete_provider_route(ProviderKind::Saml),
        Err(GatewayError::Api(
            "delete_provider called with unsupported kind Saml — only oauth2/proxy providers are ever created by this operator".to_string()
        ))
    );
    assert!(delete_provider_route(ProviderKind::Ldap).is_err());
}

#[test]
fn default_instance_must_be_unique() {
    assert_eq!(elect_default_instance(1), Ok(0));
    assert_eq!(
        elect_default_instance(0),
        Err(GatewayFactoryError::AmbiguousDefault(
            "no AuthentikInstance CR exists".to_string()
        ))
    );
    assert_eq!(
        elect_default_instance(12),
        Err(GatewayFactoryError::AmbiguousDefault(
            "12 AuthentikInstance CRs exist, expected exactly one for a default".to_string()
        ))
    );
}

#[test]
fn a_garbage_ca_is_an_error_not_a_silent_fallback() {
    let err = check_ca_bundle(Err("invalid certificate".to_string())).unwrap_err();
    match err {
        GatewayFactoryError::ResolutionFailed(message) => assert!(
            message.contains("tls.caSecretRef"),
            "error should name the field at fault, got: {message}"
        ),
        other => panic!("unexpected {other:?}"),
    }
    assert_eq!(
        check_ca_bundle(Ok(0)),
        Err(GatewayFactoryError::ResolutionFailed(
            "the CA bundle from tls.caSecretRef contains no PEM certificate".to_string()
        ))
    );
    assert_eq!(check_ca_bundle(Ok(2)), Ok(()));
}

#[test]
fn provider_credentials_default_to_empty() {
    let c = provider_credentials(Some("id".into()), None, "https://login.example.com", "harbor");
    assert_eq!(c.client_id, "id");
    assert_eq!(c.client_secret, "");
    assert_eq!(c.authentik_url, "https://login.example.com/application/o/harbor/");
}

#[test]
fn the_issuer_hangs_off_the_web_base_never_the_api_base() {
    for url in ["https://auth.weebo.poc", "https://auth.weebo.poc/api/v3/"] {
        let (api, web) = split_urls(url);
        let c = provider_credentials(None, None, &web, "grafana");
        assert_eq!(c.authentik_url, "https://auth.weebo.poc/application/o/grafana/");
        assert_ne!(c.authentik_url, api);
    }
}

const TEST_CA_PEM: &[u8] = b"-----BEGIN CERTIFICATE-----
MIIBmjCCAUGgAwIBAgIUDseMGg7lqwp/fehLDBBF+pqjkQowCgYIKoZIzj0EAwIw
IjEgMB4GA1UEAwwXd2VlYm8tYXV0aGVudGlrIHRlc3QgQ0EwIBcNMjYwOTAxMjIx
NDU5WhgPMjEyNjA4MDgyMjE0NTlaMCIxIDAeBgNVBAMMF3dlZWJvLWF1dGhlbnRp
ayB0ZXN0IENBMFkwEwYHKoZIzj0CAQYIKoZIzj0DAQcDQgAEk/e90DXUvJu6vjN+
IkxWBZCEZoshuQYr9hRX+ppeJ/IxvMJM7jZObmxsLbN0H3JPdJCE8y8+g0wDDApa
Fh4O/aNTMFEwHQYDVR0OBBYEFHClE9JN2ravRskzWDnUoX+ACo1vMB8GA1UdIwQY
MBaAFHClE9JN2ravRskzWDnUoX+ACo1vMA8GA1UdEwEB/wQFMAMBAf8wCgYIKoZI
zj0EAwIDRwAwRAIgUHYMhR7mBxjF2RLdcroOL/tRDyGS8PcSgn/Ae1YeCdACIG7X
8ZJWYN/smaj63o+6SyWrQgzrQhnpf9NCD5aT7D+K
-----END CERTIFICATE-----
";

#[test]
fn a_pem_bundle_becomes_an_extra_root() {
    let roots = ca_roots(TEST_CA_PEM).expect("a valid PEM bundle must be accepted");
    assert_eq!(roots.len(), 1);
    let chain = [TEST_CA_PEM, TEST_CA_PEM].concat();
    let roots = ca_roots(&chain).expect("a concatenated PEM chain must be accepted");
    assert_eq!(roots.len(), 2);
}

#[test]
fn a_bundle_without_any_certificate_is_refused() {
    match ca_roots(b"not a certificate") {
        Err(GatewayFactoryError::ResolutionFailed(message)) => assert!(
            message.contains("tls.caSecretRef"),
            "error should name the field at fault, got: {message}"
        ),
        Ok(roots) => panic!("garbage accepted as {} roots", roots.len()),
        Err(other) => panic!("unexpected {other:?}"),
    }
}

#[test]
fn delete_provider_hits_the_oauth2_endpoint_for_oauth2_kind() {
    assert_eq!(delete_provider_route(ProviderKind::Oauth2), Ok(ProviderEndpoint::Oauth2));
}

#[test]
fn delete_provider_hits_the_proxy_endpoint_for_proxy_kind() {
    assert_eq!(delete_provider_route(ProviderKind::Proxy), Ok(ProviderEndpoint::Proxy));
}

#[test]
fn delete_provider_on_404_is_idempotent() {
    assert_eq!(ignore_not_found(Err(failure(Some(404), r#"{"detail":"Not found."}"#))), Ok(()));
}

#[test]
fn create_flow_conflict_maps_to_already_exists() {
    let body = r#"{"slug":["flow with this slug already exists."]}"#;
    assert!(matches!(map_err(failure(Some(409), body)), GatewayError::AlreadyExists(_)));
}

#[test]
fn delete_flow_on_404_is_idempotent() {
    assert_eq!(ignore_not_found(Err(failure(Some(404), "{}"))), Ok(()));
}

#[test]
fn delete_application_on_404_is_idempotent() {
    assert_eq!(ignore_not_found(Err(failure(Some(404), "{}"))), Ok(()));
    assert!(matches!(ignore_not_found(Err(failure(Some(500), "{}"))), Err(GatewayError::Api(_))));
}

#[test]
fn delete_outpost_on_404_is_idempotent() {
    assert_eq!(ignore_not_found(Err(failure(Some(404), "{}"))), Ok(()));
}

#[test]
fn get_application_not_found_maps_to_not_found() {
    assert_eq!(
        map_err(failure(Some(404), r#"{"detail":"No Application matches the given query."}"#)),
        GatewayError::NotFound(r#"{"detail":"No Application matches the given query."}"#.to_string())
    );
}

#[test]
fn upsert_oauth2_provider_surfaces_an_unresolved_authorization_flow() {
    let listed: Vec<String> = Vec::new();
    let err = pick_by_name("flow", &listed, "default-authorization-flow").unwrap_err();
    assert!(matches!(err, GatewayError::NotFound(_)));
}
