use weebo_authentik::crd::application::default_signing_key;
use weebo_authentik::crd::instance::{
    default_kubernetes_auth_mount, default_vault_path_prefix, split_urls, SecretStoreBackend,
    SecretStoreSpec, TlsOptions,
};
use weebo_authentik::crd::user::default_true;
use weebo_authentik::text::trim_trailing_slashes;

#[test]
fn web_base_gets_the_api_suffix_for_rest_calls() {
    assert_eq!(
        split_urls("https://auth.weebo.poc"),
        (
            "https://auth.weebo.poc/api/v3".to_string(),
            "https://auth.weebo.poc".to_string()
        )
    );
}

#[test]
fn trailing_slash_does_not_double_up() {
    assert_eq!(
        split_urls("https://auth.weebo.poc/"),
        (
            "https://auth.weebo.poc/api/v3".to_string(),
            "https://auth.weebo.poc".to_string()
        )
    );
}

#[test]
fn an_api_url_is_accepted_and_never_reaches_the_issuer() {
    for url in [
        "https://auth.weebo.poc/api/v3",
        "https://auth.weebo.poc/api/v3/",
    ] {
        assert_eq!(
            split_urls(url),
            (
                "https://auth.weebo.poc/api/v3".to_string(),
                "https://auth.weebo.poc".to_string()
            )
        );
    }
}

#[test]
fn repeated_slashes_and_suffixes_are_all_trimmed() {
    assert_eq!(
        split_urls("https://auth.weebo.poc//api/v3/api/v3//"),
        (
            "https://auth.weebo.poc/api/v3".to_string(),
            "https://auth.weebo.poc".to_string()
        )
    );
}

#[test]
fn a_path_under_the_base_is_kept() {
    assert_eq!(
        split_urls("https://example.com/authentik/"),
        (
            "https://example.com/authentik/api/v3".to_string(),
            "https://example.com/authentik".to_string()
        )
    );
}

#[test]
fn an_empty_url_derives_an_empty_base() {
    assert_eq!(split_urls(""), ("/api/v3".to_string(), String::new()));
}

#[test]
fn splitting_the_derived_api_url_gives_the_same_pair() {
    let (api, web) = split_urls("https://login.example.com/");
    assert_eq!(split_urls(&api), (api.clone(), web.clone()));
    assert_eq!(split_urls(&web), (api, web));
}

#[test]
fn a_web_base_ending_in_the_suffix_twice_is_not_stable() {
    let (_, web) = split_urls("x/api/v3//api/v3");
    assert_eq!(web, "x/api/v3");
    let (_, again) = split_urls(&web);
    assert_eq!(again, "x");
}

#[test]
fn manifest_defaults() {
    assert!(default_true());
    assert_eq!(
        default_signing_key(),
        Some("authentik Self-signed Certificate".to_string())
    );
    assert_eq!(default_vault_path_prefix(), "weebo-authentik");
    assert_eq!(default_kubernetes_auth_mount(), "kubernetes");
    let tls = TlsOptions::default();
    assert!(!tls.insecure_skip_verify);
    assert!(tls.ca_secret_ref.is_none());
    let store = SecretStoreSpec::default();
    assert_eq!(store.backend, SecretStoreBackend::Kubernetes);
    assert!(store.vault.is_none());
    assert_eq!(SecretStoreBackend::default(), SecretStoreBackend::Kubernetes);
}

#[test]
fn trailing_slashes_are_all_trimmed_from_a_web_base() {
    assert_eq!(trim_trailing_slashes("https://login.example.com//"), "https://login.example.com");
    assert_eq!(trim_trailing_slashes("https://login.example.com"), "https://login.example.com");
    assert_eq!(trim_trailing_slashes("///"), "");
}
