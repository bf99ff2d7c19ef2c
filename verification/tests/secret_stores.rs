use std::time::Duration;

use weebo_authentik::crd::application::SecretTarget;
use weebo_authentik::crd::instance::{
    AuthentikInstanceSpec, SecretKeyRef, SecretStoreBackend, SecretStoreSpec, TlsOptions,
    VaultSecretStoreSpec,
};
use weebo_authentik::ports::{Oauth2Credentials, SecretStoreError, SecretStoreFactoryError};
use weebo_authentik::secret_fanout::{delete_finish, FanOutAction, FanOutSecretStore};
use weebo_authentik::secret_k8s::delete_outcome;
use weebo_authentik::secret_store_factory::{
    default_destination, login_expiry, plan_secret_targets, require_vault_spec,
    store_coordinates, DefaultDestination, PlannedTarget, VaultLoginCache,
};
use weebo_authentik::secret_vault::{
    after_delete, after_write, cache_ttl_from_lease, document_matches, is_auth_error, login_error,
    write_start, WriteStart,
    KvNext, VaultFailure, VaultSecretStore,
};

fn creds() -> Oauth2Credentials {
    Oauth2Credentials {
        client_id: "id".to_string(),
        client_secret: "secret".to_string(),
        authentik_url: "https://authentik.example.com".to_string(),
    }
}

/// Drives a write run, calling `outcome(label)` for each visited
/// destination and recording the visit.
fn run_write(
    store: &FanOutSecretStore<String, String>,
    outcome: impl Fn(&str) -> Result<(), SecretStoreError>,
    calls: &mut Vec<String>,
) -> Result<(), SecretStoreError> {
    let mut action = store.start();
    loop {
        match action {
            FanOutAction::Finish(result) => return result,
            FanOutAction::Visit(i) => {
                let tag = match store.destination(i) {
                    weebo_authentik::secret_fanout::Destination::Kubernetes { store, .. } => store.clone(),
                    weebo_authentik::secret_fanout::Destination::Vault { store, .. } => store.clone(),
                };
                calls.push(format!("write:{tag}"));
                action = store.write_continue(i, outcome(&tag));
            }
        }
    }
}

fn run_delete(
    store: &FanOutSecretStore<String, String>,
    outcome: impl Fn(&str) -> Result<(), SecretStoreError>,
    calls: &mut Vec<String>,
) -> Result<(), SecretStoreError> {
    let mut first = None;
    let mut next = if store.is_empty() { None } else { Some(0) };
    while let Some(i) = next {
        let tag = match store.destination(i) {
            weebo_authentik::secret_fanout::Destination::Kubernetes { store, .. } => store.clone(),
            weebo_authentik::secret_fanout::Destination::Vault { store, .. } => store.clone(),
        };
        calls.push(format!("delete:{tag}"));
        let (f, n) = store.delete_continue(i, outcome(&tag), first);
        first = f;
        next = n;
    }
    delete_finish(first)
}

fn two_targets() -> FanOutSecretStore<String, String> {
    let mut store = FanOutSecretStore::new();
    store.push_kubernetes("a".to_string(), "ns".to_string(), "app".to_string());
    store.push_vault("b".to_string(), "apps/frontend/oauth".to_string());
    store
}

#[test]
fn write_hits_every_destination_in_order() {
    let store = two_targets();
    let mut calls = Vec::new();
    run_write(&store, |_| Ok(()), &mut calls).expect("all writes succeed");
    assert_eq!(calls, ["write:a", "write:b"]);
}

#[test]
fn write_stops_at_the_first_failing_destination_and_names_it() {
    let store = two_targets();
    let mut calls = Vec::new();
    let err = run_write(
        &store,
        |tag| {
            if tag == "a" {
                Err(SecretStoreError::Write(format!("boom {tag}")))
            } else {
                Ok(())
            }
        },
        &mut calls,
    )
    .expect_err("first target fails");
    assert_eq!(calls, ["write:a"]);
    let text = err.text();
    assert!(text.contains("writing to kubernetes secret ns/app"), "{text}");
    assert_eq!(
        err,
        SecretStoreError::Write(
            "writing to kubernetes secret ns/app: secret store write failed: boom a".to_string()
        )
    );
}

#[test]
fn delete_visits_every_destination_and_reports_the_first_failure() {
    let store = two_targets();
    let mut calls = Vec::new();
    let err = run_delete(
        &store,
        |tag| Err(SecretStoreError::Delete(format!("boom {tag}"))),
        &mut calls,
    )
    .expect_err("first target's delete fails");
    assert_eq!(calls, ["delete:a", "delete:b"]);
    assert!(err.text().contains("deleting kubernetes secret ns/app"), "{}", err.text());
    let mut calls = Vec::new();
    let ok = run_delete(&store, |_| Ok(()), &mut calls);
    assert_eq!(ok, Ok(()));
}

#[test]
fn a_later_delete_failure_is_reported_when_the_first_succeeds() {
    let store = two_targets();
    let mut calls = Vec::new();
    let err = run_delete(
        &store,
        |tag| if tag == "b" { Err(SecretStoreError::Delete("gone".into())) } else { Ok(()) },
        &mut calls,
    )
    .unwrap_err();
    assert_eq!(
        err,
        SecretStoreError::Delete(
            "deleting vault path apps/frontend/oauth: secret store delete failed: gone".to_string()
        )
    );
}

#[test]
fn an_empty_fan_out_finishes_at_once() {
    let store: FanOutSecretStore<String, String> = FanOutSecretStore::new();
    assert!(store.is_empty());
    assert_eq!(store.len(), 0);
    assert!(matches!(store.start(), FanOutAction::Finish(Ok(()))));
    let store: FanOutSecretStore<String, String> = FanOutSecretStore::default();
    assert!(store.is_empty());
    let store = two_targets();
    assert!(!store.is_empty());
    assert_eq!(store.label(1), "vault path apps/frontend/oauth");
}

#[test]
fn cache_ttl_is_eighty_percent_of_a_renewable_lease() {
    assert_eq!(
        cache_ttl_from_lease(3600, true).map(Duration::from_secs),
        Some(Duration::from_secs(3600 * 4 / 5))
    );
}

#[test]
fn cache_ttl_is_none_for_a_non_renewable_login() {
    assert_eq!(cache_ttl_from_lease(3600, false), None);
    assert_eq!(cache_ttl_from_lease(0, true), None);
}

fn vault_spec() -> VaultSecretStoreSpec {
    VaultSecretStoreSpec {
        address: "https://vault.example.com:8200".to_string(),
        mount: "secret".to_string(),
        path_prefix: "weebo-authentik".to_string(),
        kubernetes_auth_role: "operator".to_string(),
        kubernetes_auth_mount: "kubernetes".to_string(),
        ca_secret_ref: None,
    }
}

#[test]
fn vault_store_paths_and_errors() {
    let store = VaultSecretStore::new(&vault_spec(), "jwt".to_string(), 3600, true);
    assert_eq!(store.cache_ttl(), Some(2880));
    assert_eq!(store.default_path("default", "weebo-app"), "weebo-authentik/default/weebo-app");
    assert_eq!(
        store.relogin_error("denied"),
        SecretStoreError::Write(
            "Vault Kubernetes auth re-login (mount \"kubernetes\", role \"operator\") failed: denied"
                .to_string()
        )
    );
    assert_eq!(
        login_error(&vault_spec(), "x"),
        SecretStoreError::Write(
            "Vault Kubernetes auth login (mount \"kubernetes\", role \"operator\") failed: x".to_string()
        )
    );
}

fn vault_err(code: Option<u16>) -> Result<(), VaultFailure> {
    Err(VaultFailure { code, rendered: format!("code {code:?}") })
}

#[test]
fn write_relogins_and_retries_once_on_a_403() {
    assert_eq!(after_write(vault_err(Some(403)), false), KvNext::Relogin);
    assert_eq!(after_write(Ok(()), true), KvNext::Done(Ok(())));
    assert_eq!(
        after_write(vault_err(Some(403)), true),
        KvNext::Done(Err(SecretStoreError::Write("code Some(403)".to_string())))
    );
    assert_eq!(
        after_write(vault_err(Some(500)), false),
        KvNext::Done(Err(SecretStoreError::Write("code Some(500)".to_string())))
    );
}

#[test]
fn delete_relogins_and_retries_once_on_a_403() {
    assert_eq!(after_delete(vault_err(Some(401)), false), KvNext::Relogin);
    assert_eq!(after_delete(Ok(()), true), KvNext::Done(Ok(())));
    assert_eq!(
        after_delete(vault_err(Some(403)), true),
        KvNext::Done(Err(SecretStoreError::Delete("code Some(403)".to_string())))
    );
}

#[test]
fn delete_is_idempotent_when_vault_returns_404() {
    assert_eq!(after_delete(vault_err(Some(404)), false), KvNext::Done(Ok(())));
    assert_eq!(after_delete(vault_err(Some(404)), true), KvNext::Done(Ok(())));
    assert!(is_auth_error(Some(401)) && is_auth_error(Some(403)));
    assert!(!is_auth_error(Some(404)) && !is_auth_error(None));
}

fn doc(pairs: &[(&str, &str)]) -> Vec<(String, String)> {
    pairs.iter().map(|(k, v)| (k.to_string(), v.to_string())).collect()
}

#[test]
fn write_oauth2_credentials_skips_the_set_when_the_stored_document_already_matches() {
    let stored = doc(&[
        ("AUTHENTIK_URL", "https://authentik.example.com"),
        ("AUTHENTIK_CLIENT_ID", "id"),
        ("AUTHENTIK_CLIENT_SECRET", "secret"),
    ]);
    assert!(document_matches(&stored, &creds()));
    assert_eq!(creds().entries(), doc(&[
        ("AUTHENTIK_CLIENT_ID", "id"),
        ("AUTHENTIK_CLIENT_SECRET", "secret"),
        ("AUTHENTIK_URL", "https://authentik.example.com"),
    ]));
}

#[test]
fn write_oauth2_credentials_still_writes_when_the_stored_document_differs() {
    let stale = doc(&[
        ("AUTHENTIK_CLIENT_ID", "id"),
        ("AUTHENTIK_CLIENT_SECRET", "a-stale-secret"),
        ("AUTHENTIK_URL", "https://authentik.example.com"),
    ]);
    assert!(!document_matches(&stale, &creds()));
    let extra = doc(&[
        ("AUTHENTIK_CLIENT_ID", "id"),
        ("AUTHENTIK_CLIENT_SECRET", "secret"),
        ("AUTHENTIK_URL", "https://authentik.example.com"),
        ("EXTRA", "x"),
    ]);
    assert!(!document_matches(&extra, &creds()));
    assert!(!document_matches(&Vec::new(), &creds()));
}

#[test]
fn kubernetes_delete_treats_404_as_done() {
    assert_eq!(delete_outcome(Some(404), "not found".into()), Ok(()));
    assert_eq!(
        delete_outcome(Some(403), "forbidden".into()),
        Err(SecretStoreError::Delete("forbidden".to_string()))
    );
    assert_eq!(
        delete_outcome(None, "io".into()),
        Err(SecretStoreError::Delete("io".to_string()))
    );
}

fn instance(backend: SecretStoreBackend, vault: Option<VaultSecretStoreSpec>) -> AuthentikInstanceSpec {
    AuthentikInstanceSpec {
        url: "https://login.example.com".to_string(),
        token_secret_ref: SecretKeyRef {
            name: "authentik-token".to_string(),
            namespace: "default".to_string(),
            key: "token".to_string(),
        },
        tls: TlsOptions::default(),
        secret_store: SecretStoreSpec { backend, vault },
    }
}

#[test]
fn default_destination_follows_the_instance_backend() {
    let name = Some("prod".to_string());
    assert_eq!(
        default_destination(&name, &instance(SecretStoreBackend::Kubernetes, None)),
        Ok(DefaultDestination::Kubernetes)
    );
    assert_eq!(
        default_destination(&name, &instance(SecretStoreBackend::Vault, Some(vault_spec()))),
        Ok(DefaultDestination::Vault)
    );
    assert_eq!(
        default_destination(&name, &instance(SecretStoreBackend::Vault, None)),
        Err(SecretStoreFactoryError::ResolutionFailed(
            "AuthentikInstance Some(\"prod\") is asked for a Vault secret destination but has no secretStore.vault config".to_string()
        ))
    );
    assert!(require_vault_spec(&None, &instance(SecretStoreBackend::Kubernetes, Some(vault_spec()))).is_ok());
}

#[test]
fn secret_targets_resolve_names_and_paths() {
    let targets = vec![
        SecretTarget { backend: SecretStoreBackend::Vault, path: Some("apps/frontend/oauth".into()), name: None },
        SecretTarget { backend: SecretStoreBackend::Vault, path: None, name: None },
        SecretTarget { backend: SecretStoreBackend::Kubernetes, path: None, name: Some("creds".into()) },
        SecretTarget { backend: SecretStoreBackend::Kubernetes, path: Some("ignored".into()), name: None },
    ];
    let (ns, name) = store_coordinates(Some("default".into()), None, "weebo-app");
    assert_eq!((ns.as_str(), name.as_str()), ("default", "weebo-app"));
    let plan = plan_secret_targets(
        &Some("prod".into()),
        &instance(SecretStoreBackend::Kubernetes, Some(vault_spec())),
        &ns,
        &name,
        &targets,
    )
    .unwrap();
    assert_eq!(
        plan,
        vec![
            PlannedTarget::Vault { path: "apps/frontend/oauth".into() },
            PlannedTarget::Vault { path: "weebo-authentik/default/weebo-app".into() },
            PlannedTarget::Kubernetes { namespace: "default".into(), name: "creds".into() },
            PlannedTarget::Kubernetes { namespace: "default".into(), name: "weebo-app".into() },
        ]
    );
    let err = plan_secret_targets(&None, &instance(SecretStoreBackend::Kubernetes, None), &ns, &name, &targets)
        .unwrap_err();
    assert_eq!(
        err,
        SecretStoreFactoryError::ResolutionFailed(
            "AuthentikInstance None is asked for a Vault secret destination but has no secretStore.vault config".to_string()
        )
    );
}

#[test]
fn a_vault_login_is_reused_until_it_expires_or_the_config_changes() {
    let mut cache = VaultLoginCache::new();
    assert_eq!(cache.lookup("prod", 0, &vault_spec()), None);
    let expires = login_expiry(1_000, Some(2880));
    assert_eq!(expires, 1_000 + 2_880_000);
    cache.record("prod".to_string(), expires, vault_spec(), 7);
    assert_eq!(cache.lookup("prod", 5_000, &vault_spec()), Some(7));
    assert_eq!(cache.lookup("prod", expires, &vault_spec()), None);
    let mut edited = vault_spec();
    edited.mount = "kv".to_string();
    assert_eq!(cache.lookup("prod", 5_000, &edited), None);
    assert_eq!(cache.lookup("staging", 5_000, &vault_spec()), None);
    cache.record("prod".to_string(), login_expiry(9_000, None), edited.clone(), 8);
    assert_eq!(cache.lookup("prod", 9_000, &edited), None);
    cache.record("staging".to_string(), u64::MAX, vault_spec(), 9);
    assert_eq!(cache.lookup("staging", 10, &vault_spec()), Some(9));
    assert_eq!(login_expiry(u64::MAX - 5, Some(1)), u64::MAX);
}

#[test]
fn write_oauth2_credentials_puts_the_canonical_shape_at_the_expected_kv2_path() {
    let store = VaultSecretStore::new(&vault_spec(), "jwt".to_string(), 3600, true);
    assert_eq!(store.default_path("team-a", "grafana"), "weebo-authentik/team-a/grafana");
    assert_eq!(
        creds().entries(),
        doc(&[
            ("AUTHENTIK_CLIENT_ID", "id"),
            ("AUTHENTIK_CLIENT_SECRET", "secret"),
            ("AUTHENTIK_URL", "https://authentik.example.com"),
        ])
    );
}

#[test]
fn write_oauth2_credentials_writes_when_the_path_does_not_exist_yet() {
    assert!(!document_matches(&Vec::new(), &creds()));
}

#[test]
fn write_oauth2_credentials_surfaces_a_vault_api_error() {
    assert_eq!(
        after_write(vault_err(Some(500)), false),
        KvNext::Done(Err(SecretStoreError::Write("code Some(500)".to_string())))
    );
}

#[test]
fn delete_removes_metadata_at_the_expected_kv2_path() {
    let store = VaultSecretStore::new(&vault_spec(), "jwt".to_string(), 0, false);
    assert_eq!(store.default_path("team-a", "grafana"), "weebo-authentik/team-a/grafana");
    assert_eq!(after_delete(Ok(()), false), KvNext::Done(Ok(())));
}

#[test]
fn a_fan_out_is_empty_exactly_when_nothing_was_pushed() {
    for k in 0..4 {
        let mut store: FanOutSecretStore<String, String> = FanOutSecretStore::new();
        for i in 0..k {
            if i % 2 == 0 {
                store.push_kubernetes(format!("k{i}"), "ns".to_string(), format!("app{i}"));
            } else {
                store.push_vault(format!("v{i}"), format!("apps/{i}"));
            }
        }
        assert_eq!(store.is_empty(), k == 0);
        assert_eq!(store.len(), k);
    }
}

#[test]
fn a_lease_too_long_to_multiply_still_caches_eighty_percent() {
    assert_eq!(cache_ttl_from_lease(u64::MAX, true), Some((u64::MAX as u128 * 4 / 5) as u64));
    assert_eq!(cache_ttl_from_lease(u64::MAX / 4 + 1, true), Some(((u64::MAX / 4 + 1) as u128 * 4 / 5) as u64));
    assert_eq!(cache_ttl_from_lease(7, true), Some(5));
    let store = VaultSecretStore::new(&vault_spec(), "jwt".to_string(), u64::MAX, true);
    assert_eq!(store.cache_ttl(), Some((u64::MAX as u128 * 4 / 5) as u64));
}

#[test]
fn an_identical_second_write_issues_no_set() {
    let written = creds().entries();
    assert_eq!(write_start(Some(written), &creds()), WriteStart::AlreadyStored);
    let reordered = doc(&[
        ("AUTHENTIK_URL", "https://authentik.example.com"),
        ("AUTHENTIK_CLIENT_SECRET", "secret"),
        ("AUTHENTIK_CLIENT_ID", "id"),
    ]);
    assert_eq!(write_start(Some(reordered), &creds()), WriteStart::AlreadyStored);
    assert_eq!(write_start(None, &creds()), WriteStart::SetDocument);
    let drifted = doc(&[
        ("AUTHENTIK_URL", "https://authentik.example.com"),
        ("AUTHENTIK_CLIENT_SECRET", "hand-edited"),
        ("AUTHENTIK_CLIENT_ID", "id"),
    ]);
    assert_eq!(write_start(Some(drifted), &creds()), WriteStart::SetDocument);
}
