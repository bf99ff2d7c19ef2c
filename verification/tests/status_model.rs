use weebo_authentik::status::{
    error_policy, patch_ready_condition, patch_reconcile_outcome, patch_synced_status,
    ready_condition_type, record_reconcile, requeue_after, resync_after, ConditionStatus, ReasonCode,
    ReconcileOutcome,
};

#[test]
fn synced_outcome_with_an_id_records_it_and_is_ready() {
    let patch = patch_reconcile_outcome(
        ReconcileOutcome::Synced {
            authentik_id: Some("42".to_string()),
        },
        "group synced",
    );
    assert_eq!(patch.authentik_id.as_deref(), Some("42"));
    assert_eq!(patch.ready.status, ConditionStatus::True);
    assert_eq!(patch.ready.reason, ReasonCode::Reconciled);
    assert_eq!(patch.ready.message, "group synced");
}

#[test]
fn synced_outcome_without_an_id_only_sets_ready() {
    let patch = patch_reconcile_outcome(ReconcileOutcome::Synced { authentik_id: None }, "instance accepted");
    assert_eq!(patch.authentik_id, None);
    assert_eq!(patch.ready.status.as_str(), "True");
    assert_eq!(patch.ready.reason.as_str(), "Reconciled");
    assert_eq!(patch.ready.message, "instance accepted");
}

#[test]
fn errored_outcome_is_not_ready_with_its_own_reason() {
    let patch = patch_reconcile_outcome(
        ReconcileOutcome::Errored {
            reason: ReasonCode::AuthentikObjectAlreadyExists,
            message: "group with this name already exists.".to_string(),
        },
        "group synced",
    );
    assert_eq!(patch.authentik_id, None);
    assert_eq!(patch.ready.status.as_str(), "False");
    assert_eq!(patch.ready.reason.as_str(), "AuthentikObjectAlreadyExists");
    assert_eq!(patch.ready.message, "group with this name already exists.");
}

#[test]
fn requeue_delays() {
    assert_eq!(requeue_after(&ReconcileOutcome::Synced { authentik_id: None }), 300);
    assert_eq!(
        requeue_after(&ReconcileOutcome::Errored {
            reason: ReasonCode::ApplicationRefNotFound,
            message: String::new(),
        }),
        30
    );
    assert_eq!(error_policy(), 30);
    assert_eq!(resync_after(), 300);
}

#[test]
fn reconcile_labels() {
    assert_eq!(
        record_reconcile(&ReconcileOutcome::Synced { authentik_id: Some("x".into()) }),
        ("synced", "Reconciled")
    );
    assert_eq!(
        record_reconcile(&ReconcileOutcome::Errored {
            reason: ReasonCode::DefaultBrandConflict,
            message: String::new(),
        }),
        ("errored", "DefaultBrandConflict")
    );
}

#[test]
fn condition_helpers() {
    assert_eq!(ready_condition_type(), "Ready");
    assert_eq!(ConditionStatus::Unknown.as_str(), "Unknown");
    let p = patch_ready_condition(ConditionStatus::False, ReasonCode::GroupRefNotFound, "m".into());
    assert_eq!(p.authentik_id, None);
    assert_eq!(p.ready.reason.as_str(), "GroupRefNotFound");
    let s = patch_synced_status("pk".into(), "ok".into());
    assert_eq!(s.authentik_id.as_deref(), Some("pk"));
    assert_eq!(s.ready.status, ConditionStatus::True);
    assert_eq!(ReasonCode::NamespaceNotAllowed.as_str(), "NamespaceNotAllowed");
    assert_eq!(ReasonCode::AuthentikApiError.as_str(), "AuthentikApiError");
}
