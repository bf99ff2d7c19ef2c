//! The common status model every custom resource reports: reconcile
//! outcomes, their reason codes, the `Ready` condition patched onto the
//! resource, how soon it is reconciled again, and its metric labels.
use vstd::prelude::*;

verus! {

/// Machine-readable reason carried by a `Ready` condition.
#[derive(Clone, Copy, Debug, PartialEq, Eq, Structural)]
pub enum ReasonCode {
    Reconciled,
    NamespaceNotAllowed,
    DefaultBrandConflict,
    AuthentikObjectAlreadyExists,
    ApplicationRefNotFound,
    GroupRefNotFound,
    AuthentikApiError,
}

/// The wire text of a reason code: the variant's own name.
pub open spec fn reason_text(r: ReasonCode) -> Seq<char> {
    match r {
        ReasonCode::Reconciled => "Reconciled"@,
        ReasonCode::NamespaceNotAllowed => "NamespaceNotAllowed"@,
        ReasonCode::DefaultBrandConflict => "DefaultBrandConflict"@,
        ReasonCode::AuthentikObjectAlreadyExists => "AuthentikObjectAlreadyExists"@,
        ReasonCode::ApplicationRefNotFound => "ApplicationRefNotFound"@,
        ReasonCode::GroupRefNotFound => "GroupRefNotFound"@,
        ReasonCode::AuthentikApiError => "AuthentikApiError"@,
    }
}

impl ReasonCode {
    /// The wire text of this reason code.
    pub fn as_str(&self) -> (s: &'static str)
        ensures
            s@ == reason_text(*self),
    {
        match self {
            ReasonCode::Reconciled => "Reconciled",
            ReasonCode::NamespaceNotAllowed => "NamespaceNotAllowed",
            ReasonCode::DefaultBrandConflict => "DefaultBrandConflict",
            ReasonCode::AuthentikObjectAlreadyExists => "AuthentikObjectAlreadyExists",
            ReasonCode::ApplicationRefNotFound => "ApplicationRefNotFound",
            ReasonCode::GroupRefNotFound => "GroupRefNotFound",
            ReasonCode::AuthentikApiError => "AuthentikApiError",
        }
    }
}

/// Status of a condition.
#[derive(Clone, Copy, Debug, PartialEq, Eq, Structural)]
pub enum ConditionStatus {
    True,
    False,
    Unknown,
}

/// The wire text of a condition status.
pub open spec fn condition_status_text(s: ConditionStatus) -> Seq<char> {
    match s {
        ConditionStatus::True => "True"@,
        ConditionStatus::False => "False"@,
        ConditionStatus::Unknown => "Unknown"@,
    }
}

impl ConditionStatus {
    /// The wire text of this status.
    pub fn as_str(&self) -> (s: &'static str)
        ensures
            s@ == condition_status_text(*self),
    {
        match self {
            ConditionStatus::True => "True",
            ConditionStatus::False => "False",
            ConditionStatus::Unknown => "Unknown",
        }
    }
}

/// What a reconcile use-case concluded.
#[derive(Clone, Debug, PartialEq, Eq)]
pub enum ReconcileOutcome {
    /// In sync; `authentik_id` is the remote object's identity when the
    /// resource owns one.
    Synced { authentik_id: Option<String> },
    /// Not in sync, for `reason`.
    Errored { reason: ReasonCode, message: String },
}

/// The `Ready` condition written to a resource's status.
#[derive(Clone, Debug, PartialEq, Eq)]
pub struct ReadyCondition {
    pub status: ConditionStatus,
    pub reason: ReasonCode,
    pub message: String,
}

/// One `status` subresource patch: the `Ready` condition, and the
/// Authentik-side identity when there is one to record.
#[derive(Clone, Debug, PartialEq, Eq)]
pub struct StatusPatch {
    pub authentik_id: Option<String>,
    pub ready: ReadyCondition,
}

/// The condition type every patch writes.
pub fn ready_condition_type() -> (s: &'static str)
    ensures
        s@ == "Ready"@,
{
    "Ready"
}

/// The patch setting only the `Ready` condition.
pub fn patch_ready_condition(status: ConditionStatus, reason: ReasonCode, message: String) -> (p:
    StatusPatch)
    ensures
        p.authentik_id is None,
        p.ready.status == status,
        p.ready.reason == reason,
        p.ready.message == message,
{
    StatusPatch { authentik_id: None, ready: ReadyCondition { status, reason, message } }
}

/// The patch recording `authentik_id` alongside `Ready: True`.
pub fn patch_synced_status(authentik_id: String, message: String) -> (p: StatusPatch)
    ensures
        p.authentik_id == Some(authentik_id),
        p.ready.status == ConditionStatus::True,
        p.ready.reason == ReasonCode::Reconciled,
        p.ready.message == message,
{
    StatusPatch {
        authentik_id: Some(authentik_id),
        ready: ReadyCondition {
            status: ConditionStatus::True,
            reason: ReasonCode::Reconciled,
            message,
        },
    }
}

/// The status patch an outcome maps to.
pub open spec fn outcome_patch(outcome: ReconcileOutcome, synced_message: Seq<char>) -> (
    Option<Seq<char>>,
    ConditionStatus,
    ReasonCode,
    Seq<char>,
) {
    match outcome {
        ReconcileOutcome::Synced { authentik_id: Some(id) } => (
            Some(id@),
            ConditionStatus::True,
            ReasonCode::Reconciled,
            synced_message,
        ),
        ReconcileOutcome::Synced { authentik_id: None } => (
            None,
            ConditionStatus::True,
            ReasonCode::Reconciled,
            synced_message,
        ),
        ReconcileOutcome::Errored { reason, message } => (
            None,
            ConditionStatus::False,
            reason,
            message@,
        ),
    }
}

/// The plain view of a patch, to compare with `outcome_patch`.
pub open spec fn patch_view(p: StatusPatch) -> (
    Option<Seq<char>>,
    ConditionStatus,
    ReasonCode,
    Seq<char>,
) {
    (
        match p.authentik_id {
            Some(id) => Some(id@),
            None => None,
        },
        p.ready.status,
        p.ready.reason,
        p.ready.message@,
    )
}

/// Maps a reconcile outcome to its status patch: a synced outcome
/// carrying an id records it with `Ready: True`; a synced outcome without
/// one sets `Ready: True` only; an errored outcome sets `Ready: False` with
/// its own reason and message. `synced_message` is the `Ready` message of a
/// successful sync.
pub fn patch_reconcile_outcome(outcome: ReconcileOutcome, synced_message: &str) -> (p:
    StatusPatch)
    ensures
        patch_view(p) == outcome_patch(outcome, synced_message@),
{
    match outcome {
        ReconcileOutcome::Synced { authentik_id: Some(id) } => patch_synced_status(
            id,
            String::from_str(synced_message),
        ),
        ReconcileOutcome::Synced { authentik_id: None } => patch_ready_condition(
            ConditionStatus::True,
            ReasonCode::Reconciled,
            String::from_str(synced_message),
        ),
        ReconcileOutcome::Errored { reason, message } => patch_ready_condition(
            ConditionStatus::False,
            reason,
            message,
        ),
    }
}

/// Seconds before the resource is reconciled again after `outcome`: the
/// slow steady-state re-check for a sync, a short backoff for an error.
pub open spec fn requeue_secs(outcome: ReconcileOutcome) -> u64 {
    match outcome {
        ReconcileOutcome::Synced { .. } => 300,
        ReconcileOutcome::Errored { .. } => 30,
    }
}

/// Requeue delay, in seconds, after a successful reconcile pass.
pub fn requeue_after(outcome: &ReconcileOutcome) -> (secs: u64)
    ensures
        secs == requeue_secs(*outcome),
{
    match outcome {
        ReconcileOutcome::Synced { .. } => 300,
        ReconcileOutcome::Errored { .. } => 30,
    }
}

/// The steady-state re-check cadence, in seconds, of the controllers that
/// requeue a reconcile whatever its outcome: the cadence of a sync.
pub fn resync_after() -> (secs: u64)
    ensures
        secs == requeue_secs((ReconcileOutcome::Synced { authentik_id: None })),
        secs == 300,
{
    300
}

/// Requeue delay, in seconds, after a reconcile that failed outright.
pub fn error_policy() -> (secs: u64)
    ensures
        secs == 30,
{
    30
}

/// The `result` and `reason` labels a reconcile attempt is counted under.
pub open spec fn reconcile_label_texts(outcome: ReconcileOutcome) -> (Seq<char>, Seq<char>) {
    match outcome {
        ReconcileOutcome::Synced { .. } => ("synced"@, reason_text(ReasonCode::Reconciled)),
        ReconcileOutcome::Errored { reason, .. } => ("errored"@, reason_text(reason)),
    }
}

/// The `result` and `reason` labels a reconcile attempt is counted under.
pub fn record_reconcile(outcome: &ReconcileOutcome) -> (labels: (&'static str, &'static str))
    ensures
        (labels.0@, labels.1@) == reconcile_label_texts(*outcome),
{
    match outcome {
        ReconcileOutcome::Synced { .. } => ("synced", ReasonCode::Reconciled.as_str()),
        ReconcileOutcome::Errored { reason, .. } => ("errored", reason.as_str()),
    }
}

/// An errored outcome is always retried sooner than a synced one, and a
/// patch reports `Ready: True` exactly for synced outcomes.
pub proof fn errors_requeue_sooner_and_only_syncs_are_ready(
    synced: ReconcileOutcome,
    errored: ReconcileOutcome,
    message: Seq<char>,
)
    requires
        synced is Synced,
        errored is Errored,
    ensures
        requeue_secs(errored) < requeue_secs(synced),
        outcome_patch(synced, message).1 == ConditionStatus::True,
        outcome_patch(errored, message).1 == ConditionStatus::False,
{
}

} // verus!
