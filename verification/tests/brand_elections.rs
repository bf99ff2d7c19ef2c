use weebo_authentik::brand_election::{
    conflict_outcome, list_default_claimants, plan_brand_action, to_input, BrandAction,
    BrandReconcileInput,
};
use weebo_authentik::status::{ReasonCode, ReconcileOutcome};

fn brand(name: &str, ts: i64, default: bool) -> BrandReconcileInput {
    to_input(name, Some(ts), default)
}

#[test]
fn sole_default_brand_becomes_ready_and_default() {
    let this = brand("weebo", 100, true);
    let claimants = list_default_claimants(vec![brand("weebo", 100, true)], &this);
    assert_eq!(plan_brand_action(&this, &claimants), BrandAction::BecomeDefault);
    assert_eq!(BrandAction::BecomeDefault.sync_as_default(), Some(true));
}

#[test]
fn two_default_brands_conflict_loser_errored_without_touching_the_gateway() {
    let first = brand("weebo-first", 100, true);
    let second = brand("weebo-second", 200, true);
    let all = vec![brand("weebo-second", 200, true), brand("weebo-first", 100, true)];
    let claimants = list_default_claimants(all.clone(), &second);
    assert_eq!(plan_brand_action(&first, &claimants), BrandAction::BecomeDefault);
    let action = plan_brand_action(&second, &claimants);
    assert_eq!(
        action,
        BrandAction::Conflict {
            winner_name: "weebo-first".to_string(),
            reason: ReasonCode::DefaultBrandConflict,
        }
    );
    assert_eq!(action.sync_as_default(), None);
    match conflict_outcome("weebo-first", ReasonCode::DefaultBrandConflict) {
        ReconcileOutcome::Errored { reason, message } => {
            assert_eq!(reason.as_str(), "DefaultBrandConflict");
            assert_eq!(
                message,
                "another AuthentikBrand (weebo-first) already holds spec.default: true"
            );
        }
        other => panic!("unexpected {other:?}"),
    }
}

#[test]
fn same_second_ties_are_broken_by_name() {
    let a = brand("alpha", 100, true);
    let b = brand("beta", 100, true);
    let claimants = vec![b.clone(), a.clone()];
    assert_eq!(plan_brand_action(&a, &claimants), BrandAction::BecomeDefault);
    assert!(matches!(plan_brand_action(&b, &claimants), BrandAction::Conflict { .. }));
}

#[test]
fn a_brand_not_claiming_default_never_conflicts() {
    let this = brand("plain", 50, false);
    let claimants = list_default_claimants(vec![brand("winner", 1, true), this.clone()], &this);
    assert_eq!(claimants.len(), 1);
    assert_eq!(plan_brand_action(&this, &claimants), BrandAction::NoDefaultClaim);
    assert_eq!(BrandAction::NoDefaultClaim.sync_as_default(), Some(false));
}

#[test]
fn a_fresh_claimant_missing_from_the_list_is_added() {
    let this = brand("fresh", 300, true);
    let claimants = list_default_claimants(vec![brand("old", 10, true), brand("other", 20, false)], &this);
    assert_eq!(
        claimants.iter().map(|c| c.name.as_str()).collect::<Vec<_>>(),
        vec!["old", "fresh"]
    );
    assert!(matches!(plan_brand_action(&this, &claimants), BrandAction::Conflict { .. }));
}

#[test]
fn an_unknown_creation_time_counts_as_zero() {
    let b = to_input("b", None, true);
    assert_eq!(b.creation_timestamp, 0);
    assert_eq!(b.name, "b");
}
