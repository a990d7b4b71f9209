use estate_control::apply_gate::{
    apply_identity_step, apply_plan_gate, dry_run_refusals, dry_run_verdict, ApplyIdentity,
    ApplyStep, DryRunVerdict, PlanFacts,
};

fn plan(reviewable: bool, fresh: bool, fresh_strict: bool) -> PlanFacts {
    PlanFacts { reviewable, fresh, fresh_strict }
}

#[test]
fn ungated_apply_passes_without_a_plan() {
    assert_eq!(apply_plan_gate(false, false, "h", None, None), Ok(true));
    assert_eq!(apply_plan_gate(false, false, "h", Some(plan(false, false, false)), None), Ok(false));
}

#[test]
fn gated_apply_needs_a_reviewable_fresh_plan() {
    assert_eq!(
        apply_plan_gate(true, false, "abc", None, None).unwrap_err(),
        "apply gated: no plan on disk for abc; run estate plan first"
    );
    assert_eq!(
        apply_plan_gate(true, false, "abc", Some(plan(false, true, true)), None).unwrap_err(),
        "apply gated: covering plan is not reviewable (need schema cell-one.plan.v0 + blast radius)"
    );
    assert_eq!(apply_plan_gate(true, false, "abc", Some(plan(true, false, false)), None), Ok(false));
    assert_eq!(
        apply_plan_gate(false, true, "abc", Some(plan(true, true, false)), Some("old")).unwrap_err(),
        "apply gated: covering plan is stale; against_hash does not match last apply old (greenfield after apply is refuse)"
    );
    assert_eq!(
        apply_plan_gate(false, true, "abc", Some(plan(true, true, false)), None).unwrap_err(),
        "apply gated: covering plan is stale; against_hash does not match last apply - (greenfield after apply is refuse)"
    );
    assert_eq!(apply_plan_gate(false, true, "abc", Some(plan(true, false, true)), None), Ok(true));
}

#[test]
fn unchanged_and_drift_need_force_unless_importing() {
    assert_eq!(apply_identity_step(&ApplyIdentity::Unchanged, false, false), ApplyStep::Unchanged);
    assert_eq!(
        apply_identity_step(&ApplyIdentity::Drift(vec!["x".into()]), false, false),
        ApplyStep::RefuseDrift("refuse:drift: pass --force to reconverge (clear reason required)".into())
    );
    assert_eq!(
        apply_identity_step(&ApplyIdentity::Drift(vec![]), false, true),
        ApplyStep::Proceed { forced: true, note: None }
    );
    assert_eq!(
        apply_identity_step(&ApplyIdentity::Unchanged, true, false),
        ApplyStep::Proceed { forced: false, note: None }
    );
    assert_eq!(
        apply_identity_step(&ApplyIdentity::LeaseRefresh(vec!["a".into(), "b".into()]), false, true),
        ApplyStep::Proceed {
            forced: false,
            note: Some("apply lease-refresh (forgot expired; restamping a, b)".into())
        }
    );
    assert_eq!(
        apply_identity_step(&ApplyIdentity::Changed, false, false),
        ApplyStep::Proceed { forced: false, note: None }
    );
}

#[test]
fn dry_run_collects_every_refusal_in_order() {
    let lines = dry_run_refusals(
        &ApplyIdentity::Drift(vec!["a moved".into(), "b gone".into()]),
        false,
        true,
        true,
        "hh",
        None,
        Some("refuse:staged: held"),
    );
    assert_eq!(
        lines,
        vec![
            "refuse:drift: identical desired hash but actual drifted (a moved; b gone)".to_string(),
            "refuse:no-plan: no covering plan for hh; run estate plan first".to_string(),
            "refuse:staged: held".to_string(),
        ]
    );
    let lines = dry_run_refusals(
        &ApplyIdentity::Changed,
        false,
        false,
        true,
        "hh",
        Some(plan(false, true, false)),
        None,
    );
    assert_eq!(
        lines,
        vec![
            "refuse:plan: covering plan is not reviewable".to_string(),
            "refuse:stale-plan: covering plan is stale".to_string(),
        ]
    );
    assert!(dry_run_refusals(&ApplyIdentity::Changed, false, false, false, "h", None, None).is_empty());
}

#[test]
fn dry_run_verdicts() {
    assert_eq!(
        dry_run_verdict(&vec!["x".into()], false, &ApplyIdentity::Changed, false),
        DryRunVerdict::WouldRefuse
    );
    assert_eq!(dry_run_verdict(&vec![], true, &ApplyIdentity::Changed, false), DryRunVerdict::WouldRefuse);
    assert_eq!(dry_run_verdict(&vec![], false, &ApplyIdentity::Unchanged, false), DryRunVerdict::Unchanged);
    assert_eq!(dry_run_verdict(&vec![], false, &ApplyIdentity::Unchanged, true), DryRunVerdict::Clear);
}

#[test]
fn a_dry_run_reports_what_the_plan_gate_refuses() {
    let cases = [
        (true, false, None),
        (true, false, Some(plan(false, true, true))),
        (false, true, Some(plan(true, true, false))),
    ];
    for (require_plan, require_fresh, covering) in cases {
        assert!(apply_plan_gate(require_plan, require_fresh, "h", covering, None).is_err());
        let lines = dry_run_refusals(
            &ApplyIdentity::Changed,
            false,
            require_plan,
            require_fresh,
            "h",
            covering,
            None,
        );
        assert!(!lines.is_empty());
    }
}
