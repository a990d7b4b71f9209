use estate_control::decisions::{
    complete_driver_outcome, DriverRefusal,
    binding_digest, build_receipt, check_receipt, cite_line, journal_path, next_seq,
    outcome_stub_from_text, prepare_candidates, receipt_id, render_report, resolve_selection,
    revalidate, select, select_hint_from_fields, stage_name, BindingFacts, JsonField, Prepared,
    SelectHint,
};

fn seat(id: &str, digest: &str, listed: bool, allowed: bool) -> BindingFacts {
    BindingFacts {
        id: id.into(),
        digest: digest.into(),
        wired: true,
        agent_has_model: listed,
        allowed,
    }
}

/// The example estate for `research`: `local_slm` listed, `xai_grok` not.
fn research(allow_local: bool) -> Vec<BindingFacts> {
    vec![
        seat("xai_grok", "d-grok", false, false),
        seat("local_slm", "d-local", true, allow_local),
    ]
}

#[test]
fn unnamed_call_abstains_without_ranking_bindings() {
    let prepared = prepare_candidates(false, &research(true));
    assert!(prepared.is_empty());
    let (result, digest) = select(&prepared, None);
    assert_eq!(result, "abstain");
    assert!(digest.is_none());
    let (validation, fallback) = revalidate(&prepared, &result, None, false);
    assert_eq!(validation, "ok");
    assert!(fallback.is_none());
    assert_eq!(stage_name(&result, &validation), "select");
}

#[test]
fn one_eligible_seat_is_selected_and_revalidated() {
    let prepared = prepare_candidates(true, &research(true));
    assert_eq!(prepared.len(), 1);
    assert_eq!(prepared[0].id, "local_slm");
    let (result, digest) = select(&prepared, None);
    assert_eq!(result, "local_slm");
    let (validation, fallback) = revalidate(&prepared, &result, digest.as_deref(), false);
    assert_eq!(validation, "ok");
    assert!(fallback.is_none());
    assert_eq!(stage_name(&result, &validation), "validate");
    let selection = resolve_selection(&prepared, None, false);
    assert_eq!(selection.result, "local_slm");
    assert_eq!(selection.validation, "ok");
    assert!(selection.fallback.is_none());
    assert_eq!(selection.stage, "validate");
}

#[test]
fn equal_class_frontier_and_local_abstain() {
    let bindings = vec![
        seat("xai_grok", "d-grok", true, true),
        seat("local_slm", "d-local", true, true),
    ];
    let prepared = prepare_candidates(true, &bindings);
    assert_eq!(prepared.len(), 2);
    let (result, _) = select(&prepared, None);
    assert_eq!(result, "abstain");
    let (validation, fallback) = revalidate(&prepared, &result, None, false);
    assert_eq!(validation, "ok");
    assert!(fallback.is_none());
}

#[test]
fn ineligible_hint_records_the_one_eligible_fallback_and_does_not_grant() {
    let prepared = prepare_candidates(true, &research(true));
    let hint = SelectHint {
        select: Some("xai_grok".into()),
        digest: None,
    };
    let (result, digest) = select(&prepared, Some(&hint));
    assert_eq!(result, "xai_grok");
    let (validation, fallback) = revalidate(&prepared, &result, digest.as_deref(), false);
    assert_eq!(validation, "ineligible");
    assert_eq!(fallback.as_deref(), Some("local_slm"));
    assert_eq!(stage_name(&result, &validation), "fallback");
    assert_eq!(
        outcome_stub_from_text("refuse:no-lease: no hop lease for 'ttl-hop'"),
        "refuse:no-lease"
    );
}

#[test]
fn stale_digest_records_fallback_and_expiry_wins() {
    let prepared = prepare_candidates(true, &research(true));
    let hint = SelectHint {
        select: Some("local_slm".into()),
        digest: Some("0".into()),
    };
    let (result, digest) = select(&prepared, Some(&hint));
    let (validation, fallback) = revalidate(&prepared, &result, digest.as_deref(), false);
    assert_eq!(validation, "stale");
    assert_eq!(fallback.as_deref(), Some("local_slm"));
    let (expired, no_fallback) = revalidate(&prepared, &result, digest.as_deref(), true);
    assert_eq!(expired, "expired");
    assert!(no_fallback.is_none());
    assert_eq!(stage_name(&result, &expired), "validate");
}

#[test]
fn param_drift_changes_the_digest_and_marks_the_hint_stale() {
    let params = r#"{"model":"qwen","path":"/models/qwen"}"#;
    let with_params = binding_digest("local_slm", "local", "ollama", params);
    assert_ne!(with_params, binding_digest("local_slm", "local", "ollama", ""));
    assert_eq!(with_params.len(), 64);
    assert_eq!(binding_digest("local_slm", "local", "ollama", params), with_params);

    let bindings = vec![seat("local_slm", &with_params, true, true)];
    let prepared = prepare_candidates(true, &bindings);
    let hint = SelectHint {
        select: Some("local_slm".into()),
        digest: Some(with_params.clone()),
    };
    let (result, digest) = select(&prepared, Some(&hint));
    let (validation, fallback) = revalidate(&prepared, &result, digest.as_deref(), false);
    assert_eq!(result, "local_slm");
    assert_eq!(validation, "ok");
    assert!(fallback.is_none());

    let drifted_params = r#"{"model":"drifted-model","path":"/tmp/drifted"}"#;
    let drifted = binding_digest("local_slm", "local", "ollama", drifted_params);
    assert_ne!(drifted, with_params);
    let bindings = vec![seat("local_slm", &drifted, true, true)];
    let prepared = prepare_candidates(true, &bindings);
    let (result, digest) = select(&prepared, Some(&hint));
    let (validation, fallback) = revalidate(&prepared, &result, digest.as_deref(), false);
    assert_eq!(result, "local_slm");
    assert_eq!(validation, "stale");
    assert_eq!(fallback.as_deref(), Some("local_slm"));
    assert_eq!(stage_name(&result, &validation), "fallback");
}

#[test]
fn specialty_seat_is_selected_and_equal_class_still_abstains() {
    let scoped = vec![
        seat("xai_grok", "a", true, false),
        seat("local_slm", "b", false, false),
        seat("ag_news", "c", true, true),
        seat("policy_precheck", "d", false, false),
    ];
    let prepared = prepare_candidates(true, &scoped);
    assert_eq!(
        prepared.iter().map(|row| row.id.as_str()).collect::<Vec<_>>(),
        ["ag_news"]
    );
    assert_eq!(select(&prepared, None).0, "ag_news");

    let peers = vec![
        seat("local_slm", "b", true, true),
        seat("ag_news", "c", true, true),
    ];
    let prepared = prepare_candidates(true, &peers);
    assert_eq!(prepared.len(), 2);
    assert_eq!(select(&prepared, None).0, "abstain");
}

#[test]
fn an_unwired_or_unlisted_binding_is_never_a_candidate() {
    let mut unwired = seat("local_slm", "b", true, true);
    unwired.wired = false;
    assert!(prepare_candidates(true, &vec![unwired]).is_empty());
    assert!(prepare_candidates(true, &vec![seat("local_slm", "b", false, true)]).is_empty());
}

#[test]
fn journal_lives_under_decisions() {
    assert_eq!(journal_path(".cell"), ".cell/decisions/receipts.jsonl");
    assert_eq!(journal_path(".cell/"), ".cell/decisions/receipts.jsonl");
}

#[test]
fn next_seq_counts_nonempty_journal_lines() {
    assert_eq!(next_seq(None), 1);
    assert_eq!(next_seq(Some("")), 1);
    assert_eq!(next_seq(Some("{}\n\n{}\n")), 3);
}

#[test]
fn select_hint_fields_are_checked() {
    let hint = select_hint_from_fields(
        &JsonField::Text("cell-one.decision-select.v0".into()),
        &JsonField::Text("local_slm".into()),
        &JsonField::Null,
    )
    .unwrap();
    assert_eq!(hint.select.as_deref(), Some("local_slm"));
    assert!(hint.digest.is_none());
    assert!(select_hint_from_fields(
        &JsonField::Text("other".into()),
        &JsonField::Null,
        &JsonField::Null
    )
    .is_err());
    let err = select_hint_from_fields(
        &JsonField::Text("cell-one.decision-select.v0".into()),
        &JsonField::Null,
        &JsonField::Other,
    )
    .unwrap_err();
    assert_eq!(
        err,
        "refuse:decision-select: digest must be a non-empty string or null"
    );
}

#[test]
fn receipt_ids_depend_on_the_sequence_and_the_material() {
    let a = receipt_id(1, &"hop\ncap".chars().collect());
    let b = receipt_id(2, &"hop\ncap".chars().collect());
    let c = receipt_id(1, &"hop\ncap2".chars().collect());
    assert!(a.starts_with("r-1-"));
    assert_eq!(a.len(), "r-1-".len() + 8);
    assert_ne!(a, c);
    assert!(b.starts_with("r-2-"));
}

#[test]
fn built_receipts_pass_the_check_and_cite() {
    let prepared = vec![Prepared {
        id: "local_slm".into(),
        digest: "d".into(),
    }];
    let r = build_receipt(
        4,
        "model",
        "local_slm",
        Some("research"),
        "authorize",
        "allow",
        &prepared,
        None,
        false,
    )
    .unwrap();
    assert_eq!(r.seq, 4);
    assert_eq!(r.surface, "authorize");
    assert_eq!(r.result, "local_slm");
    assert_eq!(r.validation, "ok");
    assert_eq!(r.stage, "validate");
    assert!(check_receipt(&r).is_ok());
    let line = cite_line(&r);
    assert!(line.contains("local_slm"), "{line}");
    let report = render_report(&vec![r.clone()]);
    assert!(report.contains("validate"), "{report}");
    let mut bad = r.clone();
    bad.outcome = "maybe".into();
    assert!(check_receipt(&bad).is_err());
}

#[test]
fn report_counts_each_checked_receipt_once() {
    let one = vec![Prepared { id: "local_slm".into(), digest: "d".into() }];
    let stale_hint = SelectHint { select: Some("local_slm".into()), digest: Some("0".into()) };
    let a = build_receipt(1, "h", "c", Some("research"), "", "allow", &one, None, false).unwrap();
    let b = build_receipt(2, "h", "c", Some("research"), "", "refuse:no-lease", &one, Some(&stale_hint), false).unwrap();
    let c = build_receipt(3, "h", "c", None, "", "allow", &vec![], None, false).unwrap();
    assert_eq!(b.validation, "stale");
    assert_eq!(b.fallback.as_deref(), Some("local_slm"));
    let report = render_report(&vec![a, b, c]);
    assert_eq!(
        report,
        "decision receipts: 3\nstage prepare=3 select=1 validate=1 fallback=1\nvalidation ok=2 stale=1 ineligible=0 expired=0\nfallback none=2\nfallback local_slm=1\n"
    );
}

#[test]
fn driver_refusals_name_their_outcome() {
    assert_eq!(complete_driver_outcome(&DriverRefusal::MissingEndpoint), "refuse:missing-endpoint");
    assert_eq!(complete_driver_outcome(&DriverRefusal::MissingFrontierKey), "refuse:missing-creds");
    assert_eq!(complete_driver_outcome(&DriverRefusal::NotWired), "refuse:not-wired");
    assert_eq!(
        complete_driver_outcome(&DriverRefusal::Other("refuse:timeout: after 30s".into())),
        "refuse:timeout"
    );
    assert_eq!(
        complete_driver_outcome(&DriverRefusal::Other("connection reset".into())),
        "refuse:other"
    );
}
