use estate_control::audit::{honesty_text, render_audit_manifest, AuditSummary};
use estate_control::enrich::{
    endpoint_env_name, prepare_targets, refuse_catalog_probes, resolve_prepare_job,
    seated_endpoint_value, JobChoice, ProbeFacts,
};
use estate_control::help::{help_page, HelpPage};
use estate_control::paths::{has_extension, join_path, looks_plan_json};
use estate_control::plan_review::{plan_pr_risks, RiskFacts};
use estate_control::state_files::{chrono_stamp, snapshot_state_files};
use estate_control::suggest::{render_suggest, ReconcileSummary, RefuseLine};

#[test]
fn plan_json_is_read_by_extension() {
    assert!(looks_plan_json("plans/p.json"));
    assert!(looks_plan_json("plans/P.JSON"));
    assert!(looks_plan_json("p.Json/"));
    assert!(!looks_plan_json("estate.yaml"));
    assert!(!looks_plan_json(".json"));
    assert!(!looks_plan_json("dir/.json"));
    assert!(!looks_plan_json("a.json/.."));
    assert!(!looks_plan_json(""));
    assert!(!looks_plan_json("json"));
    assert!(has_extension("src/lib.rs", "rs"));
    assert!(!has_extension("src/lib.RS", "rs"));
    assert_eq!(join_path("a", "b"), "a/b");
    assert_eq!(join_path("a/", "b"), "a/b");
    assert_eq!(join_path("a", "/b"), "/b");
}

#[test]
fn state_snapshot_lists_present_files_with_sizes() {
    let mut sizes = vec![None; 14];
    sizes[0] = Some(12);
    sizes[13] = Some(0);
    assert_eq!(
        snapshot_state_files(&sizes),
        vec!["placement-actual.json:12".to_string(), "conveyor-leases.json:0".to_string()]
    );
    assert!(snapshot_state_files(&vec![]).is_empty());
    assert_eq!(chrono_stamp(1700000000), "unix:1700000000");
}

#[test]
fn suggest_is_a_patch_note_that_applies_nothing() {
    let synced = ReconcileSummary { in_sync: true, desired_hash: "h1".into(), refuses: vec![] };
    let text = render_suggest(&synced);
    assert!(text.starts_with("Reconcile suggest (patch file only)\n"));
    assert!(text.contains("schema: cell-one.reconcile-suggest.v0\n"));
    assert!(text.contains("in_sync: true\n"));
    assert!(text.ends_with("No patch. Desired and actual match. Cloud-agent stays unspawned.\n"));
    let drift = ReconcileSummary {
        in_sync: false,
        desired_hash: "h2".into(),
        refuses: vec![
            RefuseLine { code: "expired".into(), subject: "box-a".into() },
            RefuseLine { code: "odd".into(), subject: "x".into() },
        ],
    };
    let text = render_suggest(&drift);
    assert!(text.contains("  refuse:expired: box-a — run `estate expire --forget`, then apply/resume\n"));
    assert!(text.contains("  refuse:odd: x — odd\n"));
    assert!(text.ends_with("\nNot applied. No estate rewrite. No lease rewrite.\n"));
    let bare = ReconcileSummary { in_sync: false, desired_hash: "h".into(), refuses: vec![] };
    assert!(render_suggest(&bare).contains("Drift without a refuse code."));
}

#[test]
fn prepare_jobs_and_targets() {
    assert_eq!(resolve_prepare_job(Some("d"), false, Some("  sft ")), JobChoice::Given("sft".into()));
    assert_eq!(resolve_prepare_job(Some("d"), false, Some("  ")), JobChoice::DriverDefault);
    assert_eq!(resolve_prepare_job(None, false, None), JobChoice::Enrich);
    assert_eq!(resolve_prepare_job(Some("d"), true, None), JobChoice::Enrich);
    let all = prepare_targets(None, true, Some("out"), &vec!["a".into(), "b".into()], "z").unwrap();
    assert_eq!(all.len(), 2);
    assert_eq!(all[1].driver, "b");
    assert_eq!(all[1].out.as_deref(), Some("out/b"));
    assert_eq!(
        prepare_targets(None, true, None, &vec![], "z").unwrap_err(),
        "refuse:driver: no train/enrich drivers to prepare"
    );
    let one = prepare_targets(None, false, None, &vec![], "z").unwrap();
    assert_eq!(one[0].driver, "z");
    assert!(one[0].out.is_none());
}

#[test]
fn seated_endpoint_comes_from_a_non_blank_variable() {
    assert_eq!(endpoint_env_name(Some(" MY_ENDPOINT ")), "MY_ENDPOINT");
    assert_eq!(endpoint_env_name(Some("  ")), "CELL_LOCAL_ENDPOINT");
    assert_eq!(endpoint_env_name(None), "CELL_LOCAL_ENDPOINT");
    assert_eq!(seated_endpoint_value("E", Some(" http://x ")), Ok("http://x".to_string()));
    assert_eq!(
        seated_endpoint_value("E", Some(" ")).unwrap_err(),
        "refuse:local-tag: E is unset; --verify-local-tag needs the seated endpoint"
    );
}

fn probe(driver: &str, host: &str, sku: bool, known: bool) -> ProbeFacts {
    ProbeFacts { driver: driver.into(), host_class: host.into(), driver_has_sku: sku, host_class_known: known }
}

#[test]
fn refuse_catalog_probes_checks_all_before_any_print() {
    assert!(refuse_catalog_probes(&vec![probe("ollama", "any", false, true)]).is_ok());
    let mixed = vec![probe("ollama", "any", false, true), probe("not-a-host", "not-a-host", false, false)];
    let text = refuse_catalog_probes(&mixed).unwrap_err();
    assert!(text.contains("refuse:bad-host-class"), "{text}");
    let sku = vec![probe("rtx5090", "any", true, true)];
    assert_eq!(
        refuse_catalog_probes(&sku).unwrap_err(),
        "refuse:sku-banned: probe id 'rtx5090' encodes a hardware SKU"
    );
}

#[test]
fn help_topics_and_aliases() {
    assert_eq!(help_page(None), Ok(HelpPage::Index));
    assert_eq!(help_page(Some("  ")), Ok(HelpPage::Index));
    assert_eq!(help_page(Some(" feed ")), Ok(HelpPage::FeedLoop));
    assert_eq!(help_page(Some("charter")), Ok(HelpPage::NorthStar));
    assert_eq!(help_page(Some("train")), Ok(HelpPage::Enrich));
    assert_eq!(help_page(Some(" nope ")).unwrap_err(), "refuse:help-topic: unknown 'nope'");
}

#[test]
fn plan_pr_risks_in_order() {
    let f = RiskFacts {
        cloud_agent_placement: true,
        sacred_exclusions: vec!["cyera-ci".into(), "rust-classroom".into()],
        overlays: vec![],
        covering_reviewable: None,
        reviewed: false,
        expired: vec!["box-a".into()],
    };
    assert_eq!(
        plan_pr_risks(&f),
        vec![
            "cloud-agent: declared, not spawned".to_string(),
            "sacred exclusions on estate: cyera-ci, rust-classroom".to_string(),
            "no covering plan on disk; gated apply will refuse".to_string(),
            "plan is not marked reviewed".to_string(),
            "expired placement leases: box-a".to_string(),
        ]
    );
    let clean = RiskFacts {
        cloud_agent_placement: false,
        sacred_exclusions: vec![],
        overlays: vec![],
        covering_reviewable: Some(true),
        reviewed: true,
        expired: vec![],
    };
    assert!(plan_pr_risks(&clean).is_empty());
}

#[test]
fn audit_manifest_lists_copied_and_missing() {
    let a = AuditSummary {
        estate_name: "cell-one".into(),
        estate_file: "examples/estate.yaml".into(),
        estate_hash: "sha256:x".into(),
        in_sync: true,
        refuses: 0,
        copied: vec![".cell/lifecycle.json".into()],
        missing: vec![],
    };
    let m = render_audit_manifest(&a);
    assert!(m.starts_with("Cell One audit export (local only)\n"));
    assert!(m.contains("honesty: honesty.md\n\n"));
    assert!(m.contains("Copied\n------\n  .cell/lifecycle.json\n"));
    assert!(m.ends_with("----------------------------\n(none)\n"));
    assert_eq!(honesty_text("Agents", "cites\n", Some("Authority")), "Agents\ncites\nAuthority\n");
    assert_eq!(honesty_text("Agents", "", None), "Agents\n");
}
