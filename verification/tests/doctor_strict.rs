use estate_control::ci::{
    check_day90_plus, check_estate_hash_lock, check_gate90_alias, ci_yml_problem, compile_only_ci,
    floor_needle_hits, hosted_ci_status, strict_verdict, strip_hash_comments, HostedCiStatus,
    HASH_LOCK,
};
use estate_control::strict::{
    dual_layer_demo_problem, locked_sacred_problem, refuse_fixture_fails, scan_needles,
    BindingClass, DemoAgent, DemoFacts, LockedId, SourceFile,
};

#[test]
fn compile_only_accepts_current_ci_shape() {
    let yml = r#"
# Compile-only. Real cargo test stays local (`make smoke`).
# Do not add cargo test or push-to-main jobs.
name: check
on:
  pull_request:
    branches: [main]
jobs:
  check:
    steps:
      - run: cargo check --workspace --locked
"#;
    assert!(compile_only_ci(yml).is_ok());
}

#[test]
fn compile_only_refuses_cargo_test_job() {
    let yml = r#"
on:
  pull_request:
jobs:
  check:
    steps:
      - run: cargo check --workspace --locked
      - run: cargo test --workspace
"#;
    let err = compile_only_ci(yml).unwrap_err();
    assert!(err.contains("must not run cargo test"));
}

#[test]
fn compile_only_refuses_push_trigger() {
    let yml = r#"
on:
  push:
  pull_request:
jobs:
  check:
    steps:
      - run: cargo check --workspace --locked
"#;
    let err = compile_only_ci(yml).unwrap_err();
    assert!(err.contains("must not trigger on push"));
}

#[test]
fn hosted_ci_allows_only_compile_only_yml() {
    assert_eq!(hosted_ci_status(&vec![]), HostedCiStatus::Missing);
    assert_eq!(
        hosted_ci_status(&vec!["ci.yml".to_string()]),
        HostedCiStatus::CompileOnly
    );
    match hosted_ci_status(&vec!["ci.yml".to_string(), "extra.yml".to_string()]) {
        HostedCiStatus::Extra(extra) => assert_eq!(extra, vec!["extra.yml".to_string()]),
        other => panic!("{other:?}"),
    }
}

#[test]
fn hosted_ci_ignores_non_workflow_files_and_sorts_extras() {
    let names = vec![
        "zeta.yaml".to_string(),
        "README.md".to_string(),
        "ci.yml".to_string(),
        "alpha.yml".to_string(),
    ];
    match hosted_ci_status(&names) {
        HostedCiStatus::Extra(extra) => {
            assert_eq!(extra, vec!["alpha.yml".to_string(), "zeta.yaml".to_string()])
        }
        other => panic!("{other:?}"),
    }
    assert_eq!(
        hosted_ci_status(&vec!["notes.txt".to_string()]),
        HostedCiStatus::Missing
    );
}

#[test]
fn a_commented_cargo_test_is_not_a_job() {
    let yml = "on:\n  pull_request:\n# cargo test --workspace\njobs:\n  - run: cargo check --workspace --locked\n";
    assert!(compile_only_ci(yml).is_ok());
    assert_eq!(
        compile_only_ci("on:\n  pull_request:\n").unwrap_err(),
        "ci.yml must run cargo check --workspace --locked"
    );
    assert_eq!(
        compile_only_ci("cargo check --workspace --locked\n").unwrap_err(),
        "ci.yml must be pull_request only"
    );
    let stripped = strip_hash_comments("a\n  # b\nc");
    assert_eq!(stripped, "a\nc");
}

#[test]
fn ci_yml_problem_reports_a_missing_file() {
    assert_eq!(
        ci_yml_problem(None),
        Some("missing compile-only ci.yml".to_string())
    );
    assert_eq!(
        ci_yml_problem(Some("on:\n  pull_request:\n  - run: cargo check --workspace --locked\n")),
        None
    );
    assert_eq!(
        ci_yml_problem(Some("on:\n  pull_request:\n")),
        Some("ci.yml must run cargo check --workspace --locked".to_string())
    );
}

#[test]
fn strict_checks_report_their_refusals() {
    assert!(check_gate90_alias("gate-90: scripts/day90-gate.sh", "smoke.sh GATE-90").is_none());
    assert!(check_gate90_alias("", "").is_some());
    assert!(check_estate_hash_lock(&format!("hash: {HASH_LOCK}\n")).is_none());
    assert_eq!(
        check_estate_hash_lock("hash: other"),
        Some(format!("examples/estate.yaml must keep {HASH_LOCK}"))
    );
    assert!(check_day90_plus("", false).is_some());
    assert_eq!(
        strict_verdict(&vec!["a".to_string(), "b".to_string()]),
        Err("doctor --strict failed (2 check(s))".to_string())
    );
    assert_eq!(strict_verdict(&vec![]), Ok(()));
}

#[test]
fn floor_needles_match_case_insensitively() {
    let hits = floor_needle_hits("lib.rs", "// Uses XAI and an RTX 5090\n");
    assert_eq!(
        hits,
        vec!["lib.rs contains xai".to_string(), "lib.rs contains 5090".to_string()]
    );
    let files = vec![
        SourceFile { rel: "a/lib.rs".into(), text: "grok".into() },
        SourceFile { rel: "notes.md".into(), text: "grok".into() },
        SourceFile { rel: "b.rs".into(), text: "clean".into() },
    ];
    assert_eq!(scan_needles(&files), vec!["a/lib.rs contains grok".to_string()]);
}

#[test]
fn refuse_fixtures_and_sacred_locks() {
    let fails = refuse_fixture_fails(&vec![true, false, true, true]);
    assert_eq!(
        fails,
        vec!["missing examples/fixtures/sacred-omit-locked.yaml".to_string()]
    );
    let locked = vec![
        LockedId { id: "Cyera-CI".into(), normalized: "cyera-ci".into() },
        LockedId { id: "rust-classroom".into(), normalized: "rust-classroom".into() },
    ];
    assert_eq!(
        locked_sacred_problem(&vec!["cyera-ci".to_string()], &locked),
        Some("policy/sacred.yaml missing locked rust-classroom".to_string())
    );
    assert_eq!(
        locked_sacred_problem(
            &vec!["rust-classroom".to_string(), "cyera-ci".to_string()],
            &locked
        ),
        None
    );
}

#[test]
fn dual_layer_demo_needs_a_clean_sanctum_and_both_layers() {
    let good = DemoFacts {
        agents: vec![DemoAgent { id: "sanctum".into(), display_sacred: false }],
        exclusions: vec!["cyera-ci".into()],
        locked: vec!["cyera-ci".into()],
        bindings: vec![BindingClass::Frontier, BindingClass::Local],
        sanctum_sacred: false,
    };
    assert_eq!(dual_layer_demo_problem(&good), None);
    let mut no_local = good.clone();
    no_local.bindings = vec![BindingClass::Frontier];
    assert_eq!(
        dual_layer_demo_problem(&no_local),
        Some(
            "examples/fixtures/dual-layer-demo.yaml must keep Sanctum first-class and declare locked exclusions"
                .to_string()
        )
    );
    let mut sacred_display = good.clone();
    sacred_display.agents[0].display_sacred = true;
    assert!(dual_layer_demo_problem(&sacred_display).is_some());
}
