use estate_control::ci::HostedCiStatus;
use estate_control::doctor::{
    open_proposals_line, status_doctor_line, status_lease_line,
    doctor_enrich_join_lines, doctor_health, doctor_summary_line, expire_step, expired_listing,
    format_train_prepare_line, hosted_ci_fails, required_file_fails, status_enrich_join_lines,
    unreadable_cell_catalog, EnrichJoinFact, ExpireStep, LeaseFacts, PlacementsRead, SummaryFacts,
    TrainPrepareFact, DOCTOR_REQUIRED_COUNT,
};

fn all_present() -> Vec<bool> {
    vec![true; DOCTOR_REQUIRED_COUNT]
}

fn healthy() -> SummaryFacts {
    SummaryFacts {
        required_present: all_present(),
        hosted: HostedCiStatus::CompileOnly,
        placements: PlacementsRead::Absent,
        sku_catalogs: 0,
        cell_binding_problem: false,
        facts_unreadable: false,
    }
}

fn lease(id: &str, kind: &str, spawned: bool, expires_at: Option<u64>) -> LeaseFacts {
    LeaseFacts { placement_id: id.into(), kind: kind.into(), spawned, expires_at }
}

#[test]
fn summary_is_ok_only_with_nothing_failing() {
    assert_eq!(doctor_summary_line(&healthy()), "ok (compile-only CI; schemas present)");
    let mut f = healthy();
    f.required_present[0] = false;
    f.hosted = HostedCiStatus::Extra(vec!["a.yml".into(), "b.yml".into()]);
    f.placements = PlacementsRead::Leases(vec![lease("c", "cloud-agent", true, None)]);
    f.sku_catalogs = 1;
    f.facts_unreadable = true;
    assert_eq!(doctor_summary_line(&f), "FAIL (6)");
    let mut g = healthy();
    g.placements = PlacementsRead::Unreadable;
    g.cell_binding_problem = true;
    assert_eq!(doctor_summary_line(&g), "FAIL (2)");
    let mut h = healthy();
    h.required_present = vec![];
    assert_eq!(doctor_summary_line(&h), format!("FAIL ({DOCTOR_REQUIRED_COUNT})"));
}

#[test]
fn schema_and_ci_failures_are_listed() {
    let mut present = all_present();
    present[22] = false;
    assert_eq!(required_file_fails(&present), vec!["missing CHANGELOG.md".to_string()]);
    assert!(required_file_fails(&all_present()).is_empty());
    assert_eq!(
        hosted_ci_fails(&HostedCiStatus::Missing),
        vec!["missing compile-only ci.yml".to_string()]
    );
    assert_eq!(
        hosted_ci_fails(&HostedCiStatus::Extra(vec!["x.yml".into()])),
        vec!["extra workflow: x.yml".to_string()]
    );
    assert!(hosted_ci_fails(&HostedCiStatus::CompileOnly).is_empty());
}

#[test]
fn hop_mismatch_still_fails_doctor_and_writes_nothing() {
    let fails = vec!["refuse:hop-coverage: x (mismatch)".to_string()];
    assert_eq!(doctor_health(&fails).unwrap_err(), "doctor failed (1 check(s))");
    assert!(doctor_health(&vec![]).is_ok());
}

#[test]
fn expire_refuses_a_spawned_cloud_agent_before_listing() {
    assert_eq!(expire_step(&vec![], true), ExpireStep::NothingExpired);
    let expired = vec![
        lease("box-a", "box", false, Some(10)),
        lease("cloud-a", "cloud-agent", true, None),
        lease("cloud-b", "cloud-agent", true, Some(5)),
    ];
    assert_eq!(
        expire_step(&expired, true),
        ExpireStep::Refuse(
            "refuse:cloud-spawned: cloud-agent lease spawned (fail closed): cloud-a, cloud-b".into()
        )
    );
    let fine = vec![lease("box-a", "box", false, Some(10)), lease("c", "cloud-agent", false, None)];
    assert_eq!(
        expire_step(&fine, false),
        ExpireStep::Listed {
            lines: vec![
                "expired leases (2)".to_string(),
                "  refuse:expired: box-a kind=box expires_at=10".to_string(),
                "  refuse:expired: c kind=cloud-agent expires_at=-".to_string(),
            ],
            forget: false,
        }
    );
    assert_eq!(
        expired_listing("expired hop leases", &vec![]),
        vec!["expired hop leases (0)".to_string()]
    );
}

#[test]
fn cell_catalog_refusal_names_the_error() {
    assert_eq!(
        unreadable_cell_catalog("bad json"),
        "refuse:frontier-model: cell catalog unreadable (bad json); schema card is not the binding"
    );
}

#[test]
fn train_prepare_line_lists_optional_parts_only_when_present() {
    let mut f = TrainPrepareFact {
        pack_id: "p1".into(),
        driver: "unsloth".into(),
        job: "enrich".into(),
        seat_tag: None,
        train_base: Some("qwen".into()),
        trained_shape: None,
        out_dir: ".cell/enrich/p1".into(),
    };
    assert_eq!(
        format_train_prepare_line(&f),
        "train_prepare: pack=p1 driver=unsloth job=enrich train_base=qwen out=.cell/enrich/p1"
    );
    f.seat_tag = Some("t".into());
    f.trained_shape = Some("lora".into());
    assert_eq!(
        format_train_prepare_line(&f),
        "train_prepare: pack=p1 driver=unsloth job=enrich seat_tag=t train_base=qwen trained_shape=lora out=.cell/enrich/p1"
    );
}

fn fact(tag: &str, kind: &str) -> EnrichJoinFact {
    EnrichJoinFact { local_tag: tag.into(), pack_id: "p".into(), driver: "d".into(), kind: kind.into() }
}

#[test]
fn enrich_join_lines_bind_propose_or_prepare() {
    let facts = vec![fact("t1", "prepare"), fact("t2", "proposal"), fact("t3", "prepare")];
    assert_eq!(
        doctor_enrich_join_lines(Some("t1"), &facts),
        vec![
            "  ok    local_slm model=t1 pack=p driver=d".to_string(),
            "  note  binding proposal pack=p driver=d tag=t2 estate local_slm model=t1".to_string(),
            "  note  prepare pack=p driver=d tag=t3 estate local_slm model=t1 (no binding proposal)".to_string(),
        ]
    );
    assert_eq!(
        doctor_enrich_join_lines(None, &vec![]),
        vec!["  note  enrich directory is empty".to_string()]
    );
    assert_eq!(
        status_enrich_join_lines(None, &vec![fact("t2", "proposal")]),
        vec!["enrich_binding: pending kind=proposal pack=p driver=d tag=t2 estate_model=-".to_string()]
    );
}

#[test]
fn status_lines_count_leases_and_proposals() {
    assert_eq!(status_lease_line(None), "leases: 0 (box=0 cloud-agent=0 spawned=0)");
    let leases = vec![
        lease("a", "box", true, None),
        lease("b", "cloud-agent", false, None),
        lease("c", "box", false, None),
    ];
    assert_eq!(status_lease_line(Some(&leases)), "leases: 3 (box=2 cloud-agent=1 spawned=1)");
    assert_eq!(status_doctor_line("ok (compile-only CI; schemas present)", true), "FAIL (1)");
    assert_eq!(status_doctor_line("FAIL (3)", true), "FAIL (3)");
    assert_eq!(
        status_doctor_line("ok (compile-only CI; schemas present)", false),
        "ok (compile-only CI; schemas present)"
    );
    assert_eq!(open_proposals_line(&vec![]), "open_proposals: 0 (-)");
    assert_eq!(
        open_proposals_line(&vec!["p1".into(), "p2".into()]),
        "open_proposals: 2 (p1,p2)"
    );
}
