use estate_control::coverage::{
    cite_lines, first_hard_cite, hop_coverage_cites, hop_coverage_subjects, refuse_declared_cites,
    CoverageCite, GateRefusal, HopDeclFacts, HopLeaseFacts, HopSubject,
};

fn cite(fail: bool, line: &str) -> CoverageCite {
    CoverageCite { fail, line: line.into() }
}

#[test]
fn hard_cite_line_is_the_bail_not_a_note() {
    let note = cite(false, "research mount notes: deny");
    let hard = cite(
        true,
        "refuse:tool: research tool notes-append: deny-default (missing edge)",
    );
    let err = refuse_declared_cites(&vec![note, hard]).unwrap_err();
    assert_eq!(
        err,
        "refuse:tool: research tool notes-append: deny-default (missing edge)"
    );
}

#[test]
fn notes_alone_do_not_fail_and_the_first_hard_cite_wins() {
    let notes = vec![cite(false, "a: deny"), cite(false, "b: deny-default")];
    assert!(refuse_declared_cites(&notes).is_ok());
    assert_eq!(first_hard_cite(&notes), None);
    let two = vec![cite(false, "a"), cite(true, "first"), cite(true, "second")];
    assert_eq!(first_hard_cite(&two), Some("first".to_string()));
    assert_eq!(
        cite_lines(&two),
        vec!["  note  a".to_string(), "  FAIL  first".to_string(), "  FAIL  second".to_string()]
    );
}

fn lease(hop: &str, cloud: bool, granted: bool, agents: &[&str], cap: &str) -> HopLeaseFacts {
    HopLeaseFacts {
        hop_id: hop.into(),
        cloud,
        granted,
        agents: agents.iter().map(|a| a.to_string()).collect(),
        capability: cap.into(),
    }
}

fn decl(id: &str, cloud: bool, agents: &[&str], cap: &str) -> HopDeclFacts {
    HopDeclFacts {
        id: id.into(),
        cloud,
        agents: agents.iter().map(|a| a.to_string()).collect(),
        capability: cap.into(),
    }
}

fn subject(h: &str, a: &str, c: &str) -> HopSubject {
    HopSubject { hop_id: h.into(), agent: a.into(), capability: c.into() }
}

#[test]
fn doctor_cites_a_hop_declaration_when_no_lease_is_present() {
    let subjects = hop_coverage_subjects(
        &vec![],
        &vec![decl("cell-one-box", false, &["research"], "notes-append")],
    );
    assert_eq!(subjects, vec![subject("cell-one-box", "research", "notes-append")]);
}

#[test]
fn doctor_does_not_cite_a_cloud_kind_variant_as_hop_coverage() {
    let subjects = hop_coverage_subjects(
        &vec![lease("cell-one-box", true, true, &["research"], "notes-append")],
        &vec![decl("other", true, &["research"], "notes-append")],
    );
    assert!(subjects.is_empty());
}

#[test]
fn leased_hops_are_asked_once_and_declarations_under_a_lease_are_skipped() {
    let subjects = hop_coverage_subjects(
        &vec![
            lease("box", false, true, &["research", "research"], "lane-tool"),
            lease("ungranted", false, false, &["research"], "lane-tool"),
            lease("box", false, true, &["horizon"], "lane-tool"),
        ],
        &vec![
            decl("box", false, &["other"], "x"),
            decl("free", false, &["research"], "notes"),
            decl("empty", false, &[], "notes"),
        ],
    );
    assert_eq!(
        subjects,
        vec![
            subject("box", "research", "lane-tool"),
            subject("box", "horizon", "lane-tool"),
            subject("free", "research", "notes"),
        ]
    );
}

#[test]
fn doctor_cites_hop_coverage_mismatch_and_stays_quiet_on_a_match() {
    let gates = vec![
        Some(GateRefusal {
            word: "mismatch".into(),
            line: "research cell-one-box: capability 'notes-append' does not match hop coverage capability 'lane-tool'".into(),
        }),
        None,
        Some(GateRefusal { word: "deny-default".into(), line: "research x".into() }),
        Some(GateRefusal { word: "deny".into(), line: "research y".into() }),
    ];
    let cites = hop_coverage_cites(&gates);
    assert_eq!(cites.len(), 3);
    assert!(cites[0].fail);
    assert_eq!(
        cites[0].line,
        "refuse:hop-coverage: research cell-one-box: capability 'notes-append' does not match hop coverage capability 'lane-tool' (mismatch)"
    );
    assert!(!cites[1].fail);
    assert_eq!(cites[1].line, "refuse:hop-coverage: research x (deny-default)");
    assert!(!cites[2].fail);
    assert!(cites[2].line.ends_with("(deny)"));
}
