use estate_control::convey::{
    hop_coverage_refusal, intention_refusal, missing_estate_refusal, proxy_note, proxy_stamp,
};

#[test]
fn missing_estate_refuses_convey_coverage() {
    let r = missing_estate_refusal("/tmp/cell-missing-estate.yaml", false);
    assert!(r.message.contains("refuse:hop-coverage"));
    assert!(r.message.contains("estate missing"));
    assert!(r.message.contains("coverage is mandatory"));
    assert_eq!(r.audit_line, "estate missing");
}

#[test]
fn non_file_estate_refuses_convey_coverage() {
    let r = missing_estate_refusal("/tmp/cell-estate-dir", true);
    assert_eq!(
        r.message,
        "refuse:hop-coverage: estate not a file: /tmp/cell-estate-dir (coverage is mandatory; not a grant)"
    );
    assert_eq!(r.audit_line, "estate not a file");
}

#[test]
fn capability_mismatch_keeps_mismatch_in_the_message() {
    let r = hop_coverage_refusal("capability 'notes-append' does not match", "mismatch");
    assert_eq!(
        r.message,
        "refuse:hop-coverage: capability 'notes-append' does not match (mismatch)"
    );
    assert_eq!(r.audit_line, "capability 'notes-append' does not match (mismatch)");
    assert_eq!(
        intention_refusal("research -> horizon", "deny-default"),
        "refuse:intention: research -> horizon (deny-default)"
    );
}

#[test]
fn proxy_rows_are_stamped_by_what_refused() {
    let agent = proxy_stamp(true);
    assert_eq!(agent.feed_kind, "proxy.agent");
    assert_eq!(agent.object_class, "agent");
    let hop = proxy_stamp(false);
    assert_eq!(hop.feed_kind, "proxy.hop");
    assert_eq!(hop.object_class, "proxy");
    assert_eq!(proxy_note("cell-one-box", "lane-tool", "x (deny)"), "hop=cell-one-box capability=lane-tool x (deny)");
}
