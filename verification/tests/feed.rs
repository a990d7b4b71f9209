use estate_control::feed::{feed_import_check, RedactionRead};

#[test]
fn import_must_not_rewrite_the_estate_and_must_count_redactions() {
    let counts = RedactionRead::Counts { redacted: Some(3), raw_secrets_found: Some(0) };
    assert_eq!(feed_import_check("name: keep\n", "name: keep\n", "r.json", &counts), Ok((3, 0)));
    assert_eq!(
        feed_import_check("name: keep\n", "name: other\n", "r.json", &counts).unwrap_err(),
        "import must not rewrite the estate file"
    );
    assert_eq!(
        feed_import_check("x", "x", "acc/p.redaction.json", &RedactionRead::Absent).unwrap_err(),
        "import wrote no redaction report at acc/p.redaction.json"
    );
    let no_raw = RedactionRead::Counts { redacted: Some(1), raw_secrets_found: None };
    assert_eq!(
        feed_import_check("x", "x", "r.json", &no_raw).unwrap_err(),
        "redaction r.json missing raw_secrets_found"
    );
    let no_count = RedactionRead::Counts { redacted: None, raw_secrets_found: Some(1) };
    assert_eq!(
        feed_import_check("x", "x", "r.json", &no_count).unwrap_err(),
        "redaction r.json missing redacted count"
    );
}
