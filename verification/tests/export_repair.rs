use estate_control::export_repair::{
    check_catalog, declared_counts, header_len, is_lm_head, is_sidecar, layer_index,
    mtp_layer, mtp_prefixed, plan_repair, preview_repair, refuse_implausible, refuse_tied_lm_head,
    repair_fingerprint, trunk_layer, verify_config_matches_tensors, CatalogEntry, ConfigFacts,
    RepairReport, REPAIR_SHARD,
};
use sha2::Digest;

fn strings(v: &[&str]) -> Vec<String> {
    v.iter().map(|s| s.to_string()).collect()
}

fn no_config() -> ConfigFacts {
    ConfigFacts {
        text_config: false,
        text_layers: None,
        text_mtp: None,
        text_tie: None,
        root_layers: None,
        root_mtp: None,
        root_tie: None,
    }
}

#[test]
fn summary_says_nothing_missing_or_counts() {
    let empty = RepairReport { tensors: vec![], files: vec![] };
    assert_eq!(empty.summary(), "export-repair: nothing missing");
    let some = RepairReport {
        tensors: strings(&["mtp.fc.weight", "mtp.norm.weight"]),
        files: strings(&["tokenizer.json"]),
    };
    assert_eq!(some.summary(), "export-repair: copied 2 tensor(s) and 1 file(s)");
}

#[test]
fn preview_names_missing_tensors_and_sidecars_sorted() {
    let report = preview_repair(
        true,
        &strings(&["mtp.norm.weight", "model.layers.0.w", "mtp.fc.weight"]),
        &strings(&["model.layers.0.w"]),
        &strings(&["tokenizer.json", "config.json", "processor_config.json", "model.safetensors"]),
        &strings(&["config.json"]),
    );
    assert_eq!(report.tensors, strings(&["mtp.fc.weight", "mtp.norm.weight"]));
    assert_eq!(report.files, strings(&["processor_config.json", "tokenizer.json"]));
    let nothing = preview_repair(false, &strings(&["a"]), &vec![], &strings(&["tokenizer.json"]), &vec![]);
    assert!(nothing.tensors.is_empty() && nothing.files.is_empty());
}

#[test]
fn nothing_missing_is_a_noop() {
    let names = strings(&["model.layers.0.input_layernorm.weight"]);
    let report = preview_repair(
        true,
        &names,
        &names,
        &strings(&["tokenizer.json", "config.json"]),
        &strings(&["tokenizer.json", "config.json"]),
    );
    assert_eq!(report.summary(), "export-repair: nothing missing");
    let plan = plan_repair("base", "merged", true, true, &report, &no_config(), 1).unwrap();
    assert!(!plan.write_shard);
    assert!(plan.files.is_empty());
}

#[test]
fn sidecars_and_prefixes() {
    assert!(is_sidecar("tokenizer.json"));
    assert!(is_sidecar("Tokenizer_Config.JSON"));
    assert!(is_sidecar("chat_template.jinja"));
    assert!(!is_sidecar("tokenizer.safetensors"));
    assert!(!is_sidecar("config.json"));
    assert!(!is_sidecar("model.safetensors.index.json"));
    assert!(mtp_prefixed("mtp.fc.weight"));
    assert!(mtp_prefixed("model.language_model.mtp.norm.weight"));
    assert!(!mtp_prefixed("model.layers.0.mtp.weight"));
    assert!(is_lm_head("lm_head.weight"));
    assert!(is_lm_head("model.lm_head_extra.weight"));
    assert!(!is_lm_head("model.embed_tokens.weight"));
}

#[test]
fn layers_are_read_between_markers() {
    assert_eq!(layer_index("model.layers.12.mlp.weight"), Some(12));
    assert_eq!(layer_index("model.layers.12"), None);
    assert_eq!(layer_index("model.layers.x.mlp"), None);
    assert_eq!(layer_index("mtp.layers.0.input_layernorm.weight"), Some(0));
    assert!(trunk_layer("model.language_model.layers.3.w", 3));
    assert!(!trunk_layer("mtp.layers.3.w", 3));
    assert!(mtp_layer("mtp.layers.0.w", 0));
    assert!(mtp_layer("model.mtp.layers.1.w", 1));
    assert!(!mtp_layer("model.layers.0.w", 0));
}

#[test]
fn refuses_a_prefix_mismatch_and_writes_nothing() {
    let missing: Vec<String> = (0..40).map(|i| format!("model.language_model.layers.{i}.weight")).collect();
    let err = refuse_implausible(&missing, 40).unwrap_err();
    assert!(err.contains("not an MTP patch"), "{err}");
    assert!(err.contains("missing 40 tensors"), "{err}");
    assert!(err.contains("model.language_model.layers."), "{err}");
    let report = RepairReport { tensors: missing, files: vec![] };
    let err = plan_repair("b", "m", true, true, &report, &no_config(), 40).unwrap_err();
    assert!(err.contains("not an MTP patch"), "{err}");
}

#[test]
fn an_mtp_gap_is_always_plausible() {
    let missing = strings(&["mtp.fc.weight", "mtp.norm.weight"]);
    assert!(refuse_implausible(&missing, 0).is_ok());
    assert!(refuse_implausible(&vec![], 0).is_ok());
    assert!(refuse_implausible(&strings(&["model.x"]), 100).is_ok());
    assert!(refuse_implausible(&strings(&["model.x"]), 0).is_err());
}

#[test]
fn refuses_a_header_larger_than_100mb() {
    let prefix = 100_000_001u64.to_le_bytes().to_vec();
    let err = header_len(&prefix, "dir/model.safetensors").unwrap_err();
    assert!(err.contains("header is too large"), "{err}");
    assert_eq!(header_len(&100u64.to_le_bytes().to_vec(), "x"), Ok(100));
    assert_eq!(header_len(&100_000_000u64.to_le_bytes().to_vec(), "x"), Ok(100_000_000));
}

fn entry(name: &str, start: u64, end: u64, file_len: u64) -> CatalogEntry {
    CatalogEntry {
        name: name.into(),
        shard: "dir/model.safetensors".into(),
        header_len: 64,
        file_len,
        start,
        end,
    }
}

#[test]
fn refuses_inverted_offsets_and_a_tied_lm_head() {
    let mut tied = no_config();
    tied.root_tie = Some(true);
    let report = RepairReport { tensors: strings(&["lm_head.weight"]), files: vec![] };
    let err = plan_repair("base", "merged", true, true, &report, &tied, 1).unwrap_err();
    assert!(err.contains("tie_word_embeddings"), "{err}");
    assert!(err.contains("lm_head"), "{err}");
    assert!(err.contains("merged/config.json"), "{err}");

    let err = check_catalog("dir", &vec![entry("w", 8, 0, 1000)]).unwrap_err();
    assert!(err.contains("inverted") || err.contains("extends past"), "{err}");
    let err = check_catalog("dir", &vec![entry("w", 0, 8, 10)]).unwrap_err();
    assert!(err.contains("extends past"), "{err}");
    let err = check_catalog("dir", &vec![entry("w", 0, 8, 100), entry("w", 8, 16, 100)]).unwrap_err();
    assert_eq!(err, "refuse:classify-journey: export-repair duplicate tensor w in dir");
    assert!(check_catalog("dir", &vec![entry("w", 0, 8, 80)]).is_ok());
    let err = check_catalog("dir", &vec![entry("w", 0, u64::MAX - 10, u64::MAX)]).unwrap_err();
    assert!(err.contains("offset overflow"), "{err}");
}

#[test]
fn tied_flag_in_text_config_also_refuses() {
    let mut c = no_config();
    c.text_config = true;
    c.text_tie = Some(true);
    let names = strings(&["model.lm_head.weight"]);
    assert!(refuse_tied_lm_head("m/config.json", &names, &c).is_err());
    assert!(refuse_tied_lm_head("m/config.json", &strings(&["mtp.fc.weight"]), &c).is_ok());
    c.text_config = false;
    assert!(refuse_tied_lm_head("m/config.json", &names, &c).is_ok());
}

#[test]
fn missing_directories_are_refused_first() {
    let report = RepairReport { tensors: vec![], files: vec![] };
    assert_eq!(
        plan_repair("b", "m", false, false, &report, &no_config(), 0).unwrap_err(),
        "refuse:classify-journey: export-repair base snapshot b is not a directory"
    );
    assert_eq!(
        plan_repair("b", "m", true, false, &report, &no_config(), 0).unwrap_err(),
        "refuse:classify-journey: export-repair merged dir m is not a directory"
    );
}

#[test]
fn refuses_when_declared_mtp_is_absent_from_both() {
    let mut c = no_config();
    c.text_config = true;
    c.text_layers = Some(1);
    c.text_mtp = Some(1);
    let names = strings(&["model.language_model.layers.0.input_layernorm.weight"]);
    let err = verify_config_matches_tensors("merged", Some(&c), &names).unwrap_err();
    assert!(err.contains("mtp.layers.0"), "{err}");
    let mut with_mtp = names.clone();
    with_mtp.push("mtp.layers.0.input_layernorm.weight".into());
    assert!(verify_config_matches_tensors("merged", Some(&c), &with_mtp).is_ok());
    let err = verify_config_matches_tensors("merged", None, &names).unwrap_err();
    assert_eq!(err, "refuse:classify-journey: export-repair merged has no config.json");
    c.text_layers = Some(2);
    let err = verify_config_matches_tensors("merged", Some(&c), &with_mtp).unwrap_err();
    assert_eq!(
        err,
        "refuse:classify-journey: export-repair cannot repair config num_hidden_layers=2: no tensor for layer 1 in merged"
    );
}

#[test]
fn declared_counts_prefer_text_config() {
    let mut c = no_config();
    c.root_layers = Some(32);
    c.root_mtp = Some(1);
    assert_eq!(declared_counts(&c), (Some(32), Some(1)));
    c.text_config = true;
    c.text_layers = Some(40);
    assert_eq!(declared_counts(&c), (Some(40), Some(1)));
}

#[test]
fn fingerprint_is_the_sha256_of_the_pipeline_and_names() {
    let report = RepairReport {
        tensors: strings(&["mtp.fc.weight"]),
        files: strings(&["tokenizer.json"]),
    };
    let got = repair_fingerprint("pipe", &report);
    let want: String = sha2::Sha256::digest(b"export-repair\npipe\nmtp.fc.weight\ntokenizer.json")
        .iter()
        .map(|b| format!("{b:02x}"))
        .collect();
    assert_eq!(got, want);
    assert_ne!(got, repair_fingerprint("other", &report));
    assert_eq!(REPAIR_SHARD, "model-export-repair.safetensors");
}

#[test]
fn a_second_preview_after_the_repair_finds_nothing() {
    let base = strings(&["model.layers.0.w", "mtp.fc.weight", "mtp.norm.weight"]);
    let merged = strings(&["model.layers.0.w"]);
    let base_files = strings(&["tokenizer.json", "config.json"]);
    let merged_files = strings(&["config.json"]);
    let first = preview_repair(true, &base, &merged, &base_files, &merged_files);
    assert_eq!(first.tensors.len(), 2);
    let mut repaired = merged.clone();
    repaired.extend(first.tensors.iter().cloned());
    let mut repaired_files = merged_files.clone();
    repaired_files.extend(first.files.iter().cloned());
    let second = preview_repair(true, &base, &repaired, &base_files, &repaired_files);
    assert_eq!(second.summary(), "export-repair: nothing missing");
}
