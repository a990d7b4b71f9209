use estate_control::feed::{feed_import_check, RedactionRead};
use estate_control::enrich::{apply_proposal_untouched, import_trained_untouched};
use estate_control::export_repair::{repair_fingerprint, RepairReport};
use estate_control::formats::{
    binding_params_digest, canonical_json, config_facts_from_text, redaction_from_text, index_from_text, index_shard_files, read_shard_header, render_index,
    repair_shard_bytes, select_hint_from_json, HeaderTensor, ShardTensor,
};
use estate_control::help::{help_page, help_text, HelpPage};
use estate_control::weight_index::WeightEntry;
use safetensors::tensor::{Dtype, TensorView};
use std::collections::HashMap;

const PRE: &str = "refuse:classify-journey: export-repair ";

fn split(bytes: &[u8]) -> (Vec<u8>, Vec<u8>) {
    let mut len = [0u8; 8];
    len.copy_from_slice(&bytes[..8]);
    let n = u64::from_le_bytes(len) as usize;
    (bytes[..8].to_vec(), bytes[8..8 + n].to_vec())
}

fn shard(metadata: Option<HashMap<String, String>>) -> Vec<u8> {
    let a = vec![0u8; 8];
    let b = vec![1u8; 4];
    let views = vec![
        ("w.a".to_string(), TensorView::new(Dtype::F32, vec![2], &a).unwrap()),
        ("w.b".to_string(), TensorView::new(Dtype::U8, vec![2, 2], &b).unwrap()),
    ];
    safetensors::serialize(views, &metadata).unwrap()
}

fn prefix_of(n: u64) -> Vec<u8> {
    n.to_le_bytes().to_vec()
}

#[test]
fn shard_header_lists_the_tensors() {
    let bytes = shard(None);
    let (prefix, header) = split(&bytes);
    let (n, tensors) = read_shard_header(&prefix, &header, "x.safetensors").unwrap();
    assert_eq!(n as usize, header.len());
    assert_eq!(
        tensors,
        vec![
            (
                "w.a".to_string(),
                HeaderTensor { dtype: "F32".to_string(), shape: vec![2], start: 0, end: 8 }
            ),
            (
                "w.b".to_string(),
                HeaderTensor { dtype: "U8".to_string(), shape: vec![2, 2], start: 8, end: 12 }
            ),
        ]
    );
}

#[test]
fn shard_header_skips_metadata() {
    let mut meta = HashMap::new();
    meta.insert("format".to_string(), "pt".to_string());
    let bytes = shard(Some(meta));
    let (prefix, header) = split(&bytes);
    let (_, tensors) = read_shard_header(&prefix, &header, "x.safetensors").unwrap();
    let names: Vec<&str> = tensors.iter().map(|(n, _)| n.as_str()).collect();
    assert_eq!(names, vec!["w.a", "w.b"]);
}

#[test]
fn shard_header_refusals() {
    let err = read_shard_header(&prefix_of(8), &b"not json".to_vec(), "x").unwrap_err();
    assert!(err.starts_with(&format!("{PRE}x header is not JSON: ")), "{err}");
    let err = read_shard_header(&prefix_of(3), &b"[1]".to_vec(), "x").unwrap_err();
    assert_eq!(err, format!("{PRE}x header is not an object"));
    let header = br#"{"a":{"dtype":"F32"}}"#.to_vec();
    let err = read_shard_header(&prefix_of(header.len() as u64), &header, "x").unwrap_err();
    assert!(err.starts_with(&format!("{PRE}tensor a in x has a bad header: ")), "{err}");
    let err = read_shard_header(&prefix_of(100_000_001), &vec![], "x").unwrap_err();
    assert_eq!(err, format!("{PRE}x header is too large"));
}

#[test]
fn config_facts_read_the_text_config_first() {
    let c = config_facts_from_text(
        r#"{"num_hidden_layers": 4, "text_config": {"num_hidden_layers": 2, "mtp_num_hidden_layers": 1, "tie_word_embeddings": false}}"#,
    )
    .unwrap();
    assert!(c.text_config);
    assert_eq!(c.text_layers, Some(2));
    assert_eq!(c.text_mtp, Some(1));
    assert_eq!(c.text_tie, Some(false));
    assert_eq!(c.root_layers, Some(4));
    assert_eq!(c.root_mtp, None);
    assert_eq!(c.root_tie, None);
    let c = config_facts_from_text(r#"{"tie_word_embeddings": true, "mtp_num_hidden_layers": "x"}"#).unwrap();
    assert!(!c.text_config);
    assert_eq!(c.root_tie, Some(true));
    assert_eq!(c.root_mtp, None);
    let c = config_facts_from_text("[1, 2]").unwrap();
    assert!(!c.text_config);
    assert_eq!(c.root_layers, None);
    assert!(config_facts_from_text("{").is_err());
}

#[test]
fn select_hint_is_read_from_json() {
    let h = select_hint_from_json(
        r#"{"schema": "cell-one.decision-select.v0", "select": "m-1", "digest": null}"#,
        "s.json",
    )
    .unwrap();
    assert_eq!(h.select.as_deref(), Some("m-1"));
    assert_eq!(h.digest, None);
    assert_eq!(select_hint_from_json("{", "s.json").unwrap_err(), "refuse:decision-select: parse s.json");
    let err = select_hint_from_json("[]", "s.json").unwrap_err();
    assert!(err.starts_with("refuse:decision-select: schema must be "), "{err}");
    let err = select_hint_from_json(
        r#"{"schema": "cell-one.decision-select.v0", "select": 3}"#,
        "s.json",
    )
    .unwrap_err();
    assert_eq!(err, "refuse:decision-select: select must be an id, abstain, or null");
}

#[test]
fn index_names_each_shard_once() {
    let text = r#"{"metadata": {}, "weight_map": {"b": "m-2.safetensors", "a": "m-1.safetensors", "c": "m-2.safetensors", "d": 4}}"#;
    assert_eq!(
        index_shard_files(text, "i.json").unwrap(),
        vec!["m-1.safetensors".to_string(), "m-2.safetensors".to_string()]
    );
    assert_eq!(
        index_shard_files(r#"{"metadata": {}}"#, "i.json").unwrap_err(),
        format!("{PRE}i.json has no weight_map")
    );
    assert_eq!(
        index_shard_files(r#"{"weight_map": []}"#, "i.json").unwrap_err(),
        format!("{PRE}i.json has no weight_map")
    );
    let err = index_shard_files("nope", "i.json").unwrap_err();
    assert!(err.starts_with(&format!("{PRE}i.json is not JSON: ")), "{err}");
}

#[test]
fn index_text_is_read_for_the_rewrite() {
    let text = r#"{"metadata": {"total_size": 3, "format": "pt"}, "weight_map": {"a": "m.safetensors", "b": 1}}"#;
    let (meta, map) = index_from_text(text).unwrap();
    assert_eq!(
        meta,
        vec![
            ("format".to_string(), "\"pt\"".to_string()),
            ("total_size".to_string(), "3".to_string()),
        ]
    );
    assert_eq!(
        map,
        vec![
            WeightEntry { tensor: "a".into(), file: "m.safetensors".into() },
            WeightEntry { tensor: "b".into(), file: "".into() },
        ]
    );
    let (meta, map) = index_from_text(r#"{"metadata": 1}"#).unwrap();
    assert!(meta.is_empty() && map.is_empty());
    assert!(index_from_text("{").is_err());
}

#[test]
fn index_is_rendered_with_the_new_total() {
    let meta = vec![
        ("format".to_string(), "\"pt\"".to_string()),
        ("total_size".to_string(), "3".to_string()),
    ];
    let map = vec![
        WeightEntry { tensor: "a".into(), file: "m-1.safetensors".into() },
        WeightEntry { tensor: "b".into(), file: "model-mtp-repair.safetensors".into() },
    ];
    let text = render_index(&meta, &map, 12).unwrap();
    assert_eq!(
        text,
        "{\n  \"metadata\": {\n    \"format\": \"pt\",\n    \"total_size\": 12\n  },\n  \"weight_map\": {\n    \"a\": \"m-1.safetensors\",\n    \"b\": \"model-mtp-repair.safetensors\"\n  }\n}\n"
    );
    let back = index_from_text(&text).unwrap();
    assert_eq!(back.1, map);
    assert!(render_index(&vec![("x".to_string(), "{".to_string())], &map, 0).is_err());
}

#[test]
fn repair_shard_round_trips() {
    let tensors = vec![
        ShardTensor { name: "mtp.b".into(), dtype: "U8".into(), shape: vec![3], data: vec![7, 8, 9] },
        ShardTensor { name: "mtp.a".into(), dtype: "F32".into(), shape: vec![1], data: vec![0, 0, 128, 63] },
    ];
    let bytes = repair_shard_bytes(&tensors).unwrap();
    let read = safetensors::SafeTensors::deserialize(&bytes).unwrap();
    let b = read.tensor("mtp.b").unwrap();
    assert_eq!(b.dtype(), Dtype::U8);
    assert_eq!(b.shape(), &[3]);
    assert_eq!(b.data(), &[7, 8, 9]);
    let a = read.tensor("mtp.a").unwrap();
    assert_eq!(a.dtype(), Dtype::F32);
    assert_eq!(a.data(), &[0, 0, 128, 63]);
    let (prefix, header) = split(&bytes);
    let (_, listed) = read_shard_header(&prefix, &header, "r").unwrap();
    assert_eq!(listed.len(), 2);
}

#[test]
fn repair_shard_refusals() {
    let short = vec![ShardTensor { name: "w".into(), dtype: "F32".into(), shape: vec![2], data: vec![0; 3] }];
    assert_eq!(
        repair_shard_bytes(&short).unwrap_err(),
        format!("{PRE}cannot view tensor w: InvalidTensorView(F32, [2], 3)")
    );
    let huge = vec![ShardTensor { name: "h".into(), dtype: "U8".into(), shape: vec![usize::MAX, 2], data: vec![] }];
    assert_eq!(
        repair_shard_bytes(&huge).unwrap_err(),
        format!("{PRE}cannot view tensor h: shape overflows usize")
    );
    let odd = vec![ShardTensor { name: "q".into(), dtype: "Q9".into(), shape: vec![1], data: vec![0] }];
    let err = repair_shard_bytes(&odd).unwrap_err();
    assert!(err.starts_with(&format!("{PRE}cannot view tensor q: ")), "{err}");
}

#[test]
fn help_has_a_models_page() {
    assert_eq!(help_page(Some(" models ")), Ok(HelpPage::Models));
    let page = help_text(HelpPage::Models, "");
    assert!(page.starts_with("estate models\n"), "{page}");
    assert!(help_text(HelpPage::Index, "").contains("estate help models"));
}

#[test]
fn enrich_page_quotes_the_matrix_after_its_anchor() {
    let page = help_text(HelpPage::Enrich, "| MATRIX |");
    assert!(page.contains("Prepare writes artifacts. It does not train.\n\n| MATRIX |\n"), "{page}");
    assert_eq!(help_text(HelpPage::Status, "x"), help_text(HelpPage::Status, "y"));
}

#[test]
fn fingerprint_is_sixty_four_hex_chars() {
    let report = RepairReport { tensors: vec!["mtp.a".into()], files: vec!["tokenizer.json".into()] };
    let f = repair_fingerprint("p", &report);
    assert_eq!(f.len(), 64);
    assert!(f.chars().all(|c| c.is_ascii_hexdigit() && !c.is_ascii_uppercase()));
    assert_ne!(f, repair_fingerprint("q", &report));
}

#[test]
fn enrich_commands_leave_the_estate_file_alone() {
    let a = b"name: e\n".to_vec();
    assert_eq!(apply_proposal_untouched(&a, &a), Ok(()));
    assert_eq!(
        apply_proposal_untouched(&a, &b"name: f\n".to_vec()).unwrap_err(),
        "enrich apply-proposal must not rewrite the source estate"
    );
    assert_eq!(import_trained_untouched(&a, &a), Ok(()));
    assert_eq!(
        import_trained_untouched(&a, &vec![]).unwrap_err(),
        "enrich import-trained must not rewrite the estate file"
    );
}

fn params(pairs: &[(&str, &str)]) -> Vec<(String, String)> {
    pairs.iter().map(|(k, v)| (k.to_string(), v.to_string())).collect()
}

#[test]
fn canonical_json_sorts_the_keys() {
    let written = params(&[("path", "\"/m/slm\""), ("model", "\"slm\""), ("opts", "{\"b\":1,\"a\":[2]}")]);
    assert_eq!(canonical_json(&written), "{\"model\":\"slm\",\"opts\":{\"a\":[2],\"b\":1},\"path\":\"/m/slm\"}");
    let mut reversed = written.clone();
    reversed.reverse();
    assert_eq!(canonical_json(&reversed), canonical_json(&written));
    assert_eq!(canonical_json(&vec![]), "{}");
    assert!(canonical_json(&params(&[("x", "{")])).starts_with("\"unserializable:"));
}

#[test]
fn param_order_is_not_drift_but_a_new_model_is() {
    let written = params(&[("model", "\"slm\""), ("path", "\"/m\"")]);
    let mut reversed = written.clone();
    reversed.reverse();
    let d = binding_params_digest("local_slm", "local", "ollama", &written);
    assert_eq!(d.len(), 64);
    assert_eq!(binding_params_digest("local_slm", "local", "ollama", &reversed), d);
    let drifted = params(&[("model", "\"drifted-model\""), ("path", "\"/m\"")]);
    assert_ne!(binding_params_digest("local_slm", "local", "ollama", &drifted), d);
}

#[test]
fn redaction_report_is_read_from_its_text() {
    let r = redaction_from_text(r#"{"redacted": 3, "raw_secrets_found": 0, "note": "x"}"#, "a/p.redaction.json").unwrap();
    assert_eq!(r, RedactionRead::Counts { redacted: Some(3), raw_secrets_found: Some(0) });
    assert_eq!(feed_import_check("e", "e", "a/p.redaction.json", &r), Ok((3, 0)));
    let r = redaction_from_text(r#"{"redacted": -1, "raw_secrets_found": "2"}"#, "r.json").unwrap();
    assert_eq!(r, RedactionRead::Counts { redacted: None, raw_secrets_found: None });
    assert_eq!(
        feed_import_check("e", "e", "r.json", &r).unwrap_err(),
        "redaction r.json missing redacted count"
    );
    let r = redaction_from_text("[1]", "r.json").unwrap();
    assert_eq!(r, RedactionRead::Counts { redacted: None, raw_secrets_found: None });
    assert_eq!(redaction_from_text("{oops", "r.json").unwrap_err(), "parse redaction r.json");
}
