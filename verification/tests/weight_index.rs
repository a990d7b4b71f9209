use estate_control::weight_index::{
    index_shard_names, index_total_size, listed_shard_names, merge_weight_map, tensor_read_range,
    HeaderSpan, SizedEntry, WeightEntry, MAX_TENSOR_BYTES,
};

fn e(t: &str, f: &str) -> WeightEntry {
    WeightEntry { tensor: t.into(), file: f.into() }
}

const REPAIR: &str = "model-export-repair.safetensors";

#[test]
fn merge_keeps_the_old_map_and_points_added_tensors_at_the_repair_shard() {
    let old = vec![
        e("model.layers.1.w", "model-00002.safetensors"),
        e("model.layers.0.w", "model-00001.safetensors"),
        e("mtp.stale.weight", REPAIR),
    ];
    let added = vec!["mtp.norm.weight".to_string(), "mtp.fc.weight".to_string()];
    let out = merge_weight_map(&old, &added, true).unwrap();
    assert_eq!(
        out,
        vec![
            e("model.layers.0.w", "model-00001.safetensors"),
            e("model.layers.1.w", "model-00002.safetensors"),
            e("mtp.fc.weight", REPAIR),
            e("mtp.norm.weight", REPAIR),
        ]
    );
}

#[test]
fn merge_refuses_to_overwrite_a_trunk_tensor_from_an_index() {
    let old = vec![e("model.layers.0.w", "model-00001.safetensors")];
    let added = vec!["model.layers.0.w".to_string()];
    assert_eq!(
        merge_weight_map(&old, &added, true).unwrap_err(),
        "refuse:classify-journey: export-repair refused to overwrite tensor model.layers.0.w"
    );
    let out = merge_weight_map(&old, &added, false).unwrap();
    assert_eq!(out, vec![e("model.layers.0.w", REPAIR)]);
}

#[test]
fn rerunning_a_merge_on_its_own_output_changes_nothing() {
    let old = vec![e("b", "s1"), e("a", "s2")];
    let added = vec!["c".to_string()];
    let once = merge_weight_map(&old, &added, true).unwrap();
    let twice = merge_weight_map(&once, &added, true).unwrap();
    assert_eq!(once, twice);
}

#[test]
fn total_size_sums_spans_or_refuses() {
    let entries = vec![
        SizedEntry { tensor: "a".into(), file: "s1".into(), span: HeaderSpan::Found { start: 0, end: 8 } },
        SizedEntry { tensor: "b".into(), file: "s1".into(), span: HeaderSpan::Found { start: 8, end: 24 } },
    ];
    assert_eq!(index_total_size(&entries), Ok(24));
    let mut missing = entries.clone();
    missing.push(SizedEntry { tensor: "c".into(), file: "s2".into(), span: HeaderSpan::Missing });
    assert_eq!(
        index_total_size(&missing).unwrap_err(),
        "refuse:classify-journey: export-repair tensor c is missing from s2"
    );
    let inverted = vec![SizedEntry {
        tensor: "d".into(),
        file: "s".into(),
        span: HeaderSpan::Found { start: 9, end: 1 },
    }];
    assert_eq!(
        index_total_size(&inverted).unwrap_err(),
        "refuse:classify-journey: export-repair tensor d has inverted data_offsets"
    );
    let unreadable = vec![SizedEntry {
        tensor: "d".into(),
        file: "s".into(),
        span: HeaderSpan::Unreadable("cannot read s".into()),
    }];
    assert_eq!(index_total_size(&unreadable).unwrap_err(), "cannot read s");
    assert_eq!(index_total_size(&vec![]), Ok(0));
}

#[test]
fn read_ranges_are_checked_before_any_read() {
    assert_eq!(tensor_read_range(100, 16, 48, "s"), Ok((124, 32)));
    assert_eq!(
        tensor_read_range(100, 48, 16, "s").unwrap_err(),
        "refuse:classify-journey: export-repair bad data_offsets"
    );
    assert_eq!(
        tensor_read_range(0, 0, MAX_TENSOR_BYTES + 1, "s").unwrap_err(),
        "refuse:classify-journey: export-repair tensor in s claims 4294967297 bytes"
    );
    assert_eq!(
        tensor_read_range(u64::MAX - 4, 0, 8, "s").unwrap_err(),
        "refuse:classify-journey: export-repair seek offset overflow"
    );
}

#[test]
fn shard_names_are_sorted_and_deduplicated() {
    let files = vec![
        "model-00002.safetensors".to_string(),
        "model-00001.safetensors".to_string(),
        "model-00002.safetensors".to_string(),
    ];
    assert_eq!(
        index_shard_names(&files),
        vec!["model-00001.safetensors".to_string(), "model-00002.safetensors".to_string()]
    );
    let listed = vec![
        "b.safetensors".to_string(),
        "config.json".to_string(),
        "a.safetensors".to_string(),
    ];
    assert_eq!(
        listed_shard_names(&listed),
        vec!["a.safetensors".to_string(), "b.safetensors".to_string()]
    );
}
