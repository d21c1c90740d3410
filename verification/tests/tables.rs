use nimbus_inspect::display::{join_feature_ids, paused_marker, rollout_marker, section_heading};
use nimbus_inspect::json::{DecodeError, JsonValue, Mismatch, RawValue};
use nimbus_inspect::records::UpdateRecord;
use nimbus_inspect::tables::{read_enrollments, read_experiments, read_updates, TableKind};

fn entry(key: &str, value: &str) -> (Vec<u8>, RawValue) {
    (key.as_bytes().to_vec(), RawValue::Json(value.to_string()))
}

#[test]
fn empty_tables_read_as_empty_sequences() {
    assert_eq!(read_enrollments(&vec![]), Ok(vec![]));
    assert_eq!(read_experiments(&vec![]), Ok(vec![]));
    assert_eq!(read_updates(&vec![]), Ok(vec![]));
}

#[test]
fn empty_tables_render_their_no_records_line() {
    assert_eq!(section_heading(TableKind::Enrollments, true), "No enrollments");
    assert_eq!(section_heading(TableKind::Enrollments, false), "Enrollments:");
    assert_eq!(section_heading(TableKind::Experiments, true), "No experiments");
    assert_eq!(section_heading(TableKind::Experiments, false), "Experiments:");
}

#[test]
fn updates_heading_reuses_the_experiments_wording() {
    assert_eq!(section_heading(TableKind::Updates, true), "No experiments");
    assert_eq!(section_heading(TableKind::Updates, false), "Experiments:");
}

#[test]
fn one_malformed_record_aborts_the_table_and_names_its_key() {
    let rows = vec![
        entry("key1", "{\"slug\":\"a\",\"status\":{\"Error\":{\"reason\":\"x\"}}}"),
        entry("key2", "{\"slug\":\"b\",\"status\":{\"Gone\":{}}}"),
        entry("key3", "{\"slug\":\"c\",\"status\":{\"Error\":{\"reason\":\"y\"}}}"),
    ];
    let err = read_enrollments(&rows).unwrap_err();
    assert_eq!(err.table, TableKind::Enrollments);
    assert_eq!(err.key, b"key2".to_vec());
    assert_eq!(err.cause, DecodeError::SchemaMismatch(Mismatch::UnknownVariantTag));
}

#[test]
fn the_first_failing_record_wins() {
    let rows = vec![
        entry("key1", "not json"),
        entry("key2", "also not json"),
    ];
    let err = read_experiments(&rows).unwrap_err();
    assert_eq!(err.table, TableKind::Experiments);
    assert_eq!(err.key, b"key1".to_vec());
    assert_eq!(err.cause, DecodeError::SchemaMismatch(Mismatch::InvalidJson));
}

#[test]
fn valid_tables_decode_every_row_in_order() {
    let rows = vec![
        entry("k1", "{\"slug\":\"one\",\"isRollout\":true,\"isEnrollmentPaused\":true,\"featureIds\":[]}"),
        entry("k2", "{\"slug\":\"two\",\"isRollout\":false,\"isEnrollmentPaused\":false,\"featureIds\":[\"f\"]}"),
    ];
    let out = read_experiments(&rows).unwrap();
    assert_eq!(out.len(), 2);
    assert_eq!(out[0].slug, "one");
    assert_eq!(out[1].slug, "two");
    assert_eq!(out[1].feature_ids, vec!["f".to_string()]);
}

#[test]
fn update_rows_keep_their_unvalidated_shape() {
    let rows = vec![entry(
        "update-key",
        "{\"a\":1,\"b\":[true,null,\"x\"],\"c\":2.5}",
    )];
    let out = read_updates(&rows).unwrap();
    assert_eq!(
        out,
        vec![UpdateRecord {
            key: "update-key".to_string(),
            value: JsonValue::Obj(vec![
                ("a".to_string(), JsonValue::Num("1".to_string())),
                (
                    "b".to_string(),
                    JsonValue::Arr(vec![
                        JsonValue::Bool(true),
                        JsonValue::Null,
                        JsonValue::Str("x".to_string()),
                    ])
                ),
                ("c".to_string(), JsonValue::Num("2.5".to_string())),
            ]),
        }]
    );
}

#[test]
fn update_keys_that_are_not_text_abort_the_read() {
    let rows = vec![(vec![0xff, 0xfe], RawValue::Json("{}".to_string()))];
    let err = read_updates(&rows).unwrap_err();
    assert_eq!(err.table, TableKind::Updates);
    assert_eq!(err.key, vec![0xff, 0xfe]);
    assert_eq!(err.cause, DecodeError::KeyNotText);
}

#[test]
fn update_keys_may_hold_any_text() {
    let rows = vec![("café".as_bytes().to_vec(), RawValue::Json("null".to_string()))];
    let out = read_updates(&rows).unwrap();
    assert_eq!(out[0].key, "café");
    assert_eq!(out[0].value, JsonValue::Null);
}

#[test]
fn update_values_must_still_be_structured_text() {
    let rows = vec![
        (b"k1".to_vec(), RawValue::Json("null".to_string())),
        (b"k2".to_vec(), RawValue::Other),
    ];
    let err = read_updates(&rows).unwrap_err();
    assert_eq!(err.key, b"k2".to_vec());
    assert_eq!(err.cause, DecodeError::UnsupportedValueEncoding);
}

#[test]
fn table_names_match_the_store() {
    assert_eq!(TableKind::Enrollments.store_name(), "enrollments");
    assert_eq!(TableKind::Experiments.store_name(), "experiments");
    assert_eq!(TableKind::Updates.store_name(), "updates");
}

#[test]
fn row_markers_match_the_report_format() {
    assert_eq!(rollout_marker(true), "R");
    assert_eq!(rollout_marker(false), "E");
    assert_eq!(paused_marker(true), "Y");
    assert_eq!(paused_marker(false), " ");
}

#[test]
fn feature_lists_join_with_commas() {
    assert_eq!(join_feature_ids(&vec![]), "");
    assert_eq!(join_feature_ids(&vec!["feature-a".to_string()]), "feature-a");
    assert_eq!(
        join_feature_ids(&vec![
            "a".to_string(),
            "b".to_string(),
            "c".to_string()
        ]),
        "a,b,c"
    );
}
