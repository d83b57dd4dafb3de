use turul_mcp_protocol::json::{Json, JsonNumber};
use turul_mcp_protocol::v2026_07_28::compliance::diff::{semantic_diff, DiffKind, Difference, PathStep};

fn num(f: f64) -> Json {
    let f = if f == 0.0 { 0.0 } else { f };
    Json::Number(JsonNumber::FloatBits(f.to_bits()))
}

fn text(s: &str) -> Json {
    Json::String(s.to_string())
}

fn obj(members: Vec<(&str, Json)>) -> Json {
    Json::Object(members.into_iter().map(|(k, v)| (k.to_string(), v)).collect())
}

#[test]
fn diff_identical_objects_returns_none() {
    let a = obj(vec![("a", num(1.0)), ("b", text("x"))]);
    let b = obj(vec![("b", text("x")), ("a", num(1.0))]);
    assert!(semantic_diff(&a, &b).is_none());
}

#[test]
fn diff_extra_field_is_reported() {
    let a = obj(vec![("a", num(1.0))]);
    let b = obj(vec![("a", num(1.0)), ("extra", Json::Bool(true))]);
    let d = semantic_diff(&a, &b).unwrap();
    assert_eq!(d, Difference { path: vec![], kind: DiffKind::ExtraKeys(vec!["extra".to_string()]) });
}

#[test]
fn diff_missing_field_is_reported() {
    let a = obj(vec![("a", num(1.0)), ("needed", Json::Bool(true))]);
    let b = obj(vec![("a", num(1.0))]);
    let d = semantic_diff(&a, &b).unwrap();
    assert_eq!(d, Difference { path: vec![], kind: DiffKind::MissingKeys(vec!["needed".to_string()]) });
}

#[test]
fn diff_array_order_matters() {
    let a = Json::Array(vec![num(1.0), num(2.0), num(3.0)]);
    let b = Json::Array(vec![num(1.0), num(3.0), num(2.0)]);
    assert!(semantic_diff(&a, &b).is_some());
}

#[test]
fn diff_number_compared_as_f64() {
    let a = num(1.0);
    let b = num(1 as f64);
    assert!(semantic_diff(&a, &b).is_none());
}

#[test]
fn diff_locates_the_first_difference_by_path() {
    let a = obj(vec![("list", Json::Array(vec![num(1.0), obj(vec![("k", num(2.0))])]))]);
    let b = obj(vec![("list", Json::Array(vec![num(1.0), obj(vec![("k", num(3.0))])]))]);
    let d = semantic_diff(&a, &b).unwrap();
    assert_eq!(
        d,
        Difference {
            path: vec![PathStep::Key("list".to_string()), PathStep::Index(1), PathStep::Key("k".to_string())],
            kind: DiffKind::Number,
        }
    );
}

#[test]
fn diff_reports_array_lengths() {
    let a = Json::Array(vec![num(1.0)]);
    let b = Json::Array(vec![num(1.0), num(2.0)]);
    assert_eq!(semantic_diff(&a, &b), Some(Difference { path: vec![], kind: DiffKind::ArrayLength(1, 2) }));
}

#[test]
fn diff_reports_type_and_value_mismatches() {
    assert_eq!(semantic_diff(&text("a"), &num(1.0)), Some(Difference { path: vec![], kind: DiffKind::Mismatch }));
    assert_eq!(semantic_diff(&text("a"), &text("b")), Some(Difference { path: vec![], kind: DiffKind::Mismatch }));
    assert_eq!(
        semantic_diff(&Json::Bool(true), &Json::Bool(false)),
        Some(Difference { path: vec![], kind: DiffKind::Mismatch })
    );
    assert!(semantic_diff(&Json::Null, &Json::Null).is_none());
}

#[test]
fn diff_treats_null_members_as_absent() {
    let a = obj(vec![("a", num(1.0)), ("opt", Json::Null)]);
    let b = obj(vec![("a", num(1.0))]);
    assert!(semantic_diff(&a, &b).is_none());
    assert!(semantic_diff(&b, &a).is_none());
    let c = obj(vec![("a", Json::Null)]);
    assert_eq!(
        semantic_diff(&b, &c),
        Some(Difference { path: vec![], kind: DiffKind::MissingKeys(vec!["a".to_string()]) })
    );
}

#[test]
fn diff_lists_missing_keys_sorted() {
    let a = obj(vec![("z", num(1.0)), ("b", num(1.0)), ("m", num(1.0))]);
    let b = obj(vec![]);
    assert_eq!(
        semantic_diff(&a, &b),
        Some(Difference {
            path: vec![],
            kind: DiffKind::MissingKeys(vec!["b".to_string(), "m".to_string(), "z".to_string()]),
        })
    );
}

#[test]
fn diff_compares_members_in_sorted_key_order() {
    let a = obj(vec![("z", num(1.0)), ("b", num(1.0))]);
    let b = obj(vec![("z", num(2.0)), ("b", num(2.0))]);
    let d = semantic_diff(&a, &b).unwrap();
    assert_eq!(d.path, vec![PathStep::Key("b".to_string())]);
}
