use vrm_spec::json::{Json, Number};
use vrm_spec::normalize::{
    deserialize_option_index, deserialize_option_map_and_skip_nullable,
    deserialize_option_map_index,
};

fn convert(v: &serde_json::Value) -> Json {
    match v {
        serde_json::Value::Null => Json::Null,
        serde_json::Value::Bool(b) => Json::Bool(*b),
        serde_json::Value::Number(n) => {
            if let Some(u) = n.as_u64() {
                Json::Number(Number::PosInt(u))
            } else if let Some(i) = n.as_i64() {
                Json::Number(Number::NegInt(i))
            } else {
                Json::Number(Number::Float(n.as_f64().unwrap().to_bits()))
            }
        }
        serde_json::Value::String(s) => Json::String(s.clone()),
        serde_json::Value::Array(a) => Json::Array(a.iter().map(convert).collect()),
        serde_json::Value::Object(m) => {
            Json::Object(m.iter().map(|(k, v)| (k.clone(), convert(v))).collect())
        }
    }
}

fn parse(text: &str) -> Json {
    convert(&serde_json::from_str(text).unwrap())
}

#[test]
fn negative_index_is_absent() {
    assert_eq!(deserialize_option_index(&parse("-1")), Ok(None));
    assert_eq!(deserialize_option_index(&parse("-7")), Ok(None));
}

#[test]
fn null_index_is_absent() {
    assert_eq!(deserialize_option_index(&Json::Null), Ok(None));
}

#[test]
fn zero_index_is_present() {
    assert_eq!(deserialize_option_index(&parse("0")), Ok(Some(0)));
    assert_eq!(deserialize_option_index(&parse("12")), Ok(Some(12)));
}

#[test]
fn index_rejects_other_kinds() {
    assert!(deserialize_option_index(&parse("1.5")).is_err());
    assert!(deserialize_option_index(&parse("\"3\"")).is_err());
    assert!(deserialize_option_index(&parse("4294967296")).is_err());
    assert!(deserialize_option_index(&parse("18446744073709551615")).is_err());
    assert_eq!(deserialize_option_index(&parse("4294967295")), Ok(Some(4294967295)));
}

#[test]
fn map_references_drop_negative_entries() {
    let m = deserialize_option_map_index(&parse(r#"{"a": 2, "b": -1, "c": 0}"#)).unwrap().unwrap();
    let keys: Vec<&str> = m.entries.iter().map(|(k, _)| k.as_str()).collect();
    assert_eq!(keys, vec!["a", "c"]);
    assert_eq!(m.entries[0].1, 2);
    assert_eq!(m.entries[1].1, 0);
}

#[test]
fn map_references_reject_non_integers() {
    assert!(deserialize_option_map_index(&parse(r#"{"a": "x"}"#)).is_err());
    assert!(deserialize_option_map_index(&parse("[1, 2]")).is_err());
}

#[test]
fn null_float_properties_are_skipped() {
    let m = deserialize_option_map_and_skip_nullable(&parse(r#"{"x": 1.5, "y": null}"#)).unwrap().unwrap();
    assert_eq!(m.entries.len(), 1);
    assert_eq!(m.entries[0].0, "x");
    assert_eq!(m.entries[0].1, Number::Float(1.5f64.to_bits()));
}

#[test]
fn float_properties_reject_strings() {
    assert!(deserialize_option_map_and_skip_nullable(&parse(r#"{"x": "1.5"}"#)).is_err());
    assert!(deserialize_option_map_and_skip_nullable(&parse("3")).is_err());
}

#[test]
fn empty_maps_stay_empty() {
    assert_eq!(deserialize_option_map_index(&parse("{}")).unwrap().unwrap().entries.len(), 0);
    assert_eq!(deserialize_option_map_and_skip_nullable(&parse("{}")).unwrap().unwrap().entries.len(), 0);
}

#[test]
fn null_maps_are_absent() {
    assert!(deserialize_option_map_index(&Json::Null).unwrap().is_none());
    assert!(deserialize_option_map_and_skip_nullable(&Json::Null).unwrap().is_none());
}

#[test]
fn null_reference_entries_are_dropped() {
    let m = deserialize_option_map_index(&parse(r#"{"a": null, "b": 1}"#)).unwrap().unwrap();
    assert_eq!(m.entries, vec![("b".to_string(), 1)]);
}

fn entry(k: &str, v: Json) -> (String, Json) {
    (k.to_string(), v)
}

#[test]
fn repeated_keys_keep_the_last_entry() {
    let refs = Json::Object(vec![
        entry("a", Json::Number(Number::PosInt(1))),
        entry("b", Json::Number(Number::PosInt(5))),
        entry("a", Json::Number(Number::NegInt(-1))),
        entry("b", Json::Number(Number::PosInt(6))),
    ]);
    let m = deserialize_option_map_index(&refs).unwrap().unwrap();
    assert_eq!(m.entries, vec![("b".to_string(), 6)]);
    let numbers = Json::Object(vec![
        entry("x", Json::Number(Number::PosInt(1))),
        entry("x", Json::Null),
        entry("y", Json::Null),
        entry("y", Json::Number(Number::PosInt(2))),
    ]);
    let m = deserialize_option_map_and_skip_nullable(&numbers).unwrap().unwrap();
    assert_eq!(m.entries, vec![("y".to_string(), Number::PosInt(2))]);
}
