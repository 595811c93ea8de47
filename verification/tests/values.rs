use gateway_client::duration::duration_to_std;
use gateway_client::json::{key_among, JsonObject, JsonValue};
use gateway_client::json_text::{export_value, import_value, parse_json, render_json};
use gateway_client::text::{is_base64_label, join2, join3, signed_text, text_eq, unsigned_text};
use gateway_client::Duration;

#[test]
fn durations_are_held_in_microseconds() {
    assert_eq!(Duration::microseconds(7).num_microseconds(), Some(7));
    assert_eq!(Duration::milliseconds(500).num_microseconds(), Some(500_000));
    assert_eq!(Duration::seconds(10).num_microseconds(), Some(10_000_000));
    assert_eq!(Duration::seconds(-2).num_microseconds(), Some(-2_000_000));
    assert_eq!(Duration::milliseconds(i64::MAX).num_microseconds(), Some(i64::MAX));
    assert_eq!(Duration::milliseconds(i64::MIN).num_microseconds(), Some(i64::MIN));
    assert_eq!(Duration::seconds(i64::MAX / 1_000_000).num_microseconds(), Some(9_223_372_036_854_000_000));
    assert_eq!(Duration::seconds(i64::MAX / 1_000_000 + 1).num_microseconds(), Some(i64::MAX));
    assert_eq!(Duration::seconds(i64::MIN / 1_000_000 - 1).num_microseconds(), Some(i64::MIN));
    assert!(Duration::milliseconds(1) < Duration::seconds(1));
    assert_eq!(Duration::milliseconds(1_000), Duration::seconds(1));
}

#[test]
fn durations_convert_to_std() {
    assert_eq!(Duration::milliseconds(1500).to_std(), Ok(std::time::Duration::from_micros(1_500_000)));
    assert_eq!(Duration::microseconds(0).to_std(), Ok(std::time::Duration::ZERO));
    assert_eq!(Duration::microseconds(-1).to_std(), Err(()));
    assert_eq!(duration_to_std(Duration::seconds(3)), std::time::Duration::from_secs(3));
    assert_eq!(duration_to_std(Duration::seconds(-3)), std::time::Duration::ZERO);
    assert_eq!(Duration::microseconds(-9).clamped_micros(), 0);
    assert_eq!(Duration::microseconds(9).clamped_micros(), 9);
}

#[test]
fn integers_are_written_in_decimal() {
    assert_eq!(unsigned_text(0), "0");
    assert_eq!(unsigned_text(9), "9");
    assert_eq!(unsigned_text(10), "10");
    assert_eq!(unsigned_text(1234567890), "1234567890");
    assert_eq!(unsigned_text(u64::MAX), "18446744073709551615");
    assert_eq!(signed_text(0), "0");
    assert_eq!(signed_text(-1), "-1");
    assert_eq!(signed_text(42), "42");
    assert_eq!(signed_text(i64::MIN), "-9223372036854775808");
    assert_eq!(signed_text(i64::MAX), "9223372036854775807");
}

#[test]
fn text_helpers() {
    assert!(text_eq("", ""));
    assert!(text_eq("héllo", "héllo"));
    assert!(!text_eq("hello", "hellO"));
    assert!(!text_eq("hello", "hell"));
    assert_eq!(join2("a", "bc"), "abc");
    assert_eq!(join3("a", "-", "1"), "a-1");
    assert!(is_base64_label("base64"));
    assert!(is_base64_label("BaSe64"));
    assert!(!is_base64_label("base65"));
    assert!(!is_base64_label("base6"));
    assert!(!is_base64_label("bàse64"));
    assert!(!is_base64_label(""));
    assert!(key_among(&vec!["a", "b"], "b"));
    assert!(!key_among(&vec!["a", "b"], "c"));
    assert!(!key_among(&vec![], "c"));
}

#[test]
fn json_text_is_read_and_written() {
    let text = r#" { "b" : [ 1 , -2 , 3.5 , 1e2, true , null , "s\n" ] , "a" : { } , "b2": 18446744073709551615 } "#;
    let value = parse_json(text).expect("json");
    assert_eq!(
        render_json(&value),
        r#"{"a":{},"b":[1,-2,3.5,100.0,true,null,"s\n"],"b2":18446744073709551615}"#
    );
    assert_eq!(parse_json(&render_json(&value)), Some(value));
    assert_eq!(parse_json(""), None);
    assert_eq!(parse_json("{"), None);
    assert_eq!(parse_json("1 2"), None);
    assert_eq!(parse_json("nul"), None);
    assert_eq!(parse_json("null"), Some(JsonValue::Null));
    assert_eq!(parse_json("\"x\""), Some(JsonValue::text("x")));
    assert_eq!(parse_json("5"), Some(JsonValue::unsigned(5)));
    assert_eq!(parse_json("5"), Some(JsonValue::signed(5)));
    assert_eq!(parse_json("-5"), Some(JsonValue::signed(-5)));
    assert_eq!(parse_json(r#"{"k":1,"k":2}"#), parse_json(r#"{"k":2}"#));
    assert_eq!(render_json(&JsonValue::Array(vec![JsonValue::Bool(false), JsonValue::text("é\"")])), "[false,\"é\\\"\"]");
}

#[test]
fn numbers_are_read_by_kind() {
    assert_eq!(parse_json("7").expect("json").to_u64(), Some(7));
    assert_eq!(parse_json("7").expect("json").to_i64(), Some(7));
    assert_eq!(parse_json("7").expect("json").to_u32(), Some(7));
    assert_eq!(parse_json("7").expect("json").to_i32(), Some(7));
    assert_eq!(parse_json("-7").expect("json").to_u64(), None);
    assert_eq!(parse_json("-7").expect("json").to_i64(), Some(-7));
    assert_eq!(parse_json("7.0").expect("json").to_u64(), None);
    assert_eq!(parse_json("7.0").expect("json").to_i64(), None);
    assert_eq!(parse_json("18446744073709551615").expect("json").to_u64(), Some(u64::MAX));
    assert_eq!(parse_json("18446744073709551615").expect("json").to_i64(), None);
    assert_eq!(parse_json("2147483648").expect("json").to_i32(), None);
    assert_eq!(parse_json("\"7\"").expect("json").to_u64(), None);
    assert_eq!(parse_json("true").expect("json").to_bool(), Some(true));
    assert_eq!(parse_json("1").expect("json").to_bool(), None);
    assert!(parse_json("null").expect("json").is_null());
    assert_eq!(parse_json(r#"["a","b"]"#).expect("json").to_texts(), Some(vec!["a".to_string(), "b".to_string()]));
    assert_eq!(parse_json(r#"["a",1]"#).expect("json").to_texts(), None);
    assert_eq!(
        parse_json(r#"{"x":true,"y":false}"#).expect("json").to_flags(),
        Some(vec![("x".to_string(), true), ("y".to_string(), false)])
    );
    assert_eq!(parse_json(r#"{"x":1}"#).expect("json").to_flags(), None);
    assert_eq!(
        JsonValue::flags(&vec![("b".to_string(), true)]),
        parse_json(r#"{"b":true}"#).expect("json")
    );
    assert_eq!(JsonValue::texts(&vec!["a".to_string()]), parse_json(r#"["a"]"#).expect("json"));
}

#[test]
fn objects_keep_their_entries_in_order() {
    let mut o = JsonObject::new();
    assert_eq!(o.len(), 0);
    assert_eq!(o.get("a"), None);
    o.insert("a".to_string(), JsonValue::unsigned(1));
    o.insert("b".to_string(), JsonValue::unsigned(2));
    o.insert("a".to_string(), JsonValue::unsigned(3));
    assert_eq!(o.len(), 2);
    assert_eq!(o.get("a"), Some(&JsonValue::unsigned(3)));
    assert!(o.contains_key("b"));
    assert!(!o.contains_key("c"));
    o.push("a".to_string(), JsonValue::unsigned(4));
    assert_eq!(o.len(), 3);
    assert_eq!(o.get("a"), Some(&JsonValue::unsigned(3)));
    let rest = o.without(&vec!["a"]);
    assert_eq!(rest.len(), 1);
    assert_eq!(rest.get("b"), Some(&JsonValue::unsigned(2)));
    let mut joined = JsonObject::new();
    joined.push("z".to_string(), JsonValue::Null);
    joined.extend(&rest);
    assert_eq!(joined.entries.len(), 2);
    assert_eq!(joined.entries[1].0, "b");
    assert_eq!(joined.clone(), joined);
    let nested = parse_json(r#"{"n":[1,-2,2.5,{"t":"x"}]}"#).expect("json");
    assert_eq!(nested.clone(), nested);
    assert_eq!(render_json(&nested.clone()), r#"{"n":[1,-2,2.5,{"t":"x"}]}"#);
    assert_eq!(render_json(&JsonValue::Object(o)), r#"{"a":3,"b":2}"#);
}

#[test]
fn outside_values_are_copied_level_by_level() {
    let text = r#"{"k":[1,-2,0.5,"s",null,{"n":{"m":[]}}],"a":true}"#;
    let outside: serde_json::Value = serde_json::from_str(text).expect("json");
    let inside = import_value(&outside);
    assert_eq!(Some(&inside), parse_json(text).as_ref());
    match &inside {
        JsonValue::Object(o) => {
            assert_eq!(o.entries.len(), 2);
            assert_eq!(o.entries[0].0, "a");
            assert_eq!(o.entries[1].0, "k");
            assert_eq!(o.get("a"), Some(&JsonValue::Bool(true)));
            match o.get("k") {
                Some(JsonValue::Array(items)) => {
                    assert_eq!(items.len(), 6);
                    assert_eq!(items[0], JsonValue::unsigned(1));
                    assert_eq!(items[1], JsonValue::signed(-2));
                    assert_eq!(items[3], JsonValue::text("s"));
                    assert_eq!(items[4], JsonValue::Null);
                }
                _ => panic!("expected an array"),
            }
        }
        _ => panic!("expected an object"),
    }
    assert_eq!(export_value(&inside), outside);
    let mut unordered = JsonObject::new();
    unordered.push("z".to_string(), JsonValue::Null);
    unordered.push("b".to_string(), JsonValue::unsigned(1));
    unordered.push("z".to_string(), JsonValue::Bool(false));
    let collected = export_value(&JsonValue::Object(unordered));
    let keys: Vec<&String> = collected.as_object().expect("object").keys().collect();
    assert_eq!(keys, vec!["b", "z"]);
    assert_eq!(collected["z"], serde_json::Value::Null);
}
