use dbox::json::{parse_json, u64_digits, JsonValue};

fn obj(entries: Vec<(&str, JsonValue)>) -> JsonValue {
    JsonValue::Object(entries.into_iter().map(|(k, v)| (k.to_string(), v)).collect())
}

#[test]
fn render_scalars() {
    assert_eq!(JsonValue::Null.render(), "null");
    assert_eq!(JsonValue::Boolean(true).render(), "true");
    assert_eq!(JsonValue::Boolean(false).render(), "false");
    assert_eq!(JsonValue::U64(0).render(), "0");
    assert_eq!(JsonValue::U64(7).render(), "7");
    assert_eq!(JsonValue::U64(10).render(), "10");
    assert_eq!(JsonValue::U64(123456789).render(), "123456789");
    assert_eq!(JsonValue::U64(u64::MAX).render(), "18446744073709551615");
}

#[test]
fn digits_exact() {
    assert_eq!(u64_digits(0), "0");
    assert_eq!(u64_digits(42), "42");
    assert_eq!(u64_digits(100), "100");
    assert_eq!(u64_digits(90210), "90210");
}

#[test]
fn render_strings() {
    assert_eq!(JsonValue::Str("".to_string()).render(), "\"\"");
    assert_eq!(JsonValue::Str("hello".to_string()).render(), "\"hello\"");
    assert_eq!(
        JsonValue::Str("a\"b\\c".to_string()).render(),
        "\"a\\\"b\\\\c\""
    );
    assert_eq!(
        JsonValue::Str("tab\there\nline\rret".to_string()).render(),
        "\"tab\\there\\nline\\rret\""
    );
    assert_eq!(
        JsonValue::Str("\u{8}\u{c}".to_string()).render(),
        "\"\\b\\f\""
    );
    assert_eq!(
        JsonValue::Str("\u{1}\u{1f}\u{7f}".to_string()).render(),
        "\"\\u0001\\u001f\\u007f\""
    );
    assert_eq!(
        JsonValue::Str("caf\u{e9}".to_string()).render(),
        "\"caf\u{e9}\""
    );
}

#[test]
fn render_arrays_and_objects() {
    assert_eq!(JsonValue::Array(vec![]).render(), "[]");
    assert_eq!(
        JsonValue::Array(vec![JsonValue::U64(1), JsonValue::Null, JsonValue::Boolean(false)])
            .render(),
        "[1,null,false]"
    );
    assert_eq!(obj(vec![]).render(), "{}");
    let doc = obj(vec![
        ("from_path", JsonValue::Str("/a".to_string())),
        ("to_path", JsonValue::Str("/b".to_string())),
    ]);
    assert_eq!(doc.render(), "{\"from_path\":\"/a\",\"to_path\":\"/b\"}");
    let nested = obj(vec![
        ("entries", JsonValue::Array(vec![obj(vec![("size", JsonValue::U64(3))])])),
        ("more", JsonValue::Boolean(true)),
    ]);
    assert_eq!(nested.render(), "{\"entries\":[{\"size\":3}],\"more\":true}");
}

#[test]
fn parse_scalars() {
    assert_eq!(parse_json("null"), Some(JsonValue::Null));
    assert_eq!(parse_json("true"), Some(JsonValue::Boolean(true)));
    assert_eq!(parse_json("17"), Some(JsonValue::U64(17)));
    assert_eq!(parse_json("\"hi\""), Some(JsonValue::Str("hi".to_string())));
    assert_eq!(parse_json("not json"), None);
    assert_eq!(parse_json(""), None);
}

#[test]
fn parse_rejects_other_numbers() {
    // Negative and fractional numbers have no place in the library's
    // value type, so the whole parse fails on them.
    assert_eq!(parse_json("-1"), None);
    assert_eq!(parse_json("1.5"), None);
    assert_eq!(parse_json("{\"a\":-3}"), None);
}

#[test]
fn parse_objects_sorted() {
    // The parser hands object members over sorted by key.
    let doc = parse_json("{\"b\":1,\"a\":2}").unwrap();
    assert_eq!(
        doc,
        JsonValue::Object(vec![
            ("a".to_string(), JsonValue::U64(2)),
            ("b".to_string(), JsonValue::U64(1)),
        ])
    );
}

#[test]
fn parse_round_trip() {
    let doc = obj(vec![
        ("entries", JsonValue::Array(vec![
            obj(vec![("name", JsonValue::Str("x \"quoted\"".to_string()))]),
            JsonValue::U64(5),
        ])),
        ("has_more", JsonValue::Boolean(false)),
        ("cursor", JsonValue::Str("".to_string())),
    ]);
    // The keys above are not sorted, so compare against the same value
    // with its members in parse order.
    let parsed = parse_json(&doc.render()).unwrap();
    let expected = obj(vec![
        ("cursor", JsonValue::Str("".to_string())),
        ("entries", JsonValue::Array(vec![
            obj(vec![("name", JsonValue::Str("x \"quoted\"".to_string()))]),
            JsonValue::U64(5),
        ])),
        ("has_more", JsonValue::Boolean(false)),
    ]);
    assert_eq!(parsed, expected);
    // A sorted document comes back exactly as it went out.
    assert_eq!(parse_json(&expected.render()), Some(expected));
}

#[test]
fn get_first_match_wins() {
    let doc = JsonValue::Object(vec![
        ("k".to_string(), JsonValue::U64(1)),
        ("k".to_string(), JsonValue::U64(2)),
        ("other".to_string(), JsonValue::Null),
    ]);
    assert_eq!(doc.get("k"), Some(&JsonValue::U64(1)));
    assert_eq!(doc.get("other"), Some(&JsonValue::Null));
    assert_eq!(doc.get("missing"), None);
    assert_eq!(JsonValue::Null.get("k"), None);
}
