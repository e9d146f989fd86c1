use woosh_viewer::json::{parse_json, Json};
use woosh_viewer::text::{
    ascii_lower_text, clip_text, decimal_text, parse_u16, same_text, starts_with_text, trim_text,
};

#[test]
fn documents_are_read_and_written() {
    let text = r#"{"a":[1,-2.5,true,null],"b":"x\"\n去"}"#;
    let document = parse_json(text).unwrap();
    assert_eq!(document.to_text(), text);
    assert_eq!(document.duplicate().to_text(), text);
    assert_eq!(document.get("b").unwrap().as_text(), Some("x\"\n去"));
    let items = document.get("a").unwrap().as_items().unwrap();
    assert_eq!(items[0].as_unsigned(), Some(1));
    assert_eq!(items[1].as_unsigned(), None);
    assert_eq!(items[1].as_double().unwrap().bits, (-2.5f64).to_bits());
    assert_eq!(items[2].as_flag(), Some(true));
    assert!(items[3].is_null());
    assert!(document.get("c").is_none());
    assert!(document.get2("b", "c").is_none());
}

#[test]
fn written_documents_are_those_of_the_outside_crate() {
    let text = r#" {"z": 1.0, "a": {"k": [ ]}, "n": 18446744073709551615, "e": 1e30, "c": "\u0001\u007f/" } "#;
    let document = parse_json(text).unwrap();
    let value: serde_json::Value = serde_json::from_str(text).unwrap();
    assert_eq!(document.to_text(), value.to_string());
}

#[test]
fn texts_are_escaped() {
    let all: String = (0u32..0x80).filter_map(char::from_u32).collect();
    let mut expected = String::from("\"");
    for n in 0u32..0x80 {
        match n {
            8 => expected.push_str("\\b"),
            9 => expected.push_str("\\t"),
            10 => expected.push_str("\\n"),
            12 => expected.push_str("\\f"),
            13 => expected.push_str("\\r"),
            34 => expected.push_str("\\\""),
            92 => expected.push_str("\\\\"),
            0..=31 => expected.push_str(&format!("\\u{n:04x}")),
            _ => expected.push(char::from_u32(n).unwrap()),
        }
    }
    expected.push('"');
    assert_eq!(Json::Text(all).to_text(), expected);
    assert_eq!(Json::Text("去\u{80}\u{2028}".to_owned()).to_text(), "\"去\u{80}\u{2028}\"");
}

#[test]
fn nested_documents_keep_their_order() {
    let document = parse_json(r#"[[1,[2]],{"k":{"l":[3,{"m":4}]}}]"#).unwrap();
    assert_eq!(document.to_text(), r#"[[1,[2]],{"k":{"l":[3,{"m":4}]}}]"#);
}

#[test]
fn what_is_no_document_is_an_error() {
    assert!(parse_json("").is_err());
    assert!(parse_json("{").is_err());
    assert!(parse_json("{} x").is_err());
}

#[test]
fn the_last_member_of_a_name_counts() {
    let document = Json::object(vec![
        ("a".to_owned(), Json::Bool(true)),
        ("a".to_owned(), Json::Bool(false)),
    ]);
    assert_eq!(document.get("a").unwrap().as_flag(), Some(false));
}

#[test]
fn small_operations_on_text() {
    assert_eq!(trim_text(" \u{3000}a b\t\n"), "a b");
    assert_eq!(trim_text(" \u{a0} "), "");
    assert_eq!(clip_text("去电梯门口", 2), "去电");
    assert_eq!(clip_text("abc", 8), "abc");
    assert_eq!(ascii_lower_text("ÄBc"), "Äbc");
    assert_eq!(decimal_text(0), "0");
    assert_eq!(decimal_text(u64::MAX), "18446744073709551615");
    assert!(same_text("去", "去"));
    assert!(!same_text("去", "来"));
    assert!(starts_with_text("https://x", "https://"));
    assert!(!starts_with_text("http", "http://"));
}

#[test]
fn ports_are_numbers_of_sixteen_bits() {
    assert_eq!(parse_u16("65535"), Some(65535));
    assert_eq!(parse_u16("65536"), None);
    assert_eq!(parse_u16("+80"), Some(80));
    assert_eq!(parse_u16("00080"), Some(80));
    assert_eq!(parse_u16("-1"), None);
    assert_eq!(parse_u16(""), None);
    assert_eq!(parse_u16("+"), None);
    assert_eq!(parse_u16(" 80"), None);
    assert_eq!(parse_u16("99999999999999999999"), None);
}
