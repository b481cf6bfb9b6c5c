use tileworld::json::{str_eq, Json};

#[test]
fn parse_reads_a_number() {
    let parsed = Json::parse(b"42");
    assert_eq!(parsed, Some(Json::Natural(42)));
}

#[test]
fn parse_refuses_broken_text() {
    assert!(Json::parse(b"{\"a\": ").is_none());
    assert!(Json::parse(b"").is_none());
    assert!(Json::parse(b"1 2").is_none());
}

#[test]
fn parse_tells_the_kinds_of_number_apart() {
    assert_eq!(Json::parse(b"0"), Some(Json::Natural(0)));
    assert_eq!(Json::parse(b"18446744073709551615"), Some(Json::Natural(u64::MAX)));
    assert_eq!(Json::parse(b"-7"), Some(Json::Negative(-7)));
    assert_eq!(Json::parse(b"1.5"), Some(Json::Real(String::from("1.5"))));
    assert_eq!(Json::parse(b"1.0"), Some(Json::Real(String::from("1.0"))));
}

#[test]
fn parse_reads_the_plain_values() {
    assert_eq!(Json::parse(b"null"), Some(Json::Null));
    assert_eq!(Json::parse(b"true"), Some(Json::Bool(true)));
    assert_eq!(Json::parse(b"\"tile\""), Some(Json::Text(String::from("tile"))));
}

#[test]
fn parse_reads_arrays_in_order() {
    let parsed = Json::parse(b"[1, \"two\", [3]]");
    let expected = Json::Array(vec![
        Json::Natural(1),
        Json::Text(String::from("two")),
        Json::Array(vec![Json::Natural(3)]),
    ]);
    assert_eq!(parsed, Some(expected));
}

#[test]
fn parse_reads_objects_member_by_member() {
    let parsed = Json::parse(b"{\"b\": 2, \"a\": {\"c\": null}}").unwrap();
    assert_eq!(parsed.member("b"), Some(&Json::Natural(2)));
    assert_eq!(
        parsed.member("a"),
        Some(&Json::Object(vec![(String::from("c"), Json::Null)]))
    );
    assert_eq!(parsed.member("c"), None);
}

#[test]
fn a_repeated_key_keeps_its_last_value() {
    let parsed = Json::parse(b"{\"a\": 1, \"a\": 2}").unwrap();
    assert_eq!(parsed.member("a"), Some(&Json::Natural(2)));
}

#[test]
fn member_of_a_value_that_is_no_object_is_none() {
    assert_eq!(Json::Natural(1).member("a"), None);
    assert_eq!(Json::Array(vec![]).member("a"), None);
}

#[test]
fn member_finds_the_first_entry_with_the_key() {
    let object = Json::Object(vec![
        (String::from("k"), Json::Natural(1)),
        (String::from("k"), Json::Natural(2)),
    ]);
    assert_eq!(object.member("k"), Some(&Json::Natural(1)));
}

#[test]
fn as_u32_takes_numbers_up_to_the_largest() {
    assert_eq!(Json::Natural(0).as_u32(), Some(0));
    assert_eq!(Json::Natural(4294967295).as_u32(), Some(u32::MAX));
    assert_eq!(Json::Natural(4294967296).as_u32(), None);
    assert_eq!(Json::Negative(-1).as_u32(), None);
    assert_eq!(Json::Real(String::from("1.0")).as_u32(), None);
    assert_eq!(Json::Text(String::from("1")).as_u32(), None);
}

#[test]
fn accessors_answer_by_kind() {
    let text = Json::Text(String::from("x"));
    assert_eq!(text.as_text(), Some(&String::from("x")));
    assert_eq!(text.as_bool(), None);
    assert_eq!(text.as_array(), None);
    assert!(!text.is_object());
    assert_eq!(Json::Bool(false).as_bool(), Some(false));
    assert_eq!(Json::Array(vec![Json::Null]).as_array(), Some(&vec![Json::Null]));
    assert!(Json::Object(vec![]).is_object());
}

#[test]
fn field_readers_need_the_right_shape() {
    let object = Json::parse(b"{\"n\": 3, \"s\": \"x\", \"b\": true, \"a\": [1]}").unwrap();
    assert_eq!(object.u32_at("n"), Some(3));
    assert_eq!(object.u32_at("s"), None);
    assert_eq!(object.u32_at("missing"), None);
    assert_eq!(object.text_at("s"), Some(String::from("x")));
    assert_eq!(object.text_at("n"), None);
    assert_eq!(object.bool_at("b"), Some(true));
    assert_eq!(object.bool_at("n"), None);
    assert_eq!(object.array_at("a"), Some(&vec![Json::Natural(1)]));
    assert_eq!(object.array_at("b"), None);
}

#[test]
fn clone_copies_the_whole_tree() {
    let tree = Json::parse(b"{\"a\": [1, -2, 3.5, \"x\", null, true, {\"b\": []}]}").unwrap();
    let copy = tree.clone();
    assert_eq!(copy, tree);
}

#[test]
fn str_eq_compares_characters() {
    assert!(str_eq("", ""));
    assert!(str_eq("tilelayer", "tilelayer"));
    assert!(!str_eq("tilelayer", "tilelayers"));
    assert!(!str_eq("abc", "abd"));
    assert!(str_eq("h\u{e9}", "h\u{e9}"));
    assert!(!str_eq("h\u{e9}", "he"));
}
