use mprisbee_bridge::json::{parse, Double, Entry, Json, JsonNumber};

fn number(line: &str) -> JsonNumber {
    match parse(line) {
        Some(Json::Number(number)) => number,
        other => panic!("not a number: {:?}", other),
    }
}

#[test]
fn every_kind_of_document() {
    assert!(matches!(parse("null"), Some(Json::Null)));
    assert!(matches!(parse("true"), Some(Json::Bool(true))));
    assert!(matches!(parse(" 5 "), Some(Json::Number(_))));
    assert_eq!(parse("\"a\\u00e4\\n\"").unwrap().as_str(), Some("aä\n"));
    assert!(matches!(parse("[1,[]]"), Some(Json::List(items)) if items.len() == 2));
    assert!(matches!(parse("{\"a\":1}"), Some(Json::Object(entries)) if entries.len() == 1));
}

#[test]
fn texts_that_are_no_document() {
    assert!(parse("").is_none());
    assert!(parse("{").is_none());
    assert!(parse("{} {}").is_none());
    assert!(parse("event").is_none());
    assert!(parse("{\"a\":NaN}").is_none());
}

#[test]
fn numbers_as_integers_and_doubles() {
    let three = number("3");
    assert_eq!(three.integer, Some(3));
    assert_eq!(three.double, Some(Double { bits: 3.0f64.to_bits() }));
    let half = number("0.5");
    assert_eq!(half.integer, None);
    assert_eq!(half.double, Some(Double { bits: 0.5f64.to_bits() }));
    assert_eq!(number("1.0").integer, None);
    assert_eq!(number("-9223372036854775808").integer, Some(i64::MIN));
    assert_eq!(number("9223372036854775807").integer, Some(i64::MAX));
    assert_eq!(number("9223372036854775808").integer, None);
    assert_eq!(
        number("9223372036854775808").double,
        Some(Double { bits: 9223372036854775808.0f64.to_bits() })
    );
}

#[test]
fn members_by_name() {
    let json = parse("{\"a\":1,\"b\":\"x\",\"c\":true,\"d\":[\"p\",2,\"q\"],\"e\":0.25}").unwrap();
    assert_eq!(json.integer_field("a"), Some(1));
    assert_eq!(json.text_field("b"), Some("x"));
    assert_eq!(json.flag_field("c"), Some(true));
    assert_eq!(json.strings_field("d"), Some(vec!["p".to_string(), "q".to_string()]));
    assert_eq!(json.double_field("e"), Some(Double { bits: 0.25f64.to_bits() }));
    assert!(json.get("f").is_none());
    assert_eq!(json.text_field("a"), None);
    assert_eq!(json.integer_field("b"), None);
    assert_eq!(json.flag_field("b"), None);
    assert_eq!(json.strings_field("b"), None);
    assert_eq!(json.double_field("b"), None);
}

#[test]
fn only_objects_have_members() {
    assert!(parse("[1]").unwrap().get("0").is_none());
    assert!(parse("\"event\"").unwrap().get("event").is_none());
    assert!(Json::Null.get("event").is_none());
}

#[test]
fn the_later_of_two_members_counts() {
    assert_eq!(parse("{\"a\":1,\"a\":2}").unwrap().integer_field("a"), Some(2));
    let json = Json::Object(vec![
        Entry { name: "a".to_string(), value: Json::Bool(false) },
        Entry { name: "a".to_string(), value: Json::Bool(true) },
    ]);
    assert_eq!(json.flag_field("a"), Some(true));
}
