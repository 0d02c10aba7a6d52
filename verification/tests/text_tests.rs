use time_mcp_server::json::{Json, JsonObject, Member};
use time_mcp_server::text::{
    decimal_string, join, parse_i64, parse_u16, push_padded, starts_with, str_eq,
};

#[test]
fn test_str_eq_compares_characters() {
    assert!(str_eq("UTC", "UTC"));
    assert!(!str_eq("UTC", "utc"));
    assert!(!str_eq("UTC", "UT"));
    assert!(str_eq("", ""));
    assert!(str_eq("Zürich", "Zürich"));
    assert!(!str_eq("Zürich", "Zurich"));
}

#[test]
fn test_starts_with_is_literal_and_case_sensitive() {
    assert!(starts_with("America/New_York", "America"));
    assert!(!starts_with("America/New_York", "america"));
    assert!(starts_with("Europe/London", ""));
    assert!(!starts_with("Asia", "Asia/Tokyo"));
    assert!(!starts_with("America/New_York", "Amer*"));
    assert!(starts_with("日本/東京", "日本"));
}

#[test]
fn test_parse_i64_reads_signed_decimals() {
    assert_eq!(parse_i64("0"), Some(0));
    assert_eq!(parse_i64("-0"), Some(0));
    assert_eq!(parse_i64("+42"), Some(42));
    assert_eq!(parse_i64("-42"), Some(-42));
    assert_eq!(parse_i64("007"), Some(7));
    assert_eq!(parse_i64("9223372036854775807"), Some(i64::MAX));
    assert_eq!(parse_i64("-9223372036854775808"), Some(i64::MIN));
}

#[test]
fn test_parse_i64_refuses_everything_else() {
    assert_eq!(parse_i64(""), None);
    assert_eq!(parse_i64("+"), None);
    assert_eq!(parse_i64("-"), None);
    assert_eq!(parse_i64("9223372036854775808"), None);
    assert_eq!(parse_i64("-9223372036854775809"), None);
    assert_eq!(parse_i64("12a"), None);
    assert_eq!(parse_i64(" 12"), None);
    assert_eq!(parse_i64("1.5"), None);
    assert_eq!(parse_i64("--1"), None);
    assert_eq!(parse_i64("١٢"), None);
}

#[test]
fn test_parse_i64_agrees_with_the_standard_library() {
    let samples = [
        "0", "1", "-1", "+1", "00", "-00", "+", "-", "", "12345678901234567890", "1e3", "0x10",
        "9223372036854775807", "9223372036854775808", "-9223372036854775808", "٣", "1 ", "+-1",
    ];
    for sample in samples {
        assert_eq!(parse_i64(sample), sample.parse::<i64>().ok(), "for {:?}", sample);
        assert_eq!(parse_u16(sample), sample.parse::<u16>().ok(), "for {:?}", sample);
    }
}

#[test]
fn test_parse_u16_reads_port_numbers() {
    assert_eq!(parse_u16("8080"), Some(8080));
    assert_eq!(parse_u16("+80"), Some(80));
    assert_eq!(parse_u16("65535"), Some(65535));
    assert_eq!(parse_u16("65536"), None);
    assert_eq!(parse_u16("-0"), None);
    assert_eq!(parse_u16("-1"), None);
    assert_eq!(parse_u16("http"), None);
}

#[test]
fn test_decimal_string_writes_what_parse_reads() {
    assert_eq!(decimal_string(0), "0");
    assert_eq!(decimal_string(5400), "5400");
    assert_eq!(decimal_string(-3600), "-3600");
    assert_eq!(decimal_string(i64::MAX), "9223372036854775807");
    assert_eq!(decimal_string(i64::MIN), "-9223372036854775808");
    for n in [-1_000_000_007_i64, -10, -9, 9, 10, 99, 100, 1_234_567_890] {
        assert_eq!(decimal_string(n), n.to_string());
        assert_eq!(parse_i64(&decimal_string(n)), Some(n));
    }
}

#[test]
fn test_two_digits_are_padded() {
    let mut text = String::from("+");
    push_padded(&mut text, 5);
    text.push(':');
    push_padded(&mut text, 30);
    assert_eq!(text, "+05:30");
    for n in [0_u64, 9, 10, 99, 100, 12_345] {
        let mut padded = String::new();
        push_padded(&mut padded, n);
        assert_eq!(padded, format!("{:02}", n));
    }
}

#[test]
fn test_concat_joins() {
    assert_eq!(join("Invalid timezone: ", "Mars/Base"), "Invalid timezone: Mars/Base");
    assert_eq!(join("", ""), "");
}

#[test]
fn test_json_text_is_compact() {
    assert_eq!(Json::Null.to_text(), "null");
    assert_eq!(Json::Bool(true).to_text(), "true");
    assert_eq!(Json::Bool(false).to_text(), "false");
    assert_eq!(Json::Int(-12).to_text(), "-12");
    assert_eq!(Json::Real("1.5e3".to_string()).to_text(), "1.5e3");
    assert_eq!(Json::string("UTC").to_text(), "\"UTC\"");
    assert_eq!(Json::Array(vec![]).to_text(), "[]");
    assert_eq!(Json::Object(vec![]).to_text(), "{}");
    assert_eq!(Json::Array(vec![Json::Int(1), Json::Null, Json::string("a")]).to_text(), "[1,null,\"a\"]");
    let nested = JsonObject::new()
        .with_int("count", 2)
        .with("timezones", Json::strings(&vec!["UTC".to_string(), "GMT".to_string()]))
        .with("inner", JsonObject::new().with_bool("ok", true).into_json())
        .into_json();
    assert_eq!(nested.to_text(), "{\"count\":2,\"timezones\":[\"UTC\",\"GMT\"],\"inner\":{\"ok\":true}}");
}

#[test]
fn test_json_strings_are_escaped() {
    assert_eq!(Json::string("a\"b").to_text(), "\"a\\\"b\"");
    assert_eq!(Json::string("back\\slash").to_text(), "\"back\\\\slash\"");
    assert_eq!(Json::string("line\nbreak\ttab").to_text(), "\"line\\nbreak\\ttab\"");
    assert_eq!(Json::string("\u{1}").to_text(), "\"\\u0001\"");
    assert_eq!(Json::string("Zürich").to_text(), "\"Zürich\"");
    let object = JsonObject::new().with_str("quo\"te", "v").into_json();
    assert_eq!(object.to_text(), "{\"quo\\\"te\":\"v\"}");
}

#[test]
fn test_json_text_reads_back() {
    let document = JsonObject::new()
        .with_str("text", "Help: 'what time is it?'\n\"now\"")
        .with_int("unix", -5)
        .with("list", Json::Array(vec![Json::Bool(false), Json::Null]))
        .into_json();
    let value: serde_json::Value = serde_json::from_str(&document.to_text()).unwrap();
    assert_eq!(value["text"], "Help: 'what time is it?'\n\"now\"");
    assert_eq!(value["unix"], -5);
    assert_eq!(value["list"][0], false);
    assert!(value["list"][1].is_null());
}

#[test]
fn test_json_get_reads_the_first_member_of_an_object() {
    let object = Json::Object(vec![
        Member { key: "a".to_string(), value: Json::Int(1) },
        Member { key: "b".to_string(), value: Json::string("two") },
        Member { key: "a".to_string(), value: Json::Int(3) },
    ]);
    assert_eq!(object.get("a"), Some(&Json::Int(1)));
    assert_eq!(object.get_str("b"), Some("two"));
    assert_eq!(object.get_str("a"), None);
    assert_eq!(object.get("c"), None);
    assert_eq!(Json::Null.get("a"), None);
    assert_eq!(Json::Array(vec![object.clone()]).get("a"), None);
    assert_eq!(Json::string("x").as_str(), Some("x"));
    assert_eq!(Json::Int(1).as_str(), None);
}

#[test]
fn test_json_clone_is_equal() {
    let document = JsonObject::new()
        .with("list", Json::Array(vec![Json::Int(1), Json::Real("2.5".to_string())]))
        .with_str("s", "x")
        .into_json();
    assert_eq!(document.clone(), document);
    assert_eq!(Json::object1("k", Json::Null), Json::Object(vec![Member { key: "k".to_string(), value: Json::Null }]));
}
