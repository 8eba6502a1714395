use file_browser::utils::formatter::{
    format_json, format_ldap, format_ldap_filter, invalid_json, minify_json, replaced_or,
    serialization_error,
};
use file_browser::utils::text::{chars_of, contains_text, decimal, text_le};

#[test]
fn test_format_json() {
    let input = r#"{"name":"test","value":123}"#;
    let result = format_json(input, 2);
    assert!(result.is_ok());
}

#[test]
fn test_format_ldap() {
    let input = "cn=user,ou=users,dc=example,dc=com";
    let result = format_ldap(input);
    assert!(result.contains('\n'));
}

#[test]
fn format_json_indents_by_the_given_width() {
    let input = r#"{"name":"test","list":[1,2]}"#;
    assert_eq!(
        format_json(input, 2).unwrap(),
        "{\n  \"list\": [\n    1,\n    2\n  ],\n  \"name\": \"test\"\n}"
    );
    assert_eq!(format_json(r#"{"a":{"b":1}}"#, 1).unwrap(), "{\n \"a\": {\n  \"b\": 1\n }\n}");
    assert_eq!(format_json(r#"{"a":1}"#, 0).unwrap(), "{\n\"a\": 1\n}");
    assert_eq!(format_json("[]", 4).unwrap(), "[]");
}

#[test]
fn format_json_refuses_what_is_no_json() {
    let error = format_json("{not json", 2).unwrap_err();
    assert!(error.starts_with("Invalid JSON: "), "{}", error);
    assert!(error.len() > "Invalid JSON: ".len());
    assert!(format_json("", 2).is_err());
}

#[test]
fn minify_json_drops_white_space() {
    assert_eq!(
        minify_json("{ \"name\" : \"test\",\n  \"value\" : 123 }").unwrap(),
        r#"{"name":"test","value":123}"#
    );
    assert_eq!(minify_json(" [ 1 , 2 ] ").unwrap(), "[1,2]");
    let error = minify_json("[1,").unwrap_err();
    assert!(error.starts_with("Invalid JSON: "), "{}", error);
}

#[test]
fn error_messages_carry_their_reason() {
    assert_eq!(invalid_json("eof"), "Invalid JSON: eof");
    assert_eq!(serialization_error("odd key"), "Serialization error: odd key");
}

#[test]
fn format_ldap_breaks_names_and_filters() {
    assert_eq!(
        format_ldap("cn=user,ou=users,dc=example,dc=com"),
        "cn=user,\nou=users,\ndc=example,\ndc=com"
    );
    assert_eq!(format_ldap("(a=1)(b=2)"), "(a=1)\n(b=2)\n");
    assert_eq!(format_ldap("(|(a=1)(&(b=2)))"), "(|(a=1)\n(&(b=2)\n)\n)\n");
    assert_eq!(format_ldap("a,1=b, c=d"), "a,1=b, c=d");
    assert_eq!(format_ldap(""), "");
}

#[test]
fn a_refused_replacement_keeps_the_text() {
    assert_eq!(replaced_or("old".to_string(), Some("new".to_string())), "new");
    assert_eq!(replaced_or("old".to_string(), None), "old");
}

#[test]
fn format_ldap_filter_shows_the_nesting() {
    assert_eq!(format_ldap_filter("(a)"), "(a\n)");
    assert_eq!(format_ldap_filter("(|(a=1)(b=2))"), "(\n  |(a=1\n  )(b=2\n  )\n)");
    assert_eq!(format_ldap_filter("(&(x))"), "(\n  &(x\n  )\n)");
    assert_eq!(format_ldap_filter("))"), "\n)\n)");
    assert_eq!(format_ldap_filter("((("), "(((");
    assert_eq!(format_ldap_filter("(((a)))"), "(((a\n    )\n  )\n)");
    assert_eq!(format_ldap_filter(""), "");
    assert_eq!(format_ldap_filter("plain é"), "plain é");
}

#[test]
fn substring_search() {
    assert!(contains_text("hello world", "lo w"));
    assert!(contains_text("hello", ""));
    assert!(contains_text("", ""));
    assert!(contains_text("hello", "hello"));
    assert!(contains_text("aab", "ab"));
    assert!(!contains_text("hello", "hellos"));
    assert!(!contains_text("", "a"));
    assert!(!contains_text("abc", "ac"));
    assert!(contains_text("héllo", "él"));
}

#[test]
fn dictionary_order() {
    assert!(text_le("", ""));
    assert!(text_le("", "a"));
    assert!(!text_le("a", ""));
    assert!(text_le("abc", "abd"));
    assert!(text_le("ab", "abc"));
    assert!(!text_le("abd", "abc"));
    assert!(text_le("Z", "a"));
    assert!(text_le("z", "é"));
    for (a, b) in [("a", "b"), ("é", "z"), ("ab", "a"), ("", "x"), ("日本", "日")] {
        assert_eq!(text_le(a, b), a <= b);
    }
}

#[test]
fn numbers_in_decimal() {
    assert_eq!(decimal(0), "0");
    assert_eq!(decimal(9), "9");
    assert_eq!(decimal(10), "10");
    assert_eq!(decimal(1234567890), "1234567890");
    assert_eq!(decimal(u64::MAX), "18446744073709551615");
}

#[test]
fn characters_of_a_text() {
    assert_eq!(chars_of("aé日"), vec!['a', 'é', '日']);
    assert_eq!(chars_of(""), Vec::<char>::new());
}
