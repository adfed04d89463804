use request_items::item::{ParseError, RequestItem};
use request_items::item::RequestItem::{
    DataField, DataFieldFromFile, FormFile, HttpHeader, HttpHeaderToUnset, JsonField,
    JsonFieldFromFile, UrlParam,
};

fn parse(text: &str) -> RequestItem {
    text.parse().unwrap()
}

fn json_array(values: Vec<i64>) -> serde_json::Value {
    serde_json::Value::Array(values.into_iter().map(serde_json::Value::from).collect())
}

#[test]
fn request_item_parsing() {
    // Data field
    assert_eq!(parse("foo=bar"), DataField("foo".into(), "bar".into()));
    // Data field from file
    assert_eq!(
        parse("foo=@data.json"),
        DataFieldFromFile("foo".into(), "data.json".into())
    );
    // URL param
    assert_eq!(parse("foo==bar"), UrlParam("foo".into(), "bar".into()));
    // Escaped right before separator
    assert_eq!(parse(r"foo\==bar"), DataField("foo=".into(), "bar".into()));
    // Header
    assert_eq!(parse("foo:bar"), HttpHeader("foo".into(), "bar".into()));
    // JSON field
    assert_eq!(parse("foo:=[1,2]"), JsonField("foo".into(), json_array(vec![1, 2])));
    // JSON field from file
    assert_eq!(
        parse("foo:=@data.json"),
        JsonFieldFromFile("foo".into(), "data.json".into())
    );
    // Bad JSON field
    "foo:=bar".parse::<RequestItem>().unwrap_err();
    // Can't escape normal chars
    assert_eq!(
        parse(r"f\o\o=\ba\r"),
        DataField(r"f\o\o".into(), r"\ba\r".into()),
    );
    // Can escape special chars
    assert_eq!(
        parse(r"f\=\:\@\;oo=b\:\:\:ar"),
        DataField("f=:@;oo".into(), "b:::ar".into()),
    );
    // Unset header
    assert_eq!(parse("foobar:"), HttpHeaderToUnset("foobar".into()));
    // Empty header
    assert_eq!(parse("foobar;"), HttpHeader("foobar".into(), "".into()));
    // Untyped file
    assert_eq!(
        parse("foo@bar"),
        FormFile {
            key: "foo".into(),
            file_name: "bar".into(),
            file_type: None
        }
    );
    // Typed file
    assert_eq!(
        parse("foo@bar;type=qux"),
        FormFile {
            key: "foo".into(),
            file_name: "bar".into(),
            file_type: Some("qux".into())
        },
    );
    // Multi-typed file
    assert_eq!(
        parse("foo@bar;type=qux;type=qux"),
        FormFile {
            key: "foo".into(),
            file_name: "bar;type=qux".into(),
            file_type: Some("qux".into())
        },
    );
    // Empty filename
    assert_eq!(
        parse("foo@"),
        FormFile {
            key: "foo".into(),
            file_name: "".into(),
            file_type: None
        }
    );
    // No separator
    "foobar".parse::<RequestItem>().unwrap_err();
    "".parse::<RequestItem>().unwrap_err();
    // Trailing backslash
    assert_eq!(parse(r"foo=bar\"), DataField("foo".into(), r"bar\".into()));
    // Escaped backslash
    assert_eq!(parse(r"foo\\=bar"), DataField(r"foo\".into(), "bar".into()),);
    // Unicode
    assert_eq!(
        parse("\u{00B5}=\u{00B5}"),
        DataField("\u{00B5}".into(), "\u{00B5}".into()),
    );
    // Empty
    assert_eq!(parse("="), DataField("".into(), "".into()));
}

#[test]
fn empty_header_takes_unescaped_name() {
    assert_eq!(parse(r"fo\:o;"), HttpHeader("fo:o".into(), "".into()));
    assert_eq!(parse(r"foo\\;"), HttpHeader(r"foo\".into(), "".into()));
}

#[test]
fn protected_trailing_semicolon_is_a_syntax_error() {
    assert!(matches!(RequestItem::parse(r"foo\;"), Err(ParseError::Syntax(t)) if t == r"foo\;"));
}

#[test]
fn syntax_errors_keep_the_token() {
    assert!(matches!(RequestItem::parse("foobar"), Err(ParseError::Syntax(t)) if t == "foobar"));
    assert!(matches!(RequestItem::parse(""), Err(ParseError::Syntax(t)) if t.is_empty()));
}

#[test]
fn invalid_json_is_a_json_error() {
    assert!(matches!(
        RequestItem::parse("foo:=bar"),
        Err(ParseError::InvalidJson(t, _)) if t == "foo:=bar"
    ));
}

#[test]
fn compound_separators_win_at_one_position() {
    assert_eq!(parse("a:=1"), JsonField("a".into(), serde_json::Value::from(1)));
    assert_eq!(parse("a:=@x"), JsonFieldFromFile("a".into(), "x".into()));
    assert_eq!(parse("a=@x"), DataFieldFromFile("a".into(), "x".into()));
    assert_eq!(parse("a:b=c"), HttpHeader("a".into(), "b=c".into()));
}

#[test]
fn json_object_value() {
    let mut expected = serde_json::Map::new();
    expected.insert("x".into(), serde_json::Value::Bool(true));
    assert_eq!(
        parse(r#"a:={"x":true}"#),
        JsonField("a".into(), serde_json::Value::Object(expected))
    );
}
