use request_items::body::{Body, BodyError, Method, Part, RequestItems, RequestType};
use request_items::headers::HeaderError;
use request_items::item::RequestItem;

fn items(tokens: &[&str]) -> RequestItems {
    RequestItems::new(tokens.iter().map(|t| t.parse::<RequestItem>().unwrap()).collect())
}

fn no_files(n: usize) -> Vec<Result<String, String>> {
    vec![Ok(String::new()); n]
}

#[test]
fn json_mode_refuses_keyed_file_field() {
    let r = items(&["a=b", "f@x.png"]).body(RequestType::Json, &no_files(2));
    assert!(matches!(r, Err(BodyError::FileFieldInJson)));
}

#[test]
fn multipart_mode_makes_text_and_file_parts() {
    let r = items(&["a=b", "f@x.png"]).body(RequestType::Multipart, &no_files(2)).unwrap();
    assert_eq!(
        r,
        Body::Multipart(vec![
            Part::Text("a".into(), "b".into()),
            Part::File { name: "f".into(), file_name: "x.png".into(), file_type: None },
        ])
    );
    assert!(r.is_multipart());
    assert!(!r.is_empty());
    assert_eq!(r.pick_method(), Method::Post);
}

#[test]
fn assembling_copies_gives_equal_bodies() {
    let items_a = items(&["a=b", "n:=[1]", "h:v", "q==r"]);
    let items_b = RequestItems::new(items_a.0.clone());
    let texts = no_files(4);
    let first = items_a.body(RequestType::Json, &texts).unwrap();
    let second = items_b.body(RequestType::Json, &texts).unwrap();
    assert_eq!(first, second);
}

#[test]
fn json_body_later_keys_replace_earlier() {
    let r = items(&["a=1", "b:=2", "a=3", "h:v"]).body(RequestType::Json, &no_files(4)).unwrap();
    let mut expected = serde_json::Map::new();
    expected.insert("a".into(), serde_json::Value::String("3".into()));
    expected.insert("b".into(), serde_json::Value::from(2));
    assert_eq!(r, Body::Json(expected));
}

#[test]
fn json_body_reads_file_values() {
    let texts = vec![Ok("text\n".to_string()), Ok("[1, 2]".to_string())];
    let r = items(&["a=@a.txt", "b:=@b.json"]).body(RequestType::Json, &texts).unwrap();
    let mut expected = serde_json::Map::new();
    expected.insert("a".into(), serde_json::Value::String("text\n".into()));
    expected.insert(
        "b".into(),
        serde_json::Value::Array(vec![serde_json::Value::from(1), serde_json::Value::from(2)]),
    );
    assert_eq!(r, Body::Json(expected));
}

#[test]
fn json_file_that_is_not_json() {
    let texts = vec![Ok("nope".to_string())];
    let r = items(&["b:=@b.json"]).body(RequestType::Json, &texts);
    assert!(matches!(r, Err(BodyError::InvalidJsonFile(p, t, _)) if p == "b.json" && t == "nope"));
}

#[test]
fn unreadable_file_names_its_path() {
    let texts = vec![Err("no such file".to_string())];
    let r = items(&["a=@missing.txt"]).body(RequestType::Form, &texts);
    assert!(matches!(r, Err(BodyError::Read(p, why)) if p == "missing.txt" && why == "no such file"));
}

#[test]
fn empty_json_body_is_empty() {
    let r = items(&["h:v", "q==r"]).body(RequestType::Json, &no_files(2)).unwrap();
    assert!(r.is_empty());
    assert_eq!(r.pick_method(), Method::Get);
}

#[test]
fn form_body_keeps_order_and_duplicates() {
    let texts = vec![Ok(String::new()), Ok("file text".to_string()), Ok(String::new())];
    let r = items(&["a=1", "b=@b.txt", "a=2"]).body(RequestType::Form, &texts).unwrap();
    assert_eq!(
        r,
        Body::Form(vec![
            ("a".into(), "1".into()),
            ("b".into(), "file text".into()),
            ("a".into(), "2".into()),
        ])
    );
}

#[test]
fn form_refuses_json() {
    let r = items(&["a:=1"]).body(RequestType::Form, &no_files(1));
    assert!(matches!(r, Err(BodyError::JsonInForm)));
}

#[test]
fn multipart_refuses_json() {
    let r = items(&["a:=@x"]).body(RequestType::Multipart, &no_files(1));
    assert!(matches!(r, Err(BodyError::JsonInMultipart)));
}

#[test]
fn form_with_files_becomes_multipart() {
    let it = items(&["f@x.txt;type=text/plain"]);
    assert!(it.is_multipart(RequestType::Form));
    let r = it.body(RequestType::Form, &no_files(1)).unwrap();
    assert_eq!(
        r,
        Body::Multipart(vec![Part::File {
            name: "f".into(),
            file_name: "x.txt".into(),
            file_type: Some("text/plain".into()),
        }])
    );
}

#[test]
fn whole_body_file_guesses_its_type() {
    let r = items(&["@photo.png", "h:v"]).body(RequestType::Json, &no_files(2)).unwrap();
    assert_eq!(
        r,
        Body::File { file_name: "photo.png".into(), file_type: Some("image/png".into()) }
    );
}

#[test]
fn whole_body_file_declared_type_wins() {
    let r = items(&["@photo.png;type=text/x"]).body(RequestType::Json, &no_files(1)).unwrap();
    assert_eq!(r, Body::File { file_name: "photo.png".into(), file_type: Some("text/x".into()) });
}

#[test]
fn whole_body_file_without_known_type() {
    let r = items(&["@data"]).body(RequestType::Json, &no_files(1)).unwrap();
    assert_eq!(r, Body::File { file_name: "data".into(), file_type: None });
}

#[test]
fn whole_body_file_bad_type() {
    let r = items(&["@data;type=a\u{7f}b"]).body(RequestType::Json, &no_files(1));
    assert!(matches!(r, Err(BodyError::InvalidFileType(t)) if t == "a\u{7f}b"));
}

#[test]
fn whole_body_file_mixed_with_data() {
    let r = items(&["@data", "a=b"]).body(RequestType::Json, &no_files(2));
    assert!(matches!(r, Err(BodyError::MixedBodyFile)));
}

#[test]
fn two_whole_body_files() {
    let r = items(&["@a", "@b"]).body(RequestType::Json, &no_files(2));
    assert!(matches!(r, Err(BodyError::MultipleBodyFiles)));
}

#[test]
fn multipart_matrix() {
    let plain = items(&["a=b"]);
    assert!(plain.is_multipart(RequestType::Multipart));
    assert!(!plain.is_multipart(RequestType::Form));
    assert!(!plain.is_multipart(RequestType::Json));
    assert!(!items(&["@f"]).is_multipart(RequestType::Json));
}

#[test]
fn method_from_items() {
    assert_eq!(items(&["h:v", "q==r", "u:"]).pick_method(RequestType::Json), Method::Get);
    assert_eq!(items(&["h:v"]).pick_method(RequestType::Multipart), Method::Post);
    assert_eq!(items(&["h:v", "a=b"]).pick_method(RequestType::Form), Method::Post);
    assert_eq!(items(&["f@x"]).pick_method(RequestType::Json), Method::Post);
    assert_eq!(items(&[]).pick_method(RequestType::Json), Method::Get);
}

#[test]
fn query_keeps_order_and_duplicates() {
    let it = items(&["a==1", "h:v", "b==2", "a==3"]);
    assert_eq!(it.query(), vec![("a", "1"), ("b", "2"), ("a", "3")]);
}

#[test]
fn headers_set_and_unset() {
    let it = items(&["X-A:1", "x-a:2", "Accept:", "Empty;"]);
    let (map, unset) = it.headers().unwrap();
    assert_eq!(map.len(), 2);
    assert_eq!(map.get("x-a").unwrap(), "2");
    assert_eq!(map.get("empty").unwrap(), "");
    assert_eq!(unset.len(), 1);
    assert_eq!(unset[0].as_str(), "accept");
}

#[test]
fn headers_bad_name() {
    let it = items(&["bad name:1"]);
    assert_eq!(it.headers().unwrap_err(), HeaderError::InvalidName("bad name".into()));
}

#[test]
fn headers_bad_value() {
    let it = items(&["a:x\u{7f}"]);
    assert_eq!(it.headers().unwrap_err(), HeaderError::InvalidValue("x\u{7f}".into()));
}

#[test]
fn content_types() {
    assert_eq!(request_items::body::FORM_CONTENT_TYPE, "application/x-www-form-urlencoded");
    assert_eq!(request_items::body::JSON_CONTENT_TYPE, "application/json");
    assert_eq!(request_items::body::JSON_ACCEPT, "application/json, */*;q=0.5");
}
