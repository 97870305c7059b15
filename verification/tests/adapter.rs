use toml_body::record::Record;
use toml_body::rejection::TomlRejection;

const TOML_MIME: &str = "application/toml";
const TEXT_UTF8_MIME: &str = "text/plain; charset=utf-8";

#[test]
fn valid_parse() {
    let body = "name = \"a\"\nvalue = 1\n".as_bytes().to_vec();
    let rec = Record::from_toml_body(body).unwrap();
    assert_eq!(rec.name, "a");
    assert_eq!(rec.value, 1);
}

#[test]
fn successful_encode() {
    let rec = Record {
        name: "a".to_string(),
        value: 1,
    };
    let resp = rec.to_toml_response();
    assert_eq!(resp.status, 200);
    assert_eq!(resp.content_type, TOML_MIME);
    let back = Record::from_toml_body(resp.body.into_bytes()).unwrap();
    assert_eq!(back.name, "a");
    assert_eq!(back.value, 1);
}

#[test]
fn round_trip() {
    let cases: Vec<(&str, i64)> = vec![
        ("a", 1),
        ("", 0),
        ("hello world", -7),
        ("quote \" and backslash \\", i64::MAX),
        ("line\nbreak", i64::MIN),
        ("unicode \u{00e9}\u{4e16}", 42),
    ];
    for (name, value) in cases {
        let rec = Record {
            name: name.to_string(),
            value,
        };
        let resp = rec.to_toml_response();
        assert_eq!(resp.status, 200);
        let back = Record::from_toml_body(resp.body.into_bytes()).unwrap();
        assert_eq!(back.name, name);
        assert_eq!(back.value, value);
    }
}

#[test]
fn utf8_rejection() {
    let rej = Record::from_toml_body(vec![0xFF, 0xFE]).unwrap_err();
    assert!(matches!(rej, TomlRejection::InvalidUtf8));
    let resp = rej.into_response();
    assert_eq!(resp.status, 400);
    assert_eq!(resp.content_type, TEXT_UTF8_MIME);
    assert_eq!(resp.body, "Request body didn't contain valid UTF-8");
}

#[test]
fn malformed_syntax_rejection() {
    let rej = Record::from_toml_body("key = ".as_bytes().to_vec()).unwrap_err();
    assert!(matches!(rej, TomlRejection::Deserialization(_)));
    let resp = rej.into_response();
    assert_eq!(resp.status, 400);
    assert_eq!(resp.content_type, TEXT_UTF8_MIME);
    assert!(!resp.body.is_empty());
}

#[test]
fn missing_name_rejected() {
    let rej = Record::from_toml_body("value = 1\n".as_bytes().to_vec()).unwrap_err();
    match rej {
        TomlRejection::Deserialization(msg) => {
            assert_eq!(msg, "missing or invalid field `name`");
        }
        _ => panic!("expected a deserialization rejection"),
    }
}

#[test]
fn missing_value_rejected() {
    let rej = Record::from_toml_body("name = \"a\"\n".as_bytes().to_vec()).unwrap_err();
    match rej {
        TomlRejection::Deserialization(msg) => {
            assert_eq!(msg, "missing or invalid field `value`");
        }
        _ => panic!("expected a deserialization rejection"),
    }
}

#[test]
fn wrong_shape_rejected() {
    // A name that is not a string, and a value that is not an integer.
    let rej = Record::from_toml_body("name = 3\nvalue = 1\n".as_bytes().to_vec()).unwrap_err();
    assert!(matches!(rej, TomlRejection::Deserialization(_)));
    let rej = Record::from_toml_body("name = \"a\"\nvalue = \"x\"\n".as_bytes().to_vec())
        .unwrap_err();
    assert!(matches!(rej, TomlRejection::Deserialization(_)));
}

#[test]
fn unknown_fields_ignored() {
    let body = "name = \"a\"\nvalue = 1\nextra = true\n".as_bytes().to_vec();
    let rec = Record::from_toml_body(body).unwrap();
    assert_eq!(rec.name, "a");
    assert_eq!(rec.value, 1);
}

#[test]
fn empty_body_rejected() {
    let rej = Record::from_toml_body(Vec::new()).unwrap_err();
    match rej {
        TomlRejection::Deserialization(msg) => {
            assert_eq!(msg, "missing or invalid field `name`");
        }
        _ => panic!("expected a deserialization rejection"),
    }
}

#[test]
fn content_type_correctness() {
    // Success carries the format's media type.
    let rec = Record {
        name: "a".to_string(),
        value: 1,
    };
    assert_eq!(rec.to_toml_response().content_type, TOML_MIME);
    // Every rejection response carries the plain-text media type.
    let utf8 = Record::from_toml_body(vec![0xFF]).unwrap_err();
    assert_eq!(utf8.into_response().content_type, TEXT_UTF8_MIME);
    let syntax = Record::from_toml_body("key = ".as_bytes().to_vec()).unwrap_err();
    assert_eq!(syntax.into_response().content_type, TEXT_UTF8_MIME);
    let shape = Record::from_toml_body("value = 1\n".as_bytes().to_vec()).unwrap_err();
    assert_eq!(shape.into_response().content_type, TEXT_UTF8_MIME);
}

#[test]
fn extreme_values_parse() {
    let body = format!("name = \"b\"\nvalue = {}\n", i64::MIN).into_bytes();
    let rec = Record::from_toml_body(body).unwrap();
    assert_eq!(rec.value, i64::MIN);
    let body = format!("name = \"b\"\nvalue = {}\n", i64::MAX).into_bytes();
    let rec = Record::from_toml_body(body).unwrap();
    assert_eq!(rec.value, i64::MAX);
}
