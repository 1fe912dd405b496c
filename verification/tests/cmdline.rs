use isorelay::cmdline::{parse_key_val, KeyValError};

fn pair(k: &str, v: &str) -> Result<(String, String), KeyValError> {
    Ok((k.to_string(), v.to_string()))
}

#[test]
fn key_and_value_are_split_at_the_equals_sign() {
    assert_eq!(parse_key_val("ID=svc1"), pair("ID", "svc1"));
}

#[test]
fn only_the_first_equals_sign_splits() {
    assert_eq!(parse_key_val("a=b=c"), pair("a", "b=c"));
    assert_eq!(parse_key_val("a=="), pair("a", "="));
}

#[test]
fn key_or_value_may_be_empty() {
    assert_eq!(parse_key_val("=v"), pair("", "v"));
    assert_eq!(parse_key_val("k="), pair("k", ""));
    assert_eq!(parse_key_val("="), pair("", ""));
}

#[test]
fn split_counts_characters_not_bytes() {
    assert_eq!(parse_key_val("clé=värde"), pair("clé", "värde"));
}

#[test]
fn argument_without_equals_sign_is_refused() {
    assert_eq!(parse_key_val("IDsvc1"), Err(KeyValError { input: "IDsvc1".to_string() }));
    assert_eq!(parse_key_val(""), Err(KeyValError { input: String::new() }));
}

#[test]
fn refusal_quotes_the_argument() {
    let err = parse_key_val("oops").unwrap_err();
    assert_eq!(err.message(), "invalid KEY=value: no `=` found in `oops`");
}

#[test]
fn split_parts_join_back_to_the_argument() {
    for arg in ["a=b", "=", "x=y=z", "path=/tmp/$ID.sock", "k=v "] {
        let (k, v) = parse_key_val(arg).unwrap();
        assert!(!k.contains('='));
        assert_eq!(format!("{}={}", k, v), arg);
    }
}
