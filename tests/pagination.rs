use qa_auth::error::Error;
use qa_auth::pagination::{extract_pagination, parse_i32, Pagination};

fn query(pairs: &[(&str, &str)]) -> Vec<(String, String)> {
    pairs.iter().map(|(k, v)| (k.to_string(), v.to_string())).collect()
}

#[test]
fn missing_offset_is_reported() {
    let e = extract_pagination(&query(&[("limit", "10")])).unwrap_err();
    assert_eq!(e, Error::MissingParameters);
    assert_eq!(e.status_code(), 400);
    assert_eq!(extract_pagination(&query(&[])), Err(Error::MissingParameters));
}

#[test]
fn unparseable_offset_is_reported() {
    let e = extract_pagination(&query(&[("limit", "10"), ("offset", "x")])).unwrap_err();
    assert_eq!(e, Error::ParseError);
    assert_eq!(e.status_code(), 400);
    assert_eq!(extract_pagination(&query(&[("limit", "ten"), ("offset", "0")])), Err(Error::ParseError));
}

#[test]
fn both_parameters_give_a_pagination() {
    let p = extract_pagination(&query(&[("limit", "10"), ("offset", "0")])).unwrap();
    assert_eq!(p, Pagination { limit: Some(10), offset: 0 });
    let p = extract_pagination(&query(&[("offset", "-5"), ("other", "z"), ("limit", "+3")])).unwrap();
    assert_eq!(p, Pagination { limit: Some(3), offset: -5 });
}

#[test]
fn default_pagination_is_empty() {
    assert_eq!(Pagination::default(), Pagination { limit: None, offset: 0 });
}

#[test]
fn integers_parse_like_std() {
    for s in ["0", "7", "-7", "+7", "2147483647", "-2147483648", "007", "", "-", "+", "2147483648",
        "-2147483649", "1 ", " 1", "1x", "99999999999999999999", "--1"] {
        assert_eq!(parse_i32(s), s.parse::<i32>().ok(), "{:?}", s);
    }
}
