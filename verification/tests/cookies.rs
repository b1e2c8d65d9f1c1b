use jwxt_client::cookies::{parse_set_cookie, CookieJar};

#[test]
fn header_value_empty_without_cookies() {
    let jar = CookieJar::new();
    assert_eq!(jar.header_value("jwxt.sit.edu.cn"), "");
}

#[test]
fn header_value_last_write_wins() {
    let mut jar = CookieJar::new();
    jar.ingest(
        "jwxt.sit.edu.cn",
        &vec![("a".to_string(), "1".to_string())],
    );
    jar.ingest(
        "jwxt.sit.edu.cn",
        &vec![("a".to_string(), "2".to_string())],
    );
    let header = jar.header_value("jwxt.sit.edu.cn");
    assert_eq!(header, "a=2");
    assert_eq!(header.matches("a=").count(), 1);
}

#[test]
fn header_value_keeps_insertion_order() {
    let mut jar = CookieJar::new();
    jar.ingest(
        "jwxt.sit.edu.cn",
        &vec![
            ("a".to_string(), "1".to_string()),
            ("b".to_string(), "2".to_string()),
        ],
    );
    jar.ingest(
        "jwxt.sit.edu.cn",
        &vec![("c".to_string(), "3".to_string())],
    );
    assert_eq!(jar.header_value("jwxt.sit.edu.cn"), "a=1; b=2; c=3");
}

#[test]
fn header_value_never_mixes_hosts() {
    let mut jar = CookieJar::new();
    jar.ingest("a.example", &vec![("x".to_string(), "1".to_string())]);
    jar.ingest("b.example", &vec![("y".to_string(), "2".to_string())]);
    assert_eq!(jar.header_value("a.example"), "x=1");
    assert_eq!(jar.header_value("b.example"), "y=2");
    assert_eq!(jar.header_value("c.example"), "");
}

#[test]
fn overwrite_keeps_first_seen_position() {
    let mut jar = CookieJar::new();
    jar.ingest(
        "h",
        &vec![
            ("a".to_string(), "1".to_string()),
            ("b".to_string(), "2".to_string()),
        ],
    );
    jar.ingest("h", &vec![("a".to_string(), "9".to_string())]);
    assert_eq!(jar.header_value("h"), "a=9; b=2");
}

#[test]
fn set_cookie_line_splits_name_and_value() {
    let parsed = parse_set_cookie("JSESSIONID=abc123; Path=/; HttpOnly");
    assert_eq!(
        parsed,
        Some(("JSESSIONID".to_string(), "abc123".to_string()))
    );
}

#[test]
fn set_cookie_line_without_attributes() {
    assert_eq!(
        parse_set_cookie("k=v"),
        Some(("k".to_string(), "v".to_string()))
    );
}

#[test]
fn set_cookie_line_without_equals_carries_nothing() {
    assert_eq!(parse_set_cookie("garbage"), None);
    assert_eq!(parse_set_cookie("=v"), None);
}
