use jwxt_client::parsers::user_profile::parse_profile_page;
use jwxt_client::parsers::ParserError;

fn field(id: &str, text: &str) -> String {
    format!("<div id=\"{}\"><p>{}</p></div>", id, text)
}

const IDS: [&str; 11] = [
    "col_xh",
    "col_xm",
    "col_ywxm",
    "col_xbm",
    "col_zjlxm",
    "col_zjhm",
    "col_csrq",
    "col_mzm",
    "col_jg",
    "col_rxrq",
    "col_xslxdm",
];

fn page_with_all_fields() -> String {
    let mut body = String::from("<html><body>");
    for (i, id) in IDS.iter().enumerate() {
        body.push_str(&field(id, &format!("v{}", i)));
    }
    body.push_str("</body></html>");
    body
}

#[test]
fn profile_with_every_field_resolves() {
    let profile = parse_profile_page(&page_with_all_fields()).unwrap();
    assert_eq!(profile.student_no, "v0");
    assert_eq!(profile.name, "v1");
    assert_eq!(profile.name_eng, "v2");
    assert_eq!(profile.sex, "v3");
    assert_eq!(profile.credential_type, "v4");
    assert_eq!(profile.credential_id, "v5");
    assert_eq!(profile.birth_date, "v6");
    assert_eq!(profile.ethnicity, "v7");
    assert_eq!(profile.hometown, "v8");
    assert_eq!(profile.enrollment_date, "v9");
    assert_eq!(profile.types, "v10");
}

#[test]
fn profile_with_one_field_missing_is_missing_field() {
    // Leave each of the eleven fields out in turn: never a partial record.
    for skipped in 0..IDS.len() {
        let mut body = String::from("<html><body>");
        for (i, id) in IDS.iter().enumerate() {
            if i != skipped {
                body.push_str(&field(id, "x"));
            }
        }
        body.push_str("</body></html>");
        assert_eq!(
            parse_profile_page(&body).unwrap_err(),
            ParserError::MissingField
        );
    }
}

#[test]
fn profile_of_unrelated_markup_is_missing_field() {
    assert_eq!(
        parse_profile_page("<html><body><p>nothing here</p></body></html>").unwrap_err(),
        ParserError::MissingField
    );
}
