use jwxt_client::config::login_url;
use jwxt_client::crypto::{encrypt_in_rsa, parse_public_key_response};
use jwxt_client::session::{
    extract_csrf_token, HttpPage, LoginError, LoginPhase, LoginState, Session, SessionBuilder,
};
use rsa::{PaddingScheme, PublicKeyParts, RsaPrivateKey};

#[test]
fn csrf_token_is_extracted_from_the_fixed_markup() {
    let page = "<html><form><input type=\"hidden\" id=\"csrftoken\" name=\"csrftoken\" value=\"tok-123\"/></form></html>";
    assert_eq!(extract_csrf_token(page).unwrap(), "tok-123");
}

#[test]
fn csrf_token_may_be_empty() {
    let page = "<input type=\"hidden\" id=\"csrftoken\" name=\"csrftoken\" value=\"\"/>";
    assert_eq!(extract_csrf_token(page).unwrap(), "");
}

#[test]
fn csrf_token_missing_is_token_not_found() {
    let err = extract_csrf_token("<html>no token here</html>").unwrap_err();
    assert!(matches!(err, LoginError::TokenNotFound));
}

#[test]
fn err_message_is_read_from_the_status_node() {
    let session = SessionBuilder::new().user("u").passwd("p").build();
    let body = "<html><div id=\"home\" class=\"tab-pane in active\">\
                <p id=\"tips\" class=\"bg_danger sl_danger\">bad password</p></div></html>";
    assert_eq!(session.get_err_message(body.to_string()), "bad password");
    assert_eq!(
        session.get_err_message("<html></html>".to_string()),
        "unknown login error"
    );
}

#[test]
fn public_key_response_decodes_base64_material() {
    let body = r#"{"modulus":"AQAB","exponent":"AQ=="}"#;
    let km = parse_public_key_response(body).unwrap();
    assert_eq!(km.modulus, vec![1, 0, 1]);
    assert_eq!(km.exponent, vec![1]);
    assert!(parse_public_key_response(r#"{"modulus":"!!","exponent":"AQ=="}"#).is_none());
    assert!(parse_public_key_response(r#"{"modulus":"AQAB"}"#).is_none());
    assert!(parse_public_key_response("junk").is_none());
}

#[test]
fn rsa_round_trip_recovers_the_plaintext() {
    let mut rng = rand::rngs::OsRng;
    let key = RsaPrivateKey::new(&mut rng, 512).expect("key generation");
    let plaintext = b"attack at dawn".to_vec();
    let ciphertext_b64 = encrypt_in_rsa(
        plaintext.clone(),
        key.n().to_bytes_be(),
        key.e().to_bytes_be(),
    )
    .unwrap();
    let ciphertext = base64::decode(&ciphertext_b64).unwrap();
    assert_eq!(ciphertext.len(), key.n().to_bytes_be().len());
    let recovered = key
        .decrypt(PaddingScheme::new_pkcs1v15_encrypt(), &ciphertext)
        .unwrap();
    assert_eq!(recovered, plaintext);
}

#[test]
fn too_small_key_material_fails_the_encryption_step() {
    let mut session = SessionBuilder::new().user("u").passwd("p").build();
    session.login_begin();
    session.login_home_response(&HttpPage {
        final_url: "http://jwxt.sit.edu.cn".to_string(),
        body: HOME_BODY.to_string(),
        cookies: vec![],
    });
    // "BA==" is the single byte 4: far too small a modulus to pad into.
    session
        .login_key_response(r#"{"modulus":"BA==","exponent":"AQ=="}"#, &vec![])
        .unwrap();
    let err = session.login_encrypt().unwrap_err();
    assert!(matches!(err, LoginError::CryptoError));
    assert!(matches!(session.state, LoginState::Failed(_)));
}

const HOME_BODY: &str = "<html><input type=\"hidden\" id=\"csrftoken\" name=\"csrftoken\" value=\"tok-1\"/></html>";

fn key_body(key: &RsaPrivateKey) -> String {
    format!(
        r#"{{"modulus":"{}","exponent":"{}"}}"#,
        base64::encode(key.n().to_bytes_be()),
        base64::encode(key.e().to_bytes_be())
    )
}

fn run_attempt(key: &RsaPrivateKey, submit_url: &str, submit_body: &str) -> Session {
    let mut session = SessionBuilder::new().user("student1").passwd("hunter2").build();
    session.login_begin();
    session.login_home_response(&HttpPage {
        final_url: "http://jwxt.sit.edu.cn".to_string(),
        body: HOME_BODY.to_string(),
        cookies: vec![("JSESSIONID".to_string(), "abc".to_string())],
    });
    session
        .login_key_response(&key_body(key), &vec![])
        .unwrap();
    session.login_encrypt().unwrap();
    let form = session.login_submit_request().unwrap();
    assert_eq!(form.url, login_url());
    assert_eq!(form.fields.len(), 4);
    assert_eq!(form.fields[0], ("csrftoken".to_string(), "tok-1".to_string()));
    assert_eq!(form.fields[1], ("language".to_string(), "zh_CN".to_string()));
    assert_eq!(form.fields[2], ("yhm".to_string(), "student1".to_string()));
    assert_eq!(form.fields[3].0, "mm");
    assert!(!form.fields[3].1.is_empty());
    let _ = session.login_submit_response(&HttpPage {
        final_url: submit_url.to_string(),
        body: submit_body.to_string(),
        cookies: vec![("route".to_string(), "xyz".to_string())],
    });
    session
}

#[test]
fn accepted_login_authenticates_and_keeps_the_jar() {
    let mut rng = rand::rngs::OsRng;
    let key = RsaPrivateKey::new(&mut rng, 512).unwrap();
    let session = run_attempt(&key, "http://jwxt.sit.edu.cn/jwglxt/xtgl/index_initMenu.html", "<html>home</html>");
    assert!(matches!(session.state, LoginState::Authenticated));
    assert_eq!(session.phase, LoginPhase::Done);
    assert_eq!(
        session.jar.header_value("jwxt.sit.edu.cn"),
        "JSESSIONID=abc; route=xyz"
    );
}

#[test]
fn rejected_login_fails_with_the_server_message() {
    let mut rng = rand::rngs::OsRng;
    let key = RsaPrivateKey::new(&mut rng, 512).unwrap();
    let rejected_body = "<html><div id=\"home\" class=\"tab-pane in active\">\
                         <p id=\"tips\" class=\"bg_danger sl_danger\">wrong credentials</p></div></html>";
    let session = run_attempt(&key, login_url(), rejected_body);
    match &session.state {
        LoginState::Failed(reason) => assert_eq!(reason, "wrong credentials"),
        other => panic!("expected Failed, got {:?}", other),
    }
}

#[test]
fn two_attempts_over_identical_responses_agree() {
    let mut rng = rand::rngs::OsRng;
    let key = RsaPrivateKey::new(&mut rng, 512).unwrap();
    let first = run_attempt(&key, "http://jwxt.sit.edu.cn/other", "<html></html>");
    let second = run_attempt(&key, "http://jwxt.sit.edu.cn/other", "<html></html>");
    assert!(matches!(first.state, LoginState::Authenticated));
    assert!(matches!(second.state, LoginState::Authenticated));
    let rejected_body = "<html><div id=\"home\" class=\"tab-pane in active\">\
                         <p id=\"tips\" class=\"bg_danger sl_danger\">no</p></div></html>";
    let first = run_attempt(&key, login_url(), rejected_body);
    let second = run_attempt(&key, login_url(), rejected_body);
    match (&first.state, &second.state) {
        (LoginState::Failed(a), LoginState::Failed(b)) => assert_eq!(a, b),
        other => panic!("expected both rejected, got {:?}", other),
    }
}

#[test]
fn unusable_key_response_aborts_before_submitting() {
    let mut session = SessionBuilder::new().user("u").passwd("p").build();
    session.login_begin();
    session.login_home_response(&HttpPage {
        final_url: "http://jwxt.sit.edu.cn".to_string(),
        body: HOME_BODY.to_string(),
        cookies: vec![],
    });
    let err = session
        .login_key_response("<html>not json</html>", &vec![])
        .unwrap_err();
    assert!(matches!(err, LoginError::NoPublicKey));
    assert!(matches!(session.state, LoginState::Failed(_)));
    assert_eq!(session.phase, LoginPhase::Done);
}

#[test]
fn missing_token_aborts_the_attempt() {
    let mut rng = rand::rngs::OsRng;
    let key = RsaPrivateKey::new(&mut rng, 512).unwrap();
    let mut session = SessionBuilder::new().user("u").passwd("p").build();
    session.login_begin();
    session.login_home_response(&HttpPage {
        final_url: "http://jwxt.sit.edu.cn".to_string(),
        body: "<html>no token</html>".to_string(),
        cookies: vec![],
    });
    session.login_key_response(&key_body(&key), &vec![]).unwrap();
    session.login_encrypt().unwrap();
    let err = session.login_submit_request().unwrap_err();
    assert!(matches!(err, LoginError::TokenNotFound));
    assert!(matches!(session.state, LoginState::Failed(_)));
}

#[test]
fn a_fresh_attempt_starts_from_anonymous() {
    let mut session = SessionBuilder::new().user("u").passwd("p").build();
    session.state = LoginState::Failed("old".to_string());
    session.phase = LoginPhase::Done;
    session.login_begin();
    assert!(matches!(session.state, LoginState::Anonymous));
    assert_eq!(session.phase, LoginPhase::Start);
    assert_eq!(session.jar.header_value("jwxt.sit.edu.cn"), "");
}

#[test]
fn builder_keeps_user_and_passwd() {
    let session = SessionBuilder::new().user("alice").passwd("pw").build();
    assert_eq!(session.user, "alice");
    assert_eq!(session.passwd, "pw");
    assert!(matches!(session.state, LoginState::Anonymous));
}
