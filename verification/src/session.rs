//! The session engine: the multi-step login handshake of the portal,
//! as a verified state machine.
//!
//! One attempt runs `Start -> HomeFetched -> KeyObtained ->
//! CredentialsEncrypted -> Submitted -> Done`, strictly in order; the
//! embedding application performs the transport between steps and feeds
//! each response back in. Every decision — cookie bookkeeping, key
//! decoding, token extraction, outcome — is verified; only the RSA
//! encryption itself and the HTML queries are trusted boundaries.

use vstd::prelude::*;
use vstd::string::StrSliceExecFns;
use vstd::string::StringExecFns;
use crate::config::{login_url, portal_host, spec_login_url, spec_portal_host};
use crate::cookies::{CookieJar, JarV, spec_pair_views, spec_ingest, spec_jar_wf};
use crate::crypto::{
    PublicKeyMaterial, b64_encode_of, encrypt_in_rsa, parse_public_key_response, rsa_key_ok,
    spec_parse_public_key,
};
use crate::html::{css_first_inner_html, select_inner_html};
use crate::json::json_doc_of;
use crate::text::{find_str, spec_find, spec_match_at, starts_with};

verus! {

/// The session's authentication state.
#[derive(Clone, Debug)]
pub enum LoginState {
    Anonymous,
    Authenticated,
    Failed(String),
}

/// The mathematical content of a [`LoginState`].
pub enum LoginStateV {
    Anonymous,
    Authenticated,
    Failed(Seq<char>),
}

impl View for LoginState {
    type V = LoginStateV;

    open spec fn view(&self) -> LoginStateV {
        match self {
            LoginState::Anonymous => LoginStateV::Anonymous,
            LoginState::Authenticated => LoginStateV::Authenticated,
            LoginState::Failed(m) => LoginStateV::Failed(m@),
        }
    }
}

/// Where a login attempt stands. Each step may start only from the phase
/// the previous step established.
#[derive(Clone, Copy, Debug, PartialEq, Eq, Structural)]
pub enum LoginPhase {
    Start,
    HomeFetched,
    KeyObtained,
    CredentialsEncrypted,
    Submitted,
    Done,
}

/// What a handshake step can report.
#[derive(Clone, Debug)]
pub enum LoginError {
    /// Transport failure; retryable by the caller.
    NetworkError,
    /// The key endpoint's response could not be used; the attempt is
    /// aborted before credentials are sent anywhere.
    NoPublicKey,
    /// The key material did not encrypt the credential.
    CryptoError,
    /// The login page carried no anti-forgery token.
    TokenNotFound,
    /// The server rejected the login, with its human-readable message.
    AuthError(String),
}

/// One HTTP response, reduced to what the engine reads: the final resolved
/// address after redirects, the body, and any cookies set.
pub struct HttpPage {
    pub final_url: String,
    pub body: String,
    pub cookies: Vec<(String, String)>,
}

/// The mathematical content of an [`HttpPage`].
pub struct HttpPageV {
    pub final_url: Seq<char>,
    pub body: Seq<char>,
    pub cookies: Seq<(Seq<char>, Seq<char>)>,
}

impl View for HttpPage {
    type V = HttpPageV;

    open spec fn view(&self) -> HttpPageV {
        HttpPageV {
            final_url: self.final_url@,
            body: self.body@,
            cookies: spec_pair_views(self.cookies@),
        }
    }
}

/// The login submission: the endpoint and the form fields to post.
#[derive(Debug)]
pub struct LoginForm {
    pub url: String,
    pub fields: Vec<(String, String)>,
}

/// One account's session: credentials, cookie jar, and the state of the
/// current login attempt. Exclusively owned by the caller; nothing here is
/// shared.
pub struct Session {
    pub user: String,
    pub passwd: String,
    pub jar: CookieJar,
    pub state: LoginState,
    pub phase: LoginPhase,
    pub page: String,
    pub key: Option<PublicKeyMaterial>,
    pub cipher: Option<String>,
}

/// The mathematical content of a [`Session`].
pub struct SessionV {
    pub user: Seq<char>,
    pub passwd: Seq<char>,
    pub jar: JarV,
    pub state: LoginStateV,
    pub phase: LoginPhase,
    pub page: Seq<char>,
    pub key: Option<(Seq<u8>, Seq<u8>)>,
    pub cipher: Option<Seq<char>>,
}

impl View for Session {
    type V = SessionV;

    open spec fn view(&self) -> SessionV {
        SessionV {
            user: self.user@,
            passwd: self.passwd@,
            jar: self.jar@,
            state: self.state@,
            phase: self.phase,
            page: self.page@,
            key: match self.key {
                Some(km) => Some((km.modulus@, km.exponent@)),
                None => None,
            },
            cipher: match self.cipher {
                Some(c) => Some(c@),
                None => None,
            },
        }
    }
}

/// The fixed markup shape of the login page's anti-forgery token.
pub open spec fn spec_csrf_prefix() -> Seq<char> {
    "<input type=\"hidden\" id=\"csrftoken\" name=\"csrftoken\" value=\""@
}

/// What closes the token's value attribute.
pub open spec fn spec_csrf_suffix() -> Seq<char> {
    "\"/>"@
}

/// The anti-forgery token carried by a login page: the text between the
/// first occurrence of the fixed hidden-input prefix and the next closing
/// `"/>`; `None` when the markup shape is absent.
pub open spec fn spec_csrf_token(page: Seq<char>) -> Option<Seq<char>> {
    match spec_find(page, spec_csrf_prefix(), 0) {
        None => None,
        Some(i) => {
            let rest = page.subrange(i + spec_csrf_prefix().len(), page.len() as int);
            match spec_find(rest, spec_csrf_suffix(), 0) {
                None => None,
                Some(j) => Some(rest.subrange(0, j)),
            }
        },
    }
}

/// Extracts the anti-forgery token from the rendered login page. The
/// matching rule is deliberately narrow — one exact markup shape — so that
/// server markup drift surfaces as `TokenNotFound`, never as silent
/// corruption downstream.
pub fn extract_csrf_token(page: &str) -> (r: Result<String, LoginError>)
    ensures
        match r {
            Ok(t) => spec_csrf_token(page@) == Some(t@),
            Err(e) => spec_csrf_token(page@) is None && e is TokenNotFound,
        },
{
    let prefix = "<input type=\"hidden\" id=\"csrftoken\" name=\"csrftoken\" value=\"";
    let suffix = "\"/>";
    let i = match find_str(page, prefix) {
        None => {
            return Err(LoginError::TokenNotFound);
        },
        Some(i) => i,
    };
    proof {
        crate::text::lemma_find_some(page@, prefix@, 0);
    }
    let page_len = page.unicode_len();
    let start = i + prefix.unicode_len();
    let rest = page.substring_char(start, page_len);
    let j = match find_str(rest, suffix) {
        None => {
            return Err(LoginError::TokenNotFound);
        },
        Some(j) => j,
    };
    proof {
        crate::text::lemma_find_some(rest@, suffix@, 0);
    }
    Ok(String::from_str(rest.substring_char(0, j)))
}

/// The fixed status node carrying the server's rejection message.
pub open spec fn spec_err_selector() -> Seq<char> {
    "div#home.tab-pane.in.active p#tips.bg_danger.sl_danger"@
}

/// The fallback text when the rejection page carries no status node.
pub open spec fn spec_default_err_msg() -> Seq<char> {
    "unknown login error"@
}

/// The rejection message of an error page: the status node's inner HTML,
/// or the fixed fallback text when the node is absent.
pub open spec fn spec_err_message(body: Seq<char>) -> Seq<char> {
    match css_first_inner_html(body, spec_err_selector()) {
        Some(t) => t,
        None => spec_default_err_msg(),
    }
}

fn err_message_text(body: &str) -> (r: String)
    ensures
        r@ == spec_err_message(body@),
{
    match select_inner_html(body, "div#home.tab-pane.in.active p#tips.bg_danger.sl_danger") {
        Some(s) => s,
        None => String::from_str("unknown login error"),
    }
}

/// The reason recorded when no usable public key was obtained.
pub open spec fn spec_no_key_msg() -> Seq<char> {
    "no public key"@
}

/// The reason recorded when the credential could not be encrypted.
pub open spec fn spec_crypto_msg() -> Seq<char> {
    "credential encryption failed"@
}

/// The reason recorded when the login page carried no token.
pub open spec fn spec_token_msg() -> Seq<char> {
    "csrf token not found"@
}

/// Starting an attempt: session data kept, attempt state reset.
pub open spec fn spec_begin_step(s: SessionV) -> SessionV {
    SessionV {
        jar: Seq::empty(),
        state: LoginStateV::Anonymous,
        phase: LoginPhase::Start,
        page: Seq::empty(),
        key: None,
        cipher: None,
        ..s
    }
}

/// Step 1: the portal root page arrived — keep its cookies and its body.
pub open spec fn spec_home_step(s: SessionV, p: HttpPageV) -> SessionV {
    if s.phase == LoginPhase::Start {
        SessionV {
            jar: spec_ingest(s.jar, spec_portal_host(), p.cookies),
            page: p.body,
            phase: LoginPhase::HomeFetched,
            ..s
        }
    } else {
        s
    }
}

/// Step 2: the key endpoint answered — decode the key material, or abort
/// the attempt: credentials are never submitted without a key.
pub open spec fn spec_key_step(s: SessionV, body: Seq<char>, cookies: Seq<(Seq<char>, Seq<char>)>) -> SessionV {
    if s.phase == LoginPhase::HomeFetched {
        let s1 = SessionV { jar: spec_ingest(s.jar, spec_portal_host(), cookies), ..s };
        match spec_parse_public_key(json_doc_of(body)) {
            None => SessionV {
                state: LoginStateV::Failed(spec_no_key_msg()),
                phase: LoginPhase::Done,
                ..s1
            },
            Some(km) => SessionV { key: Some(km), phase: LoginPhase::KeyObtained, ..s1 },
        }
    } else {
        s
    }
}

/// Step 2, transport failure: the attempt aborts with `NoPublicKey`.
pub open spec fn spec_key_failure_step(s: SessionV) -> SessionV {
    if s.phase == LoginPhase::HomeFetched {
        SessionV { state: LoginStateV::Failed(spec_no_key_msg()), phase: LoginPhase::Done, ..s }
    } else {
        s
    }
}

/// The plaintext handed to RSA: the UTF-8 bytes of the base64 encoding of
/// the password's UTF-8 bytes — the portal's fixed double-encoding quirk.
pub open spec fn spec_credential_plaintext(passwd: Seq<char>) -> Seq<u8> {
    vstd::utf8::encode_utf8(b64_encode_of(vstd::utf8::encode_utf8(passwd)))
}

/// When the encryption step succeeds: the fetched modulus leads with a
/// nonzero byte (so its byte count is the key size), leaves the eleven
/// bytes of padding headroom above the encoded credential, and the key
/// material passes `rsa`'s validation. A function of the credentials and
/// the fetched key material alone.
pub open spec fn spec_encrypt_ok(s: SessionV) -> bool {
    &&& s.key is Some
    &&& s.key->Some_0.0.len() > 0
    &&& s.key->Some_0.0[0] != 0
    &&& spec_credential_plaintext(s.passwd).len() + 11 <= s.key->Some_0.0.len()
    &&& rsa_key_ok(s.key->Some_0.0, s.key->Some_0.1)
}

/// Step 3: the credential was encrypted (to some ciphertext `enc`), or
/// encryption failed and the attempt aborts.
pub open spec fn spec_encrypt_step(s: SessionV, enc: Option<Seq<char>>) -> SessionV {
    if s.phase == LoginPhase::KeyObtained {
        match enc {
            Some(ct) => SessionV {
                cipher: Some(ct),
                phase: LoginPhase::CredentialsEncrypted,
                ..s
            },
            None => SessionV {
                state: LoginStateV::Failed(spec_crypto_msg()),
                phase: LoginPhase::Done,
                ..s
            },
        }
    } else {
        s
    }
}

/// Step 3 resolved: whether encryption succeeds is fixed by the state
/// (`spec_encrypt_ok`); `ct` is the ciphertext drawn in the successful
/// case.
pub open spec fn spec_encrypt_resolve(s: SessionV, ct: Seq<char>) -> SessionV {
    spec_encrypt_step(
        s,
        if spec_encrypt_ok(s) {
            Some(ct)
        } else {
            None
        },
    )
}

/// Step 4 and 5 preparation: the token is pulled from the retained page
/// and the submission is formed, or the attempt aborts.
pub open spec fn spec_submit_req_step(s: SessionV) -> SessionV {
    if s.phase == LoginPhase::CredentialsEncrypted {
        match spec_csrf_token(s.page) {
            None => SessionV {
                state: LoginStateV::Failed(spec_token_msg()),
                phase: LoginPhase::Done,
                ..s
            },
            Some(_) => SessionV { phase: LoginPhase::Submitted, ..s },
        }
    } else {
        s
    }
}

/// The form fields of the login submission, in order.
pub open spec fn spec_login_form_fields(user: Seq<char>, cipher: Seq<char>, token: Seq<char>) -> Seq<
    (Seq<char>, Seq<char>),
> {
    seq![
        ("csrftoken"@, token),
        ("language"@, "zh_CN"@),
        ("yhm"@, user),
        ("mm"@, cipher),
    ]
}

/// Step 6, the outcome decision: a submission whose final resolved address
/// is still the login endpoint was rejected, and the page's status message
/// is the reason; any other final address means the portal accepted the
/// login.
pub open spec fn spec_outcome(final_url: Seq<char>, body: Seq<char>) -> LoginStateV {
    if spec_match_at(final_url, spec_login_url(), 0) {
        LoginStateV::Failed(spec_err_message(body))
    } else {
        LoginStateV::Authenticated
    }
}

/// Step 6: the submission resolved — keep its cookies and decide.
pub open spec fn spec_submit_step(s: SessionV, p: HttpPageV) -> SessionV {
    if s.phase == LoginPhase::Submitted {
        SessionV {
            jar: spec_ingest(s.jar, spec_portal_host(), p.cookies),
            state: spec_outcome(p.final_url, p.body),
            phase: LoginPhase::Done,
            ..s
        }
    } else {
        s
    }
}

/// Step 5, transport failure: the attempt ends with no outcome; the
/// session stays anonymous and the caller may retry.
pub open spec fn spec_submit_failure_step(s: SessionV) -> SessionV {
    if s.phase == LoginPhase::Submitted {
        SessionV { phase: LoginPhase::Done, ..s }
    } else {
        s
    }
}

/// One whole attempt over a fixed transcript of server responses; `ct` is
/// the ciphertext the randomized encryption step draws when it succeeds
/// (whether it succeeds is fixed by the state, via `spec_encrypt_ok`).
pub open spec fn spec_run_attempt(
    s: SessionV,
    home: HttpPageV,
    key_body: Seq<char>,
    key_cookies: Seq<(Seq<char>, Seq<char>)>,
    ct: Seq<char>,
    submit: HttpPageV,
) -> SessionV {
    spec_submit_step(
        spec_submit_req_step(
            spec_encrypt_resolve(
                spec_key_step(spec_home_step(spec_begin_step(s), home), key_body, key_cookies),
                ct,
            ),
        ),
        submit,
    )
}

/// The handshake is deterministic in the server's behaviour: two attempts
/// from sessions with equal credentials, over identical server responses,
/// reach the same terminal state, phase and cookie jar — whatever
/// ciphertexts the randomized encryption step drew, since whether that
/// step succeeds is itself a function of the credentials and the fetched
/// key material.
pub proof fn lemma_attempt_deterministic(
    s1: SessionV,
    s2: SessionV,
    home: HttpPageV,
    key_body: Seq<char>,
    key_cookies: Seq<(Seq<char>, Seq<char>)>,
    ct1: Seq<char>,
    ct2: Seq<char>,
    submit: HttpPageV,
)
    requires
        s1.user == s2.user,
        s1.passwd == s2.passwd,
    ensures
        spec_run_attempt(s1, home, key_body, key_cookies, ct1, submit).state == spec_run_attempt(
            s2,
            home,
            key_body,
            key_cookies,
            ct2,
            submit,
        ).state,
        spec_run_attempt(s1, home, key_body, key_cookies, ct1, submit).phase == spec_run_attempt(
            s2,
            home,
            key_body,
            key_cookies,
            ct2,
            submit,
        ).phase,
        spec_run_attempt(s1, home, key_body, key_cookies, ct1, submit).jar == spec_run_attempt(
            s2,
            home,
            key_body,
            key_cookies,
            ct2,
            submit,
        ).jar,
{
    assert(spec_begin_step(s1) == spec_begin_step(s2));
    let mid = spec_key_step(spec_home_step(spec_begin_step(s1), home), key_body, key_cookies);
    let e1 = spec_encrypt_resolve(mid, ct1);
    let e2 = spec_encrypt_resolve(mid, ct2);
    assert(e1.state == e2.state && e1.phase == e2.phase && e1.jar == e2.jar && e1.page == e2.page);
    let q1 = spec_submit_req_step(e1);
    let q2 = spec_submit_req_step(e2);
    assert(q1.state == q2.state && q1.phase == q2.phase && q1.jar == q2.jar);
}

impl Session {
    /// The session's structural invariant: the cookie jar keeps at most one
    /// value per `(host, name)` pair.
    pub open spec fn wf(&self) -> bool {
        spec_jar_wf(self@.jar)
    }

    /// Begins a fresh login attempt: whatever the prior attempt left
    /// behind — including a `Failed` state — the attempt starts from
    /// `Anonymous` with an empty jar. The caller then fetches the portal
    /// root page.
    pub fn login_begin(&mut self)
        ensures
            final(self)@ == spec_begin_step(old(self)@),
            final(self).wf(),
    {
        self.jar = CookieJar::new();
        self.state = LoginState::Anonymous;
        self.phase = LoginPhase::Start;
        self.page = String::new();
        self.key = None;
        self.cipher = None;
    }

    /// Step 1: feeds in the portal root page. Its cookies are kept and its
    /// body is retained for the token extraction of step 4. The caller then
    /// fetches the key endpoint.
    pub fn login_home_response(&mut self, page: &HttpPage)
        requires
            old(self).wf(),
            old(self).phase == LoginPhase::Start,
        ensures
            final(self)@ == spec_home_step(old(self)@, page@),
            final(self).wf(),
    {
        self.jar.ingest(portal_host(), &page.cookies);
        self.page = page.body.clone();
        self.phase = LoginPhase::HomeFetched;
    }

    /// Step 2: feeds in the key endpoint's response. An unusable response
    /// aborts the attempt — credentials are never submitted without a
    /// server key.
    pub fn login_key_response(&mut self, body: &str, cookies: &Vec<(String, String)>) -> (r:
        Result<(), LoginError>)
        requires
            old(self).wf(),
            old(self).phase == LoginPhase::HomeFetched,
        ensures
            final(self)@ == spec_key_step(old(self)@, body@, spec_pair_views(cookies@)),
            final(self).wf(),
            r is Ok <==> spec_parse_public_key(json_doc_of(body@)) is Some,
            r is Err ==> r->Err_0 is NoPublicKey,
    {
        self.jar.ingest(portal_host(), cookies);
        match parse_public_key_response(body) {
            None => {
                self.state = LoginState::Failed(String::from_str("no public key"));
                self.phase = LoginPhase::Done;
                Err(LoginError::NoPublicKey)
            },
            Some(km) => {
                self.key = Some(km);
                self.phase = LoginPhase::KeyObtained;
                Ok(())
            },
        }
    }

    /// Step 2, transport failure: the attempt aborts with `NoPublicKey`
    /// rather than proceeding without a key.
    pub fn login_key_failure(&mut self) -> (r: LoginError)
        requires
            old(self).phase == LoginPhase::HomeFetched,
        ensures
            final(self)@ == spec_key_failure_step(old(self)@),
            r is NoPublicKey,
    {
        self.state = LoginState::Failed(String::from_str("no public key"));
        self.phase = LoginPhase::Done;
        LoginError::NoPublicKey
    }

    /// Step 3: obfuscates the password under the fetched key. The
    /// plaintext handed to RSA is the base64 encoding of the password —
    /// the portal's fixed double-encoding quirk, preserved exactly. The
    /// step succeeds exactly when `spec_encrypt_ok` holds of the state:
    /// the ciphertext's value is randomized, but success is a function of
    /// the credentials and the fetched key material.
    pub fn login_encrypt(&mut self) -> (r: Result<(), LoginError>)
        requires
            old(self).wf(),
            old(self).phase == LoginPhase::KeyObtained,
            old(self).key is Some,
        ensures
            final(self).wf(),
            r is Ok <==> spec_encrypt_ok(old(self)@),
            r is Ok ==> exists|ct: Seq<char>|
                final(self)@ == spec_encrypt_resolve(old(self)@, ct),
            r is Err ==> final(self)@ == spec_encrypt_step(old(self)@, None) && r->Err_0
                is CryptoError,
    {
        let (modulus, exponent) = match &self.key {
            Some(km) => (km.modulus.clone(), km.exponent.clone()),
            None => {
                return Err(LoginError::CryptoError);
            },
        };
        proof {
            assert(modulus@ =~= old(self)@.key->Some_0.0);
            assert(exponent@ =~= old(self)@.key->Some_0.1);
        }
        let encoded = crate::crypto::b64_encode(self.passwd.as_str().as_bytes_vec().as_slice());
        let message = encoded.as_str().as_bytes_vec();
        proof {
            assert(message@ == spec_credential_plaintext(old(self)@.passwd));
        }
        if modulus.len() == 0 || modulus[0] == 0 || message.len() > usize::MAX - 11 || message.len()
            + 11 > modulus.len() {
            self.state = LoginState::Failed(String::from_str("credential encryption failed"));
            self.phase = LoginPhase::Done;
            return Err(LoginError::CryptoError);
        }
        match encrypt_in_rsa(message, modulus, exponent) {
            Ok(ct) => {
                let ghost ctv = ct@;
                self.cipher = Some(ct);
                self.phase = LoginPhase::CredentialsEncrypted;
                proof {
                    assert(self@ == spec_encrypt_resolve(old(self)@, ctv));
                }
                Ok(())
            },
            Err(_) => {
                self.state = LoginState::Failed(
                    String::from_str("credential encryption failed"),
                );
                self.phase = LoginPhase::Done;
                Err(LoginError::CryptoError)
            },
        }
    }

    /// Steps 4 and 5 preparation: pulls the anti-forgery token out of the
    /// retained login page and forms the submission — token, locale,
    /// account identifier, encrypted credential — for the caller to post
    /// to the login endpoint, following redirects.
    pub fn login_submit_request(&mut self) -> (r: Result<LoginForm, LoginError>)
        requires
            old(self).wf(),
            old(self).phase == LoginPhase::CredentialsEncrypted,
            old(self).cipher is Some,
        ensures
            final(self)@ == spec_submit_req_step(old(self)@),
            final(self).wf(),
            match r {
                Ok(form) => spec_csrf_token(old(self)@.page) is Some && form.url@
                    == spec_login_url() && spec_pair_views(form.fields@)
                    == spec_login_form_fields(
                    old(self)@.user,
                    old(self)@.cipher->Some_0,
                    spec_csrf_token(old(self)@.page)->Some_0,
                ),
                Err(e) => spec_csrf_token(old(self)@.page) is None && e is TokenNotFound,
            },
    {
        let token = match extract_csrf_token(self.page.as_str()) {
            Err(_) => {
                self.state = LoginState::Failed(String::from_str("csrf token not found"));
                self.phase = LoginPhase::Done;
                return Err(LoginError::TokenNotFound);
            },
            Ok(t) => t,
        };
        let cipher = match &self.cipher {
            Some(c) => c.clone(),
            None => {
                return Err(LoginError::TokenNotFound);
            },
        };
        let mut fields: Vec<(String, String)> = Vec::new();
        fields.push((String::from_str("csrftoken"), token));
        fields.push((String::from_str("language"), String::from_str("zh_CN")));
        fields.push((String::from_str("yhm"), self.user.clone()));
        fields.push((String::from_str("mm"), cipher));
        self.phase = LoginPhase::Submitted;
        proof {
            assert(spec_pair_views(fields@) =~= spec_login_form_fields(
                old(self)@.user,
                old(self)@.cipher->Some_0,
                spec_csrf_token(old(self)@.page)->Some_0,
            ));
        }
        Ok(LoginForm { url: String::from_str(login_url()), fields })
    }

    /// Step 6: feeds in the resolved submission response and decides the
    /// outcome from its final address. On success the jar accumulated over
    /// the whole attempt becomes the session's live cookie state; on
    /// rejection the page's status message is the terminal reason, until
    /// the caller supplies different credentials.
    pub fn login_submit_response(&mut self, page: &HttpPage) -> (r: Result<(), LoginError>)
        requires
            old(self).wf(),
            old(self).phase == LoginPhase::Submitted,
        ensures
            final(self)@ == spec_submit_step(old(self)@, page@),
            final(self).wf(),
            r is Ok <==> !spec_match_at(page@.final_url, spec_login_url(), 0),
            match r {
                Ok(_) => final(self)@.state is Authenticated,
                Err(e) => e is AuthError && final(self)@.state == LoginStateV::Failed(
                    spec_err_message(page@.body),
                ),
            },
    {
        self.jar.ingest(portal_host(), &page.cookies);
        if starts_with(page.final_url.as_str(), login_url()) {
            let msg = err_message_text(page.body.as_str());
            self.state = LoginState::Failed(msg.clone());
            self.phase = LoginPhase::Done;
            Err(LoginError::AuthError(msg))
        } else {
            self.state = LoginState::Authenticated;
            self.phase = LoginPhase::Done;
            Ok(())
        }
    }

    /// Step 5, transport failure: the attempt ends with no outcome — the
    /// session stays anonymous, and the failure is retryable.
    pub fn login_submit_failure(&mut self) -> (r: LoginError)
        requires
            old(self).phase == LoginPhase::Submitted,
        ensures
            final(self)@ == spec_submit_failure_step(old(self)@),
            r is NetworkError,
    {
        self.phase = LoginPhase::Done;
        LoginError::NetworkError
    }

    /// The anti-forgery token of a rendered login page.
    pub fn get_csrf_token(&self, login_page: String) -> (r: Result<String, LoginError>)
        ensures
            match r {
                Ok(t) => spec_csrf_token(login_page@) == Some(t@),
                Err(e) => spec_csrf_token(login_page@) is None && e is TokenNotFound,
            },
    {
        extract_csrf_token(login_page.as_str())
    }

    /// The server's rejection message in an error page, or the fixed
    /// fallback text.
    pub fn get_err_message(&self, content: String) -> (r: String)
        ensures
            r@ == spec_err_message(content@),
    {
        err_message_text(content.as_str())
    }
}

/// Builds a [`Session`] from an account identifier and password.
pub struct SessionBuilder {
    pub user: Option<String>,
    pub passwd: Option<String>,
}

impl Default for SessionBuilder {
    fn default() -> (r: Self)
        ensures
            r.user is None && r.passwd is None,
    {
        SessionBuilder { user: None, passwd: None }
    }
}

impl SessionBuilder {
    pub fn new() -> (r: Self)
        ensures
            r.user is None && r.passwd is None,
    {
        SessionBuilder { user: None, passwd: None }
    }

    pub fn user(self, user: &str) -> (r: Self)
        ensures
            r.user is Some && r.user->Some_0@ == user@,
            r.passwd == self.passwd,
    {
        SessionBuilder { user: Some(String::from_str(user)), ..self }
    }

    pub fn passwd(self, passwd: &str) -> (r: Self)
        ensures
            r.passwd is Some && r.passwd->Some_0@ == passwd@,
            r.user == self.user,
    {
        SessionBuilder { passwd: Some(String::from_str(passwd)), ..self }
    }

    /// Finishes the builder. Both the account identifier and the password
    /// must have been supplied.
    pub fn build(self) -> (r: Session)
        requires
            self.user is Some,
            self.passwd is Some,
        ensures
            r@.user == self.user->Some_0@,
            r@.passwd == self.passwd->Some_0@,
            r@.jar == Seq::<crate::cookies::EntryV>::empty(),
            r@.state is Anonymous,
            r@.phase == LoginPhase::Start,
            r@.page == Seq::<char>::empty(),
            r@.key is None,
            r@.cipher is None,
            r.wf(),
    {
        let user = match self.user {
            Some(u) => u,
            None => String::new(),
        };
        let passwd = match self.passwd {
            Some(p) => p,
            None => String::new(),
        };
        Session {
            user,
            passwd,
            jar: CookieJar::new(),
            state: LoginState::Anonymous,
            phase: LoginPhase::Start,
            page: String::new(),
            key: None,
            cipher: None,
        }
    }
}

} // verus!
