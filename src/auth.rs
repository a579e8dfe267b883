//! The authenticator: an API Basic-Auth probe, then a CSRF web-form login,
//! then, on a loopback test host only, a fallback mode.

use vstd::prelude::*;
use crate::endpoints::{is_loopback, loopback_host, root_domain, root_of};
use crate::error::AppError;
use crate::html::{
    attr_of_matches, attr_of_nested, opts_view, select_attr, select_nested_attr,
    selector_accepted,
};
use crate::text::{
    chars_of, concat, contains, decimal, decimal_of, has, slice_of, string_of,
};
use crate::transport::{is_redirection, is_success, succeeded, Reply};

verus! {

// ---------------------------------------------------------------- CSRF token

/// Form `k` is the first whose row holds a login-identifier field.
pub open spec fn is_first_login_form(logins: Seq<Seq<Option<Seq<char>>>>, k: int) -> bool {
    &&& 0 <= k < logins.len()
    &&& logins[k].len() > 0
    &&& forall|j: int| 0 <= j < k ==> (#[trigger] logins[j]).len() == 0
}

/// Some form holds a login-identifier field.
pub open spec fn has_login_form(logins: Seq<Seq<Option<Seq<char>>>>) -> bool {
    exists|k: int| 0 <= k < logins.len() && (#[trigger] logins[k]).len() > 0
}

/// The first value of a selection, where the first match carries one.
pub open spec fn first_value(v: Seq<Option<Seq<char>>>) -> Option<Seq<char>> {
    if v.len() > 0 {
        v[0]
    } else {
        None
    }
}

/// The token of the sign-in form: the value of the first authenticity-token
/// field inside the first form that holds a login-identifier field.
pub open spec fn form_token(
    logins: Seq<Seq<Option<Seq<char>>>>,
    tokens: Seq<Seq<Option<Seq<char>>>>,
) -> Option<Seq<char>> {
    if exists|k: int| is_first_login_form(logins, k) {
        let k = choose|k: int| is_first_login_form(logins, k);
        if k < tokens.len() {
            first_value(tokens[k])
        } else {
            None
        }
    } else {
        None
    }
}

/// The CSRF token a sign-in page offers, first match winning: inside the
/// sign-in form, then a `csrf-token` meta tag, then any authenticity-token
/// field. Where there is none, whether a sign-in form was found at all.
pub open spec fn csrf_token(
    logins: Seq<Seq<Option<Seq<char>>>>,
    tokens: Seq<Seq<Option<Seq<char>>>>,
    metas: Seq<Option<Seq<char>>>,
    inputs: Seq<Option<Seq<char>>>,
) -> Result<Seq<char>, bool> {
    match form_token(logins, tokens) {
        Some(t) => Ok(t),
        None => match first_value(metas) {
            Some(t) => Ok(t),
            None => match first_value(inputs) {
                Some(t) => Ok(t),
                None => Err(has_login_form(logins)),
            },
        },
    }
}

/// `r` is what `csrf_token` says, with a missing form and a missing token
/// told apart.
pub open spec fn token_result(r: Result<String, AppError>, want: Result<Seq<char>, bool>) -> bool {
    match want {
        Ok(t) => r matches Ok(x) && x@ == t,
        Err(true) => r == Err::<String, AppError>(AppError::NoCsrfToken),
        Err(false) => r == Err::<String, AppError>(AppError::NoSignInForm),
    }
}

fn first_of(v: &Vec<Option<String>>) -> (r: Option<String>)
    ensures
        opt_string_view(r) == first_value(opts_view(v@)),
{
    if v.len() > 0 {
        match &v[0] {
            Some(s) => Some(s.clone()),
            None => None,
        }
    } else {
        None
    }
}

/// The characters of an optional string.
pub open spec fn opt_string_view(o: Option<String>) -> Option<Seq<char>> {
    match o {
        Some(s) => Some(s@),
        None => None,
    }
}

/// The CSRF token from what the selectors picked out of a sign-in page: per
/// form, its login-identifier fields and its authenticity-token values; the
/// `csrf-token` meta contents; and all authenticity-token values.
pub fn token_from_selections(
    logins: &Vec<Vec<Option<String>>>,
    tokens: &Vec<Vec<Option<String>>>,
    metas: &Vec<Option<String>>,
    inputs: &Vec<Option<String>>,
) -> (r: Result<String, AppError>)
    ensures
        token_result(
            r,
            csrf_token(
                crate::parser::attr_rows(logins@),
                crate::parser::attr_rows(tokens@),
                opts_view(metas@),
                opts_view(inputs@),
            ),
        ),
{
    let ghost lv = crate::parser::attr_rows(logins@);
    let ghost tv = crate::parser::attr_rows(tokens@);
    let mut k: usize = 0;
    while k < logins.len() && logins[k].len() == 0
        invariant
            k <= logins.len(),
            lv == crate::parser::attr_rows(logins@),
            forall|j: int| 0 <= j < k ==> (#[trigger] lv[j]).len() == 0,
        decreases logins.len() - k,
    {
        k += 1;
    }
    let found_form = k < logins.len();
    let mut from_form: Option<String> = None;
    if found_form {
        proof {
            assert(is_first_login_form(lv, k as int));
            let c = choose|c: int| is_first_login_form(lv, c);
            if c < k {
                assert(lv[c].len() == 0);
            } else if k < c {
                assert(lv[k as int].len() == 0);
            }
        }
        if k < tokens.len() {
            from_form = first_of(&tokens[k]);
        }
    } else {
        proof {
            assert forall|c: int| !is_first_login_form(lv, c) by {
                if 0 <= c < lv.len() {
                    assert(lv[c].len() == 0);
                }
            }
            assert forall|c: int| !(0 <= c < lv.len() && (#[trigger] lv[c]).len() > 0) by {}
        }
    }
    assert(opt_string_view(from_form) == form_token(lv, tv));
    match from_form {
        Some(t) => Ok(t),
        None => match first_of(metas) {
            Some(t) => Ok(t),
            None => match first_of(inputs) {
                Some(t) => Ok(t),
                None => {
                    if found_form {
                        assert(lv[k as int].len() > 0);
                        Err(AppError::NoCsrfToken)
                    } else {
                        Err(AppError::NoSignInForm)
                    }
                },
            },
        },
    }
}

/// The selectors a sign-in page is read with are all accepted.
pub open spec fn sign_in_selectors_accepted() -> bool {
    &&& selector_accepted("form"@)
    &&& selector_accepted("input[name=\"soul[login]\"]"@)
    &&& selector_accepted("input[name=\"authenticity_token\"]"@)
    &&& selector_accepted("meta[name=\"csrf-token\"]"@)
}

/// The CSRF token of the sign-in page `html`, as `csrf_token` reads it.
pub open spec fn page_csrf_token(html: Seq<char>) -> Result<Seq<char>, bool> {
    csrf_token(
        attr_of_nested(html, "form"@, "input[name=\"soul[login]\"]"@, "name"@),
        attr_of_nested(html, "form"@, "input[name=\"authenticity_token\"]"@, "value"@),
        attr_of_matches(html, "meta[name=\"csrf-token\"]"@, "content"@),
        attr_of_matches(html, "input[name=\"authenticity_token\"]"@, "value"@),
    )
}

/// Extracts the CSRF token from a sign-in page.
pub fn extract_csrf_token(html: &str) -> (r: Result<String, AppError>)
    ensures
        sign_in_selectors_accepted() ==> token_result(r, page_csrf_token(html@)),
        !sign_in_selectors_accepted() ==> r matches Err(AppError::Parse(_)),
{
    let logins = select_nested_attr(html, "form", "input[name=\"soul[login]\"]", "name");
    let tokens = select_nested_attr(html, "form", "input[name=\"authenticity_token\"]", "value");
    let metas = select_attr(html, "meta[name=\"csrf-token\"]", "content");
    let inputs = select_attr(html, "input[name=\"authenticity_token\"]", "value");
    match (logins, tokens, metas, inputs) {
        (Some(l), Some(t), Some(m), Some(i)) => token_from_selections(&l, &t, &m, &i),
        _ => Err(AppError::Parse(String::from_str("A sign-in selector was refused"))),
    }
}


// ---------------------------------------------------------------- replies

/// An error described by whether it is a timeout and by its message.
pub open spec fn error_is(e: AppError, timeout: bool, m: Seq<char>) -> bool {
    if timeout {
        e matches AppError::Timeout(x) && x@ == m
    } else {
        e matches AppError::Generic(x) && x@ == m
    }
}

/// The failure of a request that did not answer 2xx: a timeout where it timed
/// out or was answered 408; the message names the status, or the transport's
/// message.
pub open spec fn failure_of(on_status: Seq<char>, on_transport: Seq<char>, reply: Reply) -> (
    bool,
    Seq<char>,
) {
    match reply {
        Reply::Answered { status, .. } => (status == 408, on_status + decimal(status as nat)),
        Reply::Failed { timed_out, message } => (timed_out, on_transport + message@),
    }
}

/// The error for a request that did not answer 2xx.
fn failure_error(on_status: &str, on_transport: &str, reply: &Reply) -> (r: AppError)
    ensures
        error_is(r, failure_of(on_status@, on_transport@, *reply).0, failure_of(on_status@, on_transport@, *reply).1),
{
    match reply {
        Reply::Answered { status, .. } => {
            let m = string_of(&concat(&chars_of(on_status), &decimal_of(*status as u64)));
            if *status == 408 {
                AppError::Timeout(m)
            } else {
                AppError::Generic(m)
            }
        },
        Reply::Failed { timed_out, message } => {
            let m = string_of(&concat(&chars_of(on_transport), &chars_of(message.as_str())));
            if *timed_out {
                AppError::Timeout(m)
            } else {
                AppError::Generic(m)
            }
        },
    }
}

/// How the answer to the login form reads.
pub enum FormVerdict {
    /// A redirect with a target, an authenticated marker, or any other 2xx.
    Accepted,
    /// The page says the credentials are wrong.
    InvalidCredentials,
    /// The login form fields are still there.
    StillForm,
    /// Another status, with no marker either way.
    Refused(u16),
    /// The request timed out, or was answered 408.
    TimedOut,
    /// No answer came.
    NoAnswer,
}

/// The page says the credentials are wrong.
pub open spec fn says_invalid(body: Seq<char>) -> bool {
    ||| contains(body, "Invalid email or password"@)
    ||| contains(body, "invalid email or password"@)
    ||| contains(body, "Incorrect email or password"@)
}

/// The page carries a marker of an authenticated session.
pub open spec fn says_signed_in(body: Seq<char>) -> bool {
    ||| contains(body, "Dashboard"@)
    ||| contains(body, "My Account"@)
    ||| contains(body, "Sign out"@)
    ||| contains(body, "Logout"@)
    ||| contains(body, "Welcome"@)
}

/// How the answer to the login form reads, the first rule that applies winning.
pub open spec fn form_verdict(reply: Reply) -> FormVerdict {
    match reply {
        Reply::Failed { timed_out, .. } => if timed_out {
            FormVerdict::TimedOut
        } else {
            FormVerdict::NoAnswer
        },
        Reply::Answered { status, location, body } => if is_redirection(status)
            && location is Some {
            FormVerdict::Accepted
        } else if says_invalid(body@) {
            FormVerdict::InvalidCredentials
        } else if contains(body@, "soul[login]"@) && contains(body@, "soul[password]"@) {
            FormVerdict::StillForm
        } else if says_signed_in(body@) {
            FormVerdict::Accepted
        } else if is_success(status) {
            FormVerdict::Accepted
        } else if status == 408 {
            FormVerdict::TimedOut
        } else {
            FormVerdict::Refused(status)
        },
    }
}

/// The first `n` characters of `s`, or all of them.
pub open spec fn excerpt(s: Seq<char>, n: nat) -> Seq<char> {
    if s.len() <= n {
        s
    } else {
        s.take(n as int)
    }
}

/// The message of a login form answered with `status` and no marker.
pub open spec fn refused_message(status: u16, body: Seq<char>) -> Seq<char> {
    "Login failed with status: "@ + decimal(status as nat) + ". Response preview: "@ + excerpt(
        body,
        200,
    )
}

/// The error a rejected login form answer gives.
pub open spec fn form_error_is(e: AppError, reply: Reply) -> bool {
    match form_verdict(reply) {
        FormVerdict::InvalidCredentials => error_is(e, false, "Login failed: Invalid email or password"@),
        FormVerdict::StillForm => error_is(
            e,
            false,
            "Login failed: Still seeing login form after submission"@,
        ),
        FormVerdict::Refused(st) => match reply {
            Reply::Answered { body, .. } => error_is(e, false, refused_message(st, body@)),
            _ => false,
        },
        FormVerdict::TimedOut => match reply {
            Reply::Answered { status, body, .. } => error_is(e, true, refused_message(status, body@)),
            Reply::Failed { message, .. } => error_is(e, true, "Failed to submit login form: "@ + message@),
        },
        FormVerdict::NoAnswer => match reply {
            Reply::Failed { message, .. } => error_is(e, false, "Failed to submit login form: "@ + message@),
            _ => false,
        },
        FormVerdict::Accepted => false,
    }
}

/// Reads the answer to the login form.
pub fn classify_login_reply(reply: &Reply) -> (r: Result<(), AppError>)
    ensures
        r is Ok <==> form_verdict(*reply) is Accepted,
        r matches Err(e) ==> form_error_is(e, *reply),
{
    match reply {
        Reply::Failed { timed_out, message } => {
            let m = string_of(
                &concat(&chars_of("Failed to submit login form: "), &chars_of(message.as_str())),
            );
            if *timed_out {
                Err(AppError::Timeout(m))
            } else {
                Err(AppError::Generic(m))
            }
        },
        Reply::Answered { status, location, body } => {
            if 300 <= *status && *status < 400 && location.is_some() {
                return Ok(());
            }
            let b = chars_of(body.as_str());
            if has(&b, &chars_of("Invalid email or password")) || has(
                &b,
                &chars_of("invalid email or password"),
            ) || has(&b, &chars_of("Incorrect email or password")) {
                return Err(
                    AppError::Generic(String::from_str("Login failed: Invalid email or password")),
                );
            }
            if has(&b, &chars_of("soul[login]")) && has(&b, &chars_of("soul[password]")) {
                return Err(
                    AppError::Generic(
                        String::from_str("Login failed: Still seeing login form after submission"),
                    ),
                );
            }
            if has(&b, &chars_of("Dashboard")) || has(&b, &chars_of("My Account")) || has(
                &b,
                &chars_of("Sign out"),
            ) || has(&b, &chars_of("Logout")) || has(&b, &chars_of("Welcome")) {
                return Ok(());
            }
            if 200 <= *status && *status < 300 {
                return Ok(());
            }
            let cut: usize = if b.len() <= 200 {
                b.len()
            } else {
                200
            };
            let head = concat(&chars_of("Login failed with status: "), &decimal_of(*status as u64));
            let mid = concat(&head, &chars_of(". Response preview: "));
            let m = string_of(&concat(&mid, &slice_of(&b, 0, cut)));
            proof {
                assert(b@.subrange(0, cut as int) =~= excerpt(b@, 200));
            }
            if *status == 408 {
                Err(AppError::Timeout(m))
            } else {
                Err(AppError::Generic(m))
            }
        },
    }
}


// ---------------------------------------------------------------- cascade

/// How the session ended up authenticated.
#[derive(Debug, Clone, Copy, PartialEq, Eq, Structural)]
pub enum AuthState {
    Unauthenticated,
    ApiAuthenticated,
    WebAuthenticated,
    FallbackAuthenticated,
}

/// An error that marks a real failure rather than a test harness's refusal:
/// a timeout, or a page with no sign-in form.
pub open spec fn is_real_failure(e: AppError) -> bool {
    e is Timeout || e is NoSignInForm
}

/// The fallback mode may be entered: the base address is a loopback test
/// host and neither strategy failed for real.
pub open spec fn fallback_allowed(base: Seq<char>, api: Option<AppError>, web: AppError) -> bool {
    &&& is_loopback(base)
    &&& !(api matches Some(e) && is_real_failure(e))
    &&& !is_real_failure(web)
}

/// Whether the fallback mode may be entered after both strategies failed.
pub fn may_fall_back(base: &str, api: &Option<AppError>, web: &AppError) -> (r: bool)
    ensures
        r == fallback_allowed(base@, *api, *web),
{
    let api_real = match api {
        Some(AppError::Timeout(_)) | Some(AppError::NoSignInForm) => true,
        _ => false,
    };
    let web_real = match web {
        AppError::Timeout(_) | AppError::NoSignInForm => true,
        _ => false,
    };
    loopback_host(base) && !api_real && !web_real
}

/// The step of the login cascade that is waiting for a reply.
#[derive(Debug, Clone, Copy, PartialEq, Eq, Structural)]
pub enum LoginStage {
    ProbingApi,
    FetchingSignIn,
    SubmittingForm,
}

/// A login in progress.
pub struct Login {
    pub base_url: String,
    pub child_id: u32,
    pub email: String,
    pub password: String,
    pub stage: LoginStage,
    /// Why the API probe failed, once it has.
    pub api_error: Option<AppError>,
}

/// What the host program is to do next.
#[derive(Debug, PartialEq, Eq)]
pub enum LoginAction {
    /// GET this address with HTTP Basic credentials and hand back the reply.
    ProbeApi { url: String, email: String, password: String },
    /// GET the sign-in page and hand back the reply.
    FetchSignInPage(String),
    /// POST these form fields, without following redirects, and hand back the reply.
    SubmitForm { url: String, fields: Vec<(String, String)> },
    /// The login is over.
    Finish(Result<AuthState, AppError>),
}

/// The address the API probe asks.
pub open spec fn api_probe_url(base: Seq<char>, child: nat) -> Seq<char> {
    base + "/api/v1/children/"@ + decimal(child)
}

/// The sign-in page, on the host rather than under the school.
pub open spec fn sign_in_page_url(base: Seq<char>) -> Seq<char> {
    root_domain(base) + "/souls/sign_in?locale=en"@
}

/// Where the login form is posted.
pub open spec fn sign_in_post_url(base: Seq<char>) -> Seq<char> {
    root_domain(base) + "/souls/sign_in"@
}

/// The fields of the login form.
pub open spec fn login_fields(token: Seq<char>, email: Seq<char>, password: Seq<char>) -> Seq<
    (Seq<char>, Seq<char>),
> {
    seq![
        ("utf8"@, "\u{2713}"@),
        ("authenticity_token"@, token),
        ("soul[login]"@, email),
        ("soul[password]"@, password),
        ("soul[remember_me]"@, "0"@),
        ("commit"@, "Sign in"@),
    ]
}

/// The characters of each field.
pub open spec fn fields_view(v: Seq<(String, String)>) -> Seq<(Seq<char>, Seq<char>)> {
    v.map_values(|f: (String, String)| (f.0@, f.1@))
}

/// The login ends after the web form failed with `web`: in the fallback mode
/// where that is allowed, else with `web` itself.
pub open spec fn concluded(s: Login, web: AppError, a: LoginAction) -> bool {
    if fallback_allowed(s.base_url@, s.api_error, web) {
        a == LoginAction::Finish(Ok(AuthState::FallbackAuthenticated))
    } else {
        a == LoginAction::Finish(Err(web))
    }
}

/// `t` is `s` moved on to `stage`.
pub open spec fn moved_to(s: Login, t: Login, stage: LoginStage) -> bool {
    &&& t.stage == stage
    &&& t.base_url == s.base_url
    &&& t.child_id == s.child_id
    &&& t.email == s.email
    &&& t.password == s.password
}

/// One step of the login cascade: from `s`, on `reply` to the last request,
/// to `t` with action `a`.
pub open spec fn login_step(s: Login, reply: Reply, t: Login, a: LoginAction) -> bool {
    match s.stage {
        LoginStage::ProbingApi => if succeeded(reply) {
            a == LoginAction::Finish(Ok(AuthState::ApiAuthenticated))
        } else {
            let f = failure_of(
                "API authentication failed with status: "@,
                "Failed to access API: "@,
                reply,
            );
            &&& moved_to(s, t, LoginStage::FetchingSignIn)
            &&& t.api_error matches Some(e) && error_is(e, f.0, f.1)
            &&& a matches LoginAction::FetchSignInPage(u) && u@ == sign_in_page_url(s.base_url@)
        },
        LoginStage::FetchingSignIn => match reply {
            Reply::Answered { body, .. } => if succeeded(reply) {
                if sign_in_selectors_accepted() {
                    match page_csrf_token(body@) {
                        Ok(token) => {
                            &&& moved_to(s, t, LoginStage::SubmittingForm)
                            &&& t.api_error == s.api_error
                            &&& a matches LoginAction::SubmitForm { url, fields } && url@
                                == sign_in_post_url(s.base_url@) && fields_view(fields@)
                                == login_fields(token, s.email@, s.password@)
                        },
                        Err(found) => concluded(
                            s,
                            if found {
                                AppError::NoCsrfToken
                            } else {
                                AppError::NoSignInForm
                            },
                            a,
                        ),
                    }
                } else {
                    exists|e: AppError| e is Parse && concluded(s, e, a)
                }
            } else {
                sign_in_page_failed(s, reply, a)
            },
            Reply::Failed { .. } => sign_in_page_failed(s, reply, a),
        },
        LoginStage::SubmittingForm => if form_verdict(reply) is Accepted {
            a == LoginAction::Finish(Ok(AuthState::WebAuthenticated))
        } else {
            exists|e: AppError| form_error_is(e, reply) && concluded(s, e, a)
        },
    }
}

/// The login ends because the sign-in page could not be had.
pub open spec fn sign_in_page_failed(s: Login, reply: Reply, a: LoginAction) -> bool {
    let f = failure_of(
        "Failed to fetch sign-in page. Status: "@,
        "Failed to fetch sign-in page: "@,
        reply,
    );
    exists|e: AppError| error_is(e, f.0, f.1) && concluded(s, e, a)
}

/// The address the API probe asks.
fn probe_url(base: &str, child: u32) -> (r: String)
    ensures
        r@ == api_probe_url(base@, child as nat),
{
    let head = concat(&chars_of(base), &chars_of("/api/v1/children/"));
    string_of(&concat(&head, &decimal_of(child as u64)))
}

/// A form field.
fn field(name: &str, value: &str) -> (r: (String, String))
    ensures
        r.0@ == name@,
        r.1@ == value@,
{
    (String::from_str(name), String::from_str(value))
}

impl Login {
    /// Begins a login: the API probe comes first.
    pub fn start(base_url: &str, child_id: u32, email: &str, password: &str) -> (r: (
        Login,
        LoginAction,
    ))
        ensures
            r.0.stage == LoginStage::ProbingApi,
            r.0.base_url@ == base_url@,
            r.0.child_id == child_id,
            r.0.email@ == email@,
            r.0.password@ == password@,
            r.0.api_error is None,
            r.1 matches LoginAction::ProbeApi { url, email: e, password: p } && url@
                == api_probe_url(base_url@, child_id as nat) && e@ == email@ && p@ == password@,
    {
        let s = Login {
            base_url: String::from_str(base_url),
            child_id,
            email: String::from_str(email),
            password: String::from_str(password),
            stage: LoginStage::ProbingApi,
            api_error: None,
        };
        let a = LoginAction::ProbeApi {
            url: probe_url(base_url, child_id),
            email: String::from_str(email),
            password: String::from_str(password),
        };
        (s, a)
    }

    /// Ends the login after the web form failed with `web`.
    fn conclude(&self, web: AppError) -> (a: LoginAction)
        ensures
            concluded(*self, web, a),
    {
        if may_fall_back(self.base_url.as_str(), &self.api_error, &web) {
            LoginAction::Finish(Ok(AuthState::FallbackAuthenticated))
        } else {
            LoginAction::Finish(Err(web))
        }
    }

    /// Takes the reply to the last request and says what to do next.
    pub fn on_reply(&mut self, reply: Reply) -> (a: LoginAction)
        ensures
            login_step(*old(self), reply, *final(self), a),
    {
        match self.stage {
            LoginStage::ProbingApi => {
                if reply.succeeded() {
                    return LoginAction::Finish(Ok(AuthState::ApiAuthenticated));
                }
                let e = failure_error(
                    "API authentication failed with status: ",
                    "Failed to access API: ",
                    &reply,
                );
                self.api_error = Some(e);
                self.stage = LoginStage::FetchingSignIn;
                let root = root_of(self.base_url.as_str());
                LoginAction::FetchSignInPage(
                    string_of(&concat(&root, &chars_of("/souls/sign_in?locale=en"))),
                )
            },
            LoginStage::FetchingSignIn => {
                if reply.succeeded() {
                    if let Reply::Answered { body, .. } = &reply {
                        return match extract_csrf_token(body.as_str()) {
                            Ok(token) => {
                                let root = root_of(self.base_url.as_str());
                                let url = string_of(&concat(&root, &chars_of("/souls/sign_in")));
                                let fields = vec![
                                    field("utf8", "\u{2713}"),
                                    (String::from_str("authenticity_token"), token),
                                    (String::from_str("soul[login]"), self.email.clone()),
                                    (String::from_str("soul[password]"), self.password.clone()),
                                    field("soul[remember_me]", "0"),
                                    field("commit", "Sign in"),
                                ];
                                proof {
                                    assert(fields_view(fields@) =~= login_fields(
                                        fields@[1].1@,
                                        self.email@,
                                        self.password@,
                                    ));
                                }
                                self.stage = LoginStage::SubmittingForm;
                                LoginAction::SubmitForm { url, fields }
                            },
                            Err(e) => self.conclude(e),
                        };
                    }
                }
                let e = failure_error(
                    "Failed to fetch sign-in page. Status: ",
                    "Failed to fetch sign-in page: ",
                    &reply,
                );
                self.conclude(e)
            },
            LoginStage::SubmittingForm => {
                match classify_login_reply(&reply) {
                    Ok(()) => LoginAction::Finish(Ok(AuthState::WebAuthenticated)),
                    Err(e) => self.conclude(e),
                }
            },
        }
    }
}

/// Once the API probe succeeds, the login is over: the web form is never
/// attempted.
pub proof fn lemma_api_success_skips_web_form(s: Login, reply: Reply, t: Login, a: LoginAction)
    requires
        s.stage == LoginStage::ProbingApi,
        login_step(s, reply, t, a),
        succeeded(reply),
    ensures
        a == LoginAction::Finish(Ok(AuthState::ApiAuthenticated)),
        !(a is FetchSignInPage),
        !(a is SubmitForm),
{
}

/// After the API probe failed, an accepted login form ends the login as
/// web-authenticated: the fallback mode is never entered.
pub proof fn lemma_web_success_skips_fallback(s: Login, reply: Reply, t: Login, a: LoginAction)
    requires
        s.stage == LoginStage::SubmittingForm,
        login_step(s, reply, t, a),
        form_verdict(reply) is Accepted,
    ensures
        a == LoginAction::Finish(Ok(AuthState::WebAuthenticated)),
        a != LoginAction::Finish(Ok(AuthState::FallbackAuthenticated)),
{
}

} // verus!
