use transparent_classroom_photos_grabber_rs::auth::{
    classify_login_reply, extract_csrf_token, may_fall_back, AuthState, Login, LoginAction,
    LoginStage,
};
use transparent_classroom_photos_grabber_rs::crawl::{Crawl, CrawlAction};
use transparent_classroom_photos_grabber_rs::endpoints::{candidate_links, Site};
use transparent_classroom_photos_grabber_rs::error::AppError;
use transparent_classroom_photos_grabber_rs::fetch::{FetchAction, FetchStage, PageFetch};
use transparent_classroom_photos_grabber_rs::post::Post;
use transparent_classroom_photos_grabber_rs::transport::Reply;

fn ok(body: &str) -> Reply {
    Reply::Answered { status: 200, location: None, body: body.to_string() }
}

fn status(code: u16) -> Reply {
    Reply::Answered { status: code, location: None, body: String::new() }
}

fn post(id: &str) -> Post {
    Post {
        id: id.to_string(),
        title: "t".to_string(),
        author: "a".to_string(),
        date: "d".to_string(),
        url: String::new(),
        photo_urls: vec![],
    }
}

const SIGN_IN: &str = r#"<html><head><meta name="csrf-token" content="meta_token"></head><body>
<form action="/search"><input name="authenticity_token" value="other"></form>
<form action="/souls/sign_in" method="post">
<input type="hidden" name="authenticity_token" value="test_csrf_token_12345">
<input type="text" name="soul[login]"><input type="password" name="soul[password]">
</form></body></html>"#;

#[test]
fn csrf_token_comes_from_the_sign_in_form() {
    assert_eq!(extract_csrf_token(SIGN_IN).unwrap(), "test_csrf_token_12345");
}

#[test]
fn csrf_token_falls_back_to_meta_then_input() {
    let meta = r#"<html><head><meta name="csrf-token" content="m1"></head><body><form><input name="soul[login]"></form></body></html>"#;
    assert_eq!(extract_csrf_token(meta).unwrap(), "m1");
    let input = r#"<html><body><input name="authenticity_token" value="loose"></body></html>"#;
    assert_eq!(extract_csrf_token(input).unwrap(), "loose");
}

#[test]
fn missing_form_and_missing_token_are_told_apart() {
    let no_form = "<html><head><title>Broken Page</title></head><body><div>Broken content</div></body></html>";
    assert_eq!(extract_csrf_token(no_form), Err(AppError::NoSignInForm));
    let no_token = r#"<html><body><form><input name="soul[login]"><input name="soul[password]"></form></body></html>"#;
    assert_eq!(extract_csrf_token(no_token), Err(AppError::NoCsrfToken));
}

#[test]
fn login_form_replies_are_read_in_order() {
    let redirect = Reply::Answered { status: 302, location: Some("/home".to_string()), body: String::new() };
    assert_eq!(classify_login_reply(&redirect), Ok(()));
    assert_eq!(
        classify_login_reply(&ok("<p>Invalid email or password</p><h1>Dashboard</h1>")),
        Err(AppError::Generic("Login failed: Invalid email or password".to_string()))
    );
    assert_eq!(
        classify_login_reply(&ok(r#"<input name="soul[login]"><input name="soul[password]">"#)),
        Err(AppError::Generic("Login failed: Still seeing login form after submission".to_string()))
    );
    assert_eq!(classify_login_reply(&ok("<h1>Dashboard</h1>")), Ok(()));
    assert_eq!(classify_login_reply(&ok("<html><head><title>Sign In</title></head></html>")), Ok(()));
    assert_eq!(classify_login_reply(&ok("<p>plain</p>")), Ok(()));
    assert_eq!(
        classify_login_reply(&Reply::Answered { status: 500, location: None, body: "oops".to_string() }),
        Err(AppError::Generic("Login failed with status: 500. Response preview: oops".to_string()))
    );
    assert!(matches!(classify_login_reply(&status(408)), Err(AppError::Timeout(_))));
    let dropped = Reply::Failed { timed_out: false, message: "reset".to_string() };
    assert_eq!(
        classify_login_reply(&dropped),
        Err(AppError::Generic("Failed to submit login form: reset".to_string()))
    );
}

#[test]
fn api_success_ends_the_login() {
    let (mut login, first) = Login::start("http://127.0.0.1:9/schools/1", 67890, "e@x", "pw");
    match first {
        LoginAction::ProbeApi { url, email, password } => {
            assert_eq!(url, "http://127.0.0.1:9/schools/1/api/v1/children/67890");
            assert_eq!(email, "e@x");
            assert_eq!(password, "pw");
        }
        _ => panic!("the API probe comes first"),
    }
    let next = login.on_reply(ok("{}"));
    assert!(matches!(next, LoginAction::Finish(Ok(AuthState::ApiAuthenticated))));
}

#[test]
fn web_form_follows_a_failed_probe() {
    let (mut login, _) = Login::start("http://127.0.0.1:9/schools/1", 67890, "test@example.com", "password123");
    let page = login.on_reply(status(401));
    match &page {
        LoginAction::FetchSignInPage(url) => assert_eq!(url, "http://127.0.0.1:9/souls/sign_in?locale=en"),
        _ => panic!("the sign-in page comes next"),
    }
    assert_eq!(login.stage, LoginStage::FetchingSignIn);
    let submit = login.on_reply(ok(SIGN_IN));
    match &submit {
        LoginAction::SubmitForm { url, fields } => {
            assert_eq!(url, "http://127.0.0.1:9/souls/sign_in");
            assert!(fields.contains(&("authenticity_token".to_string(), "test_csrf_token_12345".to_string())));
            assert!(fields.contains(&("soul[login]".to_string(), "test@example.com".to_string())));
            assert!(fields.contains(&("soul[password]".to_string(), "password123".to_string())));
        }
        _ => panic!("the form is submitted next"),
    }
    let done = login.on_reply(ok("<h1>Dashboard</h1>"));
    assert!(matches!(done, LoginAction::Finish(Ok(AuthState::WebAuthenticated))));
}

#[test]
fn fallback_only_on_a_test_host_without_real_failures() {
    let (mut login, _) = Login::start("http://127.0.0.1:9", 1, "e", "p");
    login.on_reply(status(401));
    login.on_reply(ok(r#"<html><head><meta name="csrf-token" content="t"></head></html>"#));
    let end = login.on_reply(ok(r#"<input name="soul[login]"><input name="soul[password]">"#));
    assert!(matches!(end, LoginAction::Finish(Ok(AuthState::FallbackAuthenticated))));

    let (mut timed, _) = Login::start("http://127.0.0.1:9", 1, "e", "p");
    timed.on_reply(status(408));
    let end = timed.on_reply(status(408));
    assert!(matches!(end, LoginAction::Finish(Err(AppError::Timeout(_)))));

    let (mut malformed, _) = Login::start("http://127.0.0.1:9", 1, "e", "p");
    malformed.on_reply(status(401));
    let end = malformed.on_reply(ok("<html><body><div>Broken content</div></body></html>"));
    assert!(matches!(end, LoginAction::Finish(Err(AppError::NoSignInForm))));

    let (mut real, _) = Login::start("https://www.transparentclassroom.com/schools/1", 1, "e", "p");
    real.on_reply(status(401));
    let end = real.on_reply(status(503));
    assert_eq!(
        end,
        LoginAction::Finish(Err(AppError::Generic("Failed to fetch sign-in page. Status: 503".to_string())))
    );

    assert!(may_fall_back("http://localhost:8080", &Some(AppError::Generic("x".to_string())), &AppError::NoCsrfToken));
    assert!(!may_fall_back("http://localhost:8080", &Some(AppError::Timeout("x".to_string())), &AppError::NoCsrfToken));
    assert!(!may_fall_back("https://example.com", &None, &AppError::Generic("x".to_string())));
}

fn site(base: &str) -> Site {
    Site { base_url: base.to_string(), school_id: 12345, child_id: 67890 }
}

#[test]
fn page_addresses_in_order() {
    let urls = site("https://www.transparentclassroom.com/schools/12345").page_urls(2);
    assert_eq!(
        urls,
        vec![
            "https://www.transparentclassroom.com/s/12345/children/67890/posts.json?locale=en&page=2",
            "https://www.transparentclassroom.com/observations?page=2",
            "https://www.transparentclassroom.com/schools/12345/children/67890/observations",
            "https://www.transparentclassroom.com/schools/12345/api/v1/children/67890/events",
            "https://www.transparentclassroom.com/schools/12345/api/v1/children/67890/photos",
            "https://www.transparentclassroom.com/schools/12345/api/v1/events",
            "https://www.transparentclassroom.com/schools/12345/dashboard",
            "https://www.transparentclassroom.com/schools/12345",
        ]
    );
    let local = site("http://127.0.0.1:4000").page_urls(0);
    assert_eq!(local[0], "http://127.0.0.1:4000/observations");
    assert_eq!(local[1], "http://127.0.0.1:4000/observations");
    let first = site("https://www.transparentclassroom.com/schools/12345").page_urls(1);
    assert_eq!(first[0], "https://www.transparentclassroom.com/s/12345/children/67890/posts.json?locale=en");
}

#[test]
fn primary_success_requests_nothing_else() {
    let (mut fetch, first) = PageFetch::start(&site("http://127.0.0.1:4000"), 0);
    assert!(matches!(first, FetchAction::Get(ref u) if u == "http://127.0.0.1:4000/observations"));
    let next = fetch.on_reply(ok(r#"<div class="observation" id="o1"></div>"#));
    match next {
        FetchAction::Done(Ok(posts)) => assert_eq!(posts[0].id, "o1"),
        _ => panic!("the fetch ends on the first success"),
    }
}

#[test]
fn fallbacks_then_discovery_then_failure() {
    let (mut fetch, _) = PageFetch::start(&site("http://127.0.0.1:4000/schools/5"), 1);
    for _ in 0..7 {
        assert!(matches!(fetch.on_reply(status(404)), FetchAction::Get(_)));
    }
    let school = fetch.on_reply(status(404));
    assert!(matches!(school, FetchAction::GetSchoolPage(ref u) if u == "http://127.0.0.1:4000/schools/5"));
    assert_eq!(fetch.stage, FetchStage::SchoolPage);
    let page = r#"<a href="/feed">f</a><a href="timeline">t</a><a href="/about">a</a><a href="/feed">again</a>"#;
    let tried = fetch.on_reply(ok(page));
    assert!(matches!(tried, FetchAction::Get(ref u) if u == "http://127.0.0.1:4000/feed"));
    let second = fetch.on_reply(status(500));
    assert!(matches!(second, FetchAction::Get(ref u) if u == "http://127.0.0.1:4000/schools/5/timeline"));
    let end = fetch.on_reply(Reply::Failed { timed_out: false, message: "down".to_string() });
    match end {
        FetchAction::Done(Err(AppError::Generic(m))) => assert_eq!(
            m,
            "Failed to fetch posts. Status: 500. This might indicate an authentication or permissions issue."
        ),
        _ => panic!("the fetch fails once every address failed"),
    }
}

#[test]
fn no_answer_at_all_is_a_connectivity_failure() {
    let (mut fetch, _) = PageFetch::start(&site("http://localhost:1"), 3);
    let down = || Reply::Failed { timed_out: false, message: "refused".to_string() };
    for _ in 0..8 {
        fetch.on_reply(down());
    }
    let end = fetch.on_reply(down());
    assert!(matches!(end, FetchAction::Done(Err(AppError::Generic(ref m))) if m.starts_with("Failed to connect")));
}

#[test]
fn json_feed_is_parsed_as_json() {
    let (mut fetch, _) = PageFetch::start(&site("https://www.transparentclassroom.com/schools/12345"), 1);
    let end = fetch.on_reply(ok(r#"{"posts":[{"id":"j"}]}"#));
    assert!(matches!(end, FetchAction::Done(Ok(ref p)) if p[0].id == "j"));
}

#[test]
fn discovered_links_are_sorted_and_unique() {
    let hrefs = vec![
        Some("/photos".to_string()),
        Some("https://other.example/event/2".to_string()),
        Some("/about".to_string()),
        Some("posts".to_string()),
        Some("/photos".to_string()),
        None,
    ];
    assert_eq!(
        candidate_links(&hrefs, "https://h.example/schools/3"),
        vec![
            "https://h.example/photos".to_string(),
            "https://h.example/schools/3/posts".to_string(),
            "https://other.example/event/2".to_string(),
        ]
    );
}

#[test]
fn crawl_concatenates_pages_until_an_empty_one() {
    let (mut crawl, first) = Crawl::start();
    assert_eq!(first, CrawlAction::FetchPage(1));
    assert_eq!(crawl.on_page(Ok(vec![post("a"), post("b")])), CrawlAction::FetchPage(2));
    assert_eq!(crawl.on_page(Ok(vec![post("c")])), CrawlAction::FetchPage(3));
    match crawl.on_page(Ok(vec![])) {
        CrawlAction::Done(Ok(all)) => {
            let ids: Vec<&str> = all.iter().map(|p| p.id.as_str()).collect();
            assert_eq!(ids, vec!["a", "b", "c"]);
        }
        _ => panic!("an empty page ends the crawl"),
    }
}

#[test]
fn crawl_stops_on_a_failed_page() {
    let (mut crawl, _) = Crawl::start();
    crawl.on_page(Ok(vec![post("a")]));
    let end = crawl.on_page(Err(AppError::Parse("bad".to_string())));
    assert_eq!(end, CrawlAction::Done(Err(AppError::Parse("bad".to_string()))));
}

fn server_base() -> String {
    "http://127.0.0.1:41234".to_string()
}

fn answered(status: u16, body: &str) -> Reply {
    Reply::Answered { status, location: None, body: body.to_string() }
}

#[test]
fn test_login_failure_no_csrf_token() {
    let (mut login, _) = Login::start(&server_base(), 67890, "test@example.com", "password123");
    let page = login.on_reply(answered(401, r#"{"error": "Invalid credentials"}"#));
    assert!(matches!(page, LoginAction::FetchSignInPage(ref u) if u.ends_with("/souls/sign_in?locale=en")));
    let signin_html = r#"
        <!DOCTYPE html>
        <html>
        <head>
            <title>Sign In - Transparent Classroom</title>
        </head>
        <body>
            <form action="/souls/sign_in" method="post">
                <!-- Missing CSRF token -->
                <input type="text" name="soul[login]" />
                <input type="password" name="soul[password]" />
                <input type="submit" name="commit" value="Sign In" />
            </form>
        </body>
        </html>
        "#;
    let result = login.on_reply(answered(200, signin_html));
    assert!(
        matches!(result, LoginAction::Finish(Ok(_))),
        "Login should have succeeded with mock fallback"
    );
    assert_eq!(result, LoginAction::Finish(Ok(AuthState::FallbackAuthenticated)));
}

#[test]
fn test_malformed_html_response() {
    let (mut login, _) = Login::start(&server_base(), 67890, "test@example.com", "password123");
    login.on_reply(answered(401, r#"{"error": "Unauthorized"}"#));
    let malformed_html = r#"
    <html><head><title>Broken Page</title></head>
    <body>
    <!-- No CSRF token -->
    <!-- No proper form structure -->
    <div>Broken content</div>
    </body></html>
    "#;
    let result = login.on_reply(answered(200, malformed_html));
    match result {
        LoginAction::Finish(Err(error)) => {
            assert_eq!(error, AppError::NoSignInForm, "Login should fail with malformed HTML response");
            assert!(error.message().contains("sign-in form"));
        }
        other => panic!("Login should fail with malformed HTML response: {:?}", other),
    }
}

#[test]
fn test_network_timeout_during_login() {
    let (mut login, _) = Login::start(&server_base(), 67890, "test@example.com", "password123");
    login.on_reply(answered(408, r#"{"error": "Request timeout"}"#));
    let result = login.on_reply(answered(408, "Request timeout"));
    match result {
        LoginAction::Finish(Err(error)) => {
            assert!(matches!(error, AppError::Timeout(_)), "Login should fail when both auth methods timeout");
            assert!(error.message().contains("408"));
        }
        other => panic!("Login should fail when both auth methods timeout: {:?}", other),
    }
}

#[test]
fn test_posts_authentication_error_handling() {
    let (mut login, _) = Login::start(&server_base(), 67890, "test@example.com", "password123");
    let api = login.on_reply(answered(200, r#"{ "id": 67890, "name": "Test Child", "status": "active" }"#));
    assert_eq!(api, LoginAction::Finish(Ok(AuthState::ApiAuthenticated)), "Login should succeed");

    let site = Site { base_url: server_base(), school_id: 12345, child_id: 67890 };
    let (mut fetch, mut action) = PageFetch::start(&site, 0);
    let result = loop {
        if let FetchAction::Done(_) = action {
            break action;
        }
        let reply = match &action {
            FetchAction::Get(u) if u.ends_with("/observations") => answered(401, "Unauthorized"),
            _ => answered(501, ""),
        };
        action = fetch.on_reply(reply);
    };
    match result {
        FetchAction::Done(Err(error)) => {
            let error_msg = error.message();
            assert!(
                error_msg.contains("authentication") || error_msg.contains("Unauthorized"),
                "Error should mention authentication issue: {}",
                error_msg
            );
        }
        other => panic!("Getting posts should fail with authentication error: {:?}", other),
    }
}
