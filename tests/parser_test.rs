use transparent_classroom_photos_grabber_rs::error::AppError;
use transparent_classroom_photos_grabber_rs::json::JsonValue;
use transparent_classroom_photos_grabber_rs::parser::{
    parse_posts, parse_posts_html, parse_posts_json, posts_from_json_value,
    posts_from_observations, Observations,
};
use transparent_classroom_photos_grabber_rs::post::Post;

fn s(x: &str) -> String {
    x.to_string()
}

#[test]
fn json_data_scenario() {
    let body = r#"{"data":[{"id":5,"normalized_text":"Nap time","photos":["http://x/a.jpg"]}]}"#;
    let posts = parse_posts_json(body).expect("listing parses");
    assert_eq!(posts.len(), 1);
    assert_eq!(posts[0].id, "5");
    assert_eq!(posts[0].title, "Nap time");
    assert_eq!(posts[0].photo_urls, vec![s("http://x/a.jpg")]);
    assert_eq!(posts[0].author, "Unknown Author");
    assert_eq!(posts[0].date, "Unknown Date");
    assert_eq!(posts[0].url, "");
}

#[test]
fn json_root_array_and_posts_key() {
    let a = parse_posts_json(r#"[{"id":"a1","title":"T","author_name":"Ann","created_at":"2023-01-02","link":"http://h/p"}]"#)
        .unwrap();
    assert_eq!(a[0].id, "a1");
    assert_eq!(a[0].title, "T");
    assert_eq!(a[0].author, "Ann");
    assert_eq!(a[0].date, "2023-01-02");
    assert_eq!(a[0].url, "http://h/p");
    let b = parse_posts_json(r#"{"posts":[{"text":"hello"},{}]}"#).unwrap();
    assert_eq!(b.len(), 2);
    assert_eq!(b[0].id, "post_0");
    assert_eq!(b[0].title, "hello");
    assert_eq!(b[1].id, "post_1");
    assert_eq!(b[1].title, "Untitled Post");
}

#[test]
fn json_photo_precedence() {
    let body = r#"[{"id":"p","original_photo_url":"http://o/1.jpg","photo_url":"http://t/1.jpg","images":[{"url":"http://i/2.jpg"},"http://i/3.jpg",7]}]"#;
    let posts = parse_posts_json(body).unwrap();
    assert_eq!(
        posts[0].photo_urls,
        vec![s("http://o/1.jpg"), s("http://i/2.jpg"), s("http://i/3.jpg")]
    );
    let thumb = parse_posts_json(r#"[{"photo_url":"http://t/1.jpg"}]"#).unwrap();
    assert_eq!(thumb[0].photo_urls, vec![s("http://t/1.jpg")]);
    let empty_original = parse_posts_json(r#"[{"original_photo_url":"","photo_url":"http://t/1.jpg"}]"#).unwrap();
    assert!(empty_original[0].photo_urls.is_empty());
}

#[test]
fn json_html_fragments_give_title_and_author() {
    let body = r#"[{"html":"<p>Painting</p><p>day</p>","author":"<span>Ms. Lee</span>"}]"#;
    let posts = parse_posts_json(body).unwrap();
    assert_eq!(posts[0].title, "Painting day");
    assert_eq!(posts[0].author, "Ms. Lee");
    let blank = parse_posts_json(r#"[{"html":"<p> </p>","normalized_text":"fallback","author":"<i></i>"}]"#).unwrap();
    assert_eq!(blank[0].title, "fallback");
    assert_eq!(blank[0].author, "Unknown Author");
}

#[test]
fn json_errors_are_parse_errors() {
    assert!(matches!(parse_posts_json("not json"), Err(AppError::Parse(_))));
    assert!(matches!(parse_posts_json(r#"{"items":[]}"#), Err(AppError::Parse(_))));
    assert!(matches!(parse_posts_json(r#"{"posts":{}}"#), Err(AppError::Parse(_))));
    assert!(matches!(parse_posts_json(r#"{"data":3}"#), Err(AppError::Parse(_))));
    assert!(matches!(parse_posts_json(r#"[{"id":"a"}, 4]"#), Err(AppError::Parse(_))));
    assert_eq!(parse_posts_json("[]").unwrap(), Vec::<Post>::new());
}

#[test]
fn json_tree_is_read_directly() {
    let v = JsonValue::Object(vec![(
        s("posts"),
        JsonValue::Array(vec![JsonValue::Object(vec![
            (s("id"), JsonValue::Number(Some(12))),
            (s("content"), JsonValue::Str(s("c"))),
        ])]),
    )]);
    let posts = posts_from_json_value(&v).unwrap();
    assert_eq!(posts[0].id, "12");
    assert_eq!(posts[0].title, "c");
    let neg = JsonValue::Array(vec![JsonValue::Object(vec![(s("id"), JsonValue::Number(None))])]);
    assert_eq!(posts_from_json_value(&neg).unwrap()[0].id, "post_0");
}

const TWO_OBSERVATIONS: &str = r#"
<!DOCTYPE html>
<html><body>
<div class="observations-container">
  <div class="observation" id="obs-123">
    <div class="observation-text">First post content</div>
    <div class="observation-author">Teacher A</div>
    <div class="observation-date">Jan 15, 2023</div>
    <a class="observation-link" href="/observations/123">View Details</a>
    <div class="observation-photo"><img src="/uploads/photos/123.jpg" alt="Photo 1"></div>
    <div class="observation-photo"><img src="/uploads/photos/124.jpg" alt="Photo 2"></div>
  </div>
  <div class="observation" id="obs-456">
    <div class="observation-text">Second post content</div>
    <div class="observation-author">Teacher B</div>
    <div class="observation-date">Jan 16, 2023</div>
    <a class="observation-link" href="/observations/456">View Details</a>
    <div class="observation-photo"><img src="http://cdn.example/456.jpg" alt="Photo 3"></div>
  </div>
</div>
</body></html>
"#;

#[test]
fn html_two_observations_scenario() {
    let posts =
        parse_posts_html(TWO_OBSERVATIONS, "http://127.0.0.1:1234/schools/12345").unwrap();
    assert_eq!(posts.len(), 2);
    assert_eq!(posts[0].photo_urls.len(), 2);
    assert_eq!(posts[1].photo_urls.len(), 1);
    assert_eq!(posts[0].id, "obs-123");
    assert_eq!(posts[0].title, "First post content");
    assert_eq!(posts[0].author, "Teacher A");
    assert_eq!(posts[0].date, "Jan 15, 2023");
    assert_eq!(posts[0].url, "http://127.0.0.1:1234/observations/123");
    assert_eq!(
        posts[0].photo_urls,
        vec![
            s("http://127.0.0.1:1234/uploads/photos/123.jpg"),
            s("http://127.0.0.1:1234/uploads/photos/124.jpg")
        ]
    );
    assert_eq!(posts[1].id, "obs-456");
    assert_eq!(posts[1].photo_urls, vec![s("http://cdn.example/456.jpg")]);
}

#[test]
fn html_missing_parts_take_defaults() {
    let doc = r#"<div class="observation"><p>nothing</p></div>"#;
    let posts = parse_posts_html(doc, "http://h").unwrap();
    assert_eq!(posts.len(), 1);
    assert_eq!(posts[0].id, "post_0");
    assert_eq!(posts[0].title, "Untitled Post");
    assert_eq!(posts[0].author, "Unknown Author");
    assert_eq!(posts[0].date, "Unknown Date");
    assert_eq!(posts[0].url, "");
    assert!(posts[0].photo_urls.is_empty());
    assert!(parse_posts_html("<html><body>empty</body></html>", "http://h").unwrap().is_empty());
}

#[test]
fn both_formats_give_equal_posts() {
    let json = r#"{"posts":[{"id":"obs-1","normalized_text":"Blocks","author_name":"Ann","date":"Jan 1, 2024","url":"http://h/o/1","photos":["http://h/p/1.jpg","http://h/p/2.jpg"]}]}"#;
    let html = r#"<div class="observation" id="obs-1">
        <div class="observation-text">Blocks</div>
        <div class="observation-author">Ann</div>
        <div class="observation-date">Jan 1, 2024</div>
        <a class="observation-link" href="http://h/o/1">x</a>
        <div class="observation-photo"><img src="http://h/p/1.jpg"><img src="http://h/p/2.jpg"></div>
      </div>"#;
    let from_json = parse_posts("http://h/s/1/posts.json?locale=en", json, "http://h/schools/1").unwrap();
    let from_html = parse_posts("http://h/observations", html, "http://h/schools/1").unwrap();
    assert_eq!(from_json, from_html);
    assert_eq!(from_json.len(), 1);
}

#[test]
fn observations_are_turned_into_posts() {
    let o = Observations {
        ids: vec![None],
        texts: vec![vec![vec![s("  a"), s("b  ")]]],
        authors: vec![vec![]],
        dates: vec![vec![vec![s("d")]]],
        links: vec![vec![None]],
        photos: vec![vec![Some(s("/x.jpg")), None]],
    };
    let posts = posts_from_observations(&o, "https://site.example/schools/9");
    assert_eq!(posts[0].id, "post_0");
    assert_eq!(posts[0].title, "a b");
    assert_eq!(posts[0].author, "Unknown Author");
    assert_eq!(posts[0].date, "d");
    assert_eq!(posts[0].url, "");
    assert_eq!(posts[0].photo_urls, vec![s("https://site.example/x.jpg")]);
}

#[test]
fn empty_fragments_fall_through_the_whole_chain() {
    let posts = parse_posts_json(
        r#"[{"html":"<p> </p>","normalized_text":7,"title":"From title","author":"<i></i>","author_name":null,"user":"u1","date":5,"created_at":"2024-02-03","url":1,"link":"http://h/l"}]"#,
    )
    .unwrap();
    assert_eq!(posts[0].title, "From title");
    assert_eq!(posts[0].author, "u1");
    assert_eq!(posts[0].date, "2024-02-03");
    assert_eq!(posts[0].url, "http://h/l");
    let html_not_string = parse_posts_json(r#"[{"html":3,"content":"c"}]"#).unwrap();
    assert_eq!(html_not_string[0].title, "c");
}

#[test]
fn json_error_messages() {
    assert_eq!(
        parse_posts_json(r#"{"items":[]}"#),
        Err(AppError::Parse("Could not find posts array in JSON response".to_string()))
    );
    assert_eq!(
        parse_posts_json(r#"{"posts":{}}"#),
        Err(AppError::Parse("Posts field is not an array".to_string()))
    );
    assert_eq!(
        parse_posts_json(r#"{"data":3}"#),
        Err(AppError::Parse("Data field is not an array".to_string()))
    );
    assert_eq!(
        parse_posts_json(r#"[{"id":"a"}, {"id":"b"}, 4, "x"]"#),
        Err(AppError::Parse("Post 2 is not a valid object".to_string()))
    );
    match parse_posts_json("not json") {
        Err(AppError::Parse(m)) => assert!(m.starts_with("Failed to parse JSON response: ")),
        other => panic!("invalid JSON is a parse error: {:?}", other),
    }
}
