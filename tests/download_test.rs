use transparent_classroom_photos_grabber_rs::download::{
    metadata_file_name, metadata_text, photo_file_name, photo_timestamp, plan_photo,
    sanitize_filename, BatchAction, DownloadAll, PhotoStep,
};
use transparent_classroom_photos_grabber_rs::error::AppError;
use transparent_classroom_photos_grabber_rs::post::Post;

fn post_with(id: &str, photos: &[&str]) -> Post {
    Post {
        id: id.to_string(),
        title: "Test Photo Post".to_string(),
        author: "Test Author".to_string(),
        date: "Jan 20, 2023".to_string(),
        url: "http://h/posts/123".to_string(),
        photo_urls: photos.iter().map(|p| p.to_string()).collect(),
    }
}

#[test]
fn file_names_follow_the_photo_count() {
    let two = post_with("P1", &["http://h/a.jpg", "http://h/b.jpg"]);
    assert_eq!(photo_file_name(&two, 0), "P1_0_max.jpg");
    assert_eq!(photo_file_name(&two, 1), "P1_1_max.jpg");
    let one = post_with("P2", &["http://h/c.jpg"]);
    assert_eq!(photo_file_name(&one, 0), "P2_max.jpg");
    assert_eq!(metadata_file_name(&two, 1), "P1_1_max.metadata.txt");
    assert_eq!(metadata_file_name(&one, 0), "P2_max.metadata.txt");
}

#[test]
fn second_download_reuses_the_file() {
    let p = post_with("test-123", &["http://h/uploads/photos/123.jpg"]);
    match plan_photo(&p, 0, false).unwrap() {
        PhotoStep::Fetch(t) => {
            assert_eq!(t.url, "http://h/uploads/photos/123.jpg");
            assert_eq!(t.file_name, "test-123_max.jpg");
            assert_eq!(t.metadata_name, "test-123_max.metadata.txt");
        }
        PhotoStep::UseExisting(_) => panic!("nothing is there yet"),
    }
    match plan_photo(&p, 0, true).unwrap() {
        PhotoStep::UseExisting(f) => assert_eq!(f, "test-123_max.jpg"),
        PhotoStep::Fetch(_) => panic!("an existing file is not fetched again"),
    }
}

#[test]
fn bad_indexes_are_errors() {
    let none = post_with("empty", &[]);
    assert_eq!(
        plan_photo(&none, 0, false).err(),
        Some(AppError::Generic("Post empty has no photos to download".to_string()))
    );
    let one = post_with("x", &["http://h/1.jpg"]);
    assert_eq!(
        plan_photo(&one, 3, false).err(),
        Some(AppError::Generic("Photo index 3 out of range for post with 1 photos".to_string()))
    );
}

#[test]
fn metadata_lists_the_post() {
    let p = post_with("test-123", &["http://h/a.jpg"]);
    assert_eq!(
        metadata_text(&p, "41.9032776", "-87.6663027", "test, school, chicago"),
        "Title: Test Photo Post\nAuthor: Test Author\nDate: Jan 20, 2023\nURL: http://h/posts/123\nPost ID: test-123\nSchool Location: 41.9032776, -87.6663027 (test, school, chicago)\n"
    );
}

#[test]
fn dates_give_timestamps_when_readable() {
    assert_eq!(photo_timestamp("2023-01-15"), Some(1673740800));
    assert_eq!(photo_timestamp("2023-01-15T01:00:00+01:00"), Some(1673740800));
    assert_eq!(photo_timestamp("Jan 15, 2023"), None);
    assert_eq!(photo_timestamp("Unknown Date"), None);
    assert_eq!(photo_timestamp(""), None);
    assert_eq!(photo_timestamp("1969-12-31"), None);
}

#[test]
fn batch_skips_failures_and_keeps_going() {
    let p = post_with("m", &["http://h/1.jpg", "http://h/2.jpg", "http://h/3.jpg"]);
    let (mut batch, first) = DownloadAll::start(&p);
    assert_eq!(first, BatchAction::Download(0));
    assert_eq!(batch.on_photo(Ok("m_0_max.jpg".to_string())), BatchAction::Download(1));
    assert_eq!(batch.on_photo(Err(AppError::Generic("404".to_string()))), BatchAction::Download(2));
    assert_eq!(
        batch.on_photo(Ok("m_2_max.jpg".to_string())),
        BatchAction::Finish(vec!["m_0_max.jpg".to_string(), "m_2_max.jpg".to_string()])
    );
    let (_, nothing) = DownloadAll::start(&post_with("n", &[]));
    assert_eq!(nothing, BatchAction::Finish(vec![]));
}

#[test]
fn file_name_sanitizing() {
    assert_eq!(sanitize_filename("  My photo: a/b?  "), "My_photo_ab");
    assert_eq!(sanitize_filename("<\"'|*\\>"), "");
    let long = "x".repeat(60);
    assert_eq!(sanitize_filename(&long), "x".repeat(50));
    let wide = "é".repeat(30);
    assert_eq!(sanitize_filename(&wide), "é".repeat(25));
}
