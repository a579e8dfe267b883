use transparent_classroom_photos_grabber_rs::version;

#[test]
fn test_version() {
    let version = version();
    assert!(!version.is_empty(), "Version should not be empty");
}
