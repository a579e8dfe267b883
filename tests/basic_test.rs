use transparent_classroom_photos_grabber_rs::error::{generic_error, AppError};

#[test]
fn test_error_conversion() {
    let app_error = AppError::Generic("Test error".to_string());
    assert!(app_error.message().contains("Test error"));

    let app_error = AppError::Parse("Parse error".to_string());
    assert!(app_error.message().contains("Parse error"));
}

#[test]
fn error_messages_are_exact() {
    assert_eq!(AppError::Config("x".to_string()).message(), "Configuration error: x");
    assert_eq!(AppError::Io("disk".to_string()).message(), "IO error: disk");
    assert_eq!(AppError::Parse("bad".to_string()).message(), "Parse error: bad");
    assert_eq!(AppError::Timeout("slow".to_string()).message(), "slow");
    assert_eq!(
        AppError::NoSignInForm.message(),
        "Parse error: Could not find sign-in form in page"
    );
    assert_eq!(
        AppError::NoCsrfToken.message(),
        "Parse error: Could not find CSRF token in sign-in form"
    );
    assert_eq!(generic_error("boom"), AppError::Generic("boom".to_string()));
}
