use s3_fileserver::error::{succeeded, GatewayError};

#[test]
fn error_status_codes() {
    assert_eq!(GatewayError::NotFound.status_code(), 404);
    assert_eq!(GatewayError::BadRequest.status_code(), 400);
    assert_eq!(GatewayError::UpstreamError.status_code(), 500);
    assert_eq!(GatewayError::ConfigurationError.status_code(), 500);
    assert_eq!(GatewayError::TooManyParts.status_code(), 500);
}

#[test]
fn error_messages_name_the_class_only() {
    assert_eq!(GatewayError::NotFound.message(), "Not Found");
    assert_eq!(GatewayError::BadRequest.message(), "No 'file' field found in request");
    assert_eq!(GatewayError::UpstreamError.message(), "Error accessing S3 object store");
    assert_eq!(GatewayError::ConfigurationError.message(), "Invalid API_URL");
    assert_eq!(GatewayError::TooManyParts.message(), "Too many parts");
}

#[test]
fn succeeded_means_a_status_from_200_to_299() {
    assert!(succeeded(200));
    assert!(succeeded(204));
    assert!(succeeded(299));
    assert!(!succeeded(199));
    assert!(!succeeded(300));
    assert!(!succeeded(0));
    assert!(!succeeded(404));
    assert!(!succeeded(u16::MAX));
}
