use aws_image_upload::config::{log_filter, setting, Destination};

#[test]
fn destination_defaults() {
    let to = Destination::new(None, None, None);
    assert_eq!(to.bucket, "my-bucket-name");
    assert_eq!(to.bucket_url, "my-bucket-name");
    assert_eq!(to.sub_path, "uploaded_images");
}

#[test]
fn public_address_defaults_to_the_bucket_that_is_set() {
    let to = Destination::new(Some("photos".to_string()), None, None);
    assert_eq!(to.bucket, "photos");
    assert_eq!(to.bucket_url, "photos");
    assert_eq!(to.sub_path, "uploaded_images");
}

#[test]
fn destination_as_set() {
    let to = Destination::new(
        Some("photos".to_string()),
        Some("https://cdn.example.com".to_string()),
        Some("incoming".to_string()),
    );
    assert_eq!(to.bucket, "photos");
    assert_eq!(to.bucket_url, "https://cdn.example.com");
    assert_eq!(to.sub_path, "incoming");
}

#[test]
fn public_address_set_without_bucket() {
    let to = Destination::new(None, Some("https://cdn.example.com".to_string()), None);
    assert_eq!(to.bucket, "my-bucket-name");
    assert_eq!(to.bucket_url, "https://cdn.example.com");
}

#[test]
fn setting_that_is_set_to_nothing_stays_empty() {
    assert_eq!(setting(Some(String::new()), "fallback"), "");
    assert_eq!(setting(None, "fallback"), "fallback");
    assert_eq!(setting(Some("x".to_string()), "fallback"), "x");
}

#[test]
fn log_filter_falls_back_when_nothing_is_set() {
    assert_eq!(log_filter(None), "aws_image_upload=debug");
    assert_eq!(log_filter(Some("info".to_string())), "info");
}
