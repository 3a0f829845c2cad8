use profiles::image_url::{ImageUrl, ImageUrlError};

#[test]
fn when_image_url_empty_should_empty_error() {
    let image_url = ImageUrl::try_new("".to_string());
    assert!(matches!(image_url, Err(ImageUrlError::Empty)));
}

#[test]
fn when_image_url_too_long_should_too_long_error() {
    let long_url = "https://example.com/".repeat(200); // 200 * 19 = 3800 characters
    let image_url = ImageUrl::try_new(long_url);
    assert!(matches!(image_url, Err(ImageUrlError::TooLong(_))));
}

#[test]
fn when_image_url_invalid_scheme_should_invalid_scheme_error() {
    let image_url = ImageUrl::try_new("ftp://example.com/image.jpg".to_string());
    assert!(matches!(image_url, Err(ImageUrlError::InvalidScheme)));
}

#[test]
fn when_image_url_invalid_extension_should_invalid_extension_error() {
    let image_url = ImageUrl::try_new("https://example.com/image.txt".to_string());
    assert!(matches!(image_url, Err(ImageUrlError::InvalidExtension)));
}

#[test]
fn when_image_url_valid_should_create_image_url() {
    let url = "https://example.com/image.jpg";
    let image_url = ImageUrl::try_new(url.to_string()).unwrap();
    assert_eq!(image_url.as_ref(), url);
}

#[test]
fn when_image_url_valid_should_create_image_url_from_str() {
    let url = "https://example.com/image.jpg";
    let image_url = ImageUrl::try_from(url).unwrap();
    assert_eq!(image_url.as_ref(), url);
}

#[test]
fn when_image_url_valid_should_create_image_url_from_string() {
    let url = "https://example.com/image.jpg".to_string();
    let image_url = ImageUrl::try_from(url.clone()).unwrap();
    assert_eq!(image_url.as_ref(), url);
}

#[test]
fn when_image_url_valid_should_display_image_url() {
    let url = "https://example.com/image.jpg";
    let image_url = ImageUrl::try_new(url.to_string()).unwrap();
    assert_eq!(image_url.to_string(), url);
}

#[test]
fn scheme_is_checked_before_extension() {
    assert_eq!(
        ImageUrl::try_new("ftp://x.com/a.png".to_string()),
        Err(ImageUrlError::InvalidScheme)
    );
    assert_eq!(
        ImageUrl::try_new("ftp://x.com/a.txt".to_string()),
        Err(ImageUrlError::InvalidScheme)
    );
}

#[test]
fn every_image_extension_and_both_schemes() {
    for url in [
        "http://x.com/a.jpg",
        "https://x.com/a.jpeg",
        "https://x.com/a.png",
        " http://x.com/a.gif ",
    ] {
        assert_eq!(ImageUrl::try_new(url.to_string()).unwrap().as_ref(), url.trim());
    }
    assert_eq!(
        ImageUrl::try_new("https://x.com/a.PNG".to_string()),
        Err(ImageUrlError::InvalidExtension)
    );
}

#[test]
fn image_url_length_boundaries() {
    let prefix = "https://x.com/";
    let at_max = format!("{}{}.png", prefix, "a".repeat(2048 - prefix.len() - 4));
    assert_eq!(at_max.len(), 2048);
    assert!(ImageUrl::try_new(at_max).is_ok());
    let over = format!("{}{}.png", prefix, "a".repeat(2049 - prefix.len() - 4));
    assert_eq!(ImageUrl::try_new(over), Err(ImageUrlError::TooLong(2048)));
}
