use garyapi::types::{CacheKey, ContentType, DirectoryPath, FileName, ResourceType};

#[test]
fn test_filename_validation() {
    assert!(FileName::new("test.jpg").is_ok());
    assert!(FileName::new("test/file.jpg").is_err());
    assert!(FileName::new("").is_err());
}

#[test]
fn test_content_type_from_extension() {
    assert!(matches!(
        ContentType::from_extension("jpg"),
        ContentType::ImageJpeg
    ));
    assert!(matches!(
        ContentType::from_extension("png"),
        ContentType::ImagePng
    ));
    assert!(matches!(
        ContentType::from_extension("unknown"),
        ContentType::ApplicationOctetStream
    ));
}

#[test]
fn test_filename_extension() {
    let filename = FileName::new_unchecked("test.jpg");
    assert_eq!(filename.extension(), Some("jpg"));

    let filename = FileName::new_unchecked("noextension");
    assert_eq!(filename.extension(), None);
}

#[test]
fn test_filename_extension_edges() {
    // A leading dot is not an extension separator.
    assert_eq!(FileName::new_unchecked(".hidden").extension(), None);
    // A trailing dot yields no extension.
    assert_eq!(FileName::new_unchecked("file.").extension(), None);
    // The last dot wins.
    assert_eq!(FileName::new_unchecked("a.b.c").extension(), Some("c"));
    assert_eq!(FileName::new_unchecked("a.b.").extension(), None);
}

#[test]
fn test_filename_validation_backslash() {
    assert!(FileName::new("a\\b").is_err());
    let f = FileName::new("plain.png").unwrap();
    assert_eq!(f.as_str(), "plain.png");
    assert_eq!(f.as_bytes(), b"plain.png");
}

#[test]
fn test_content_type_case_insensitive() {
    assert!(matches!(
        ContentType::from_extension("JPG"),
        ContentType::ImageJpeg
    ));
    assert!(matches!(
        ContentType::from_extension("JpEg"),
        ContentType::ImageJpeg
    ));
    assert!(matches!(
        ContentType::from_extension("WEBP"),
        ContentType::ImageWebp
    ));
    assert!(matches!(
        ContentType::from_extension("GIF"),
        ContentType::ImageGif
    ));
}

#[test]
fn test_content_type_from_filename() {
    let f = FileName::new_unchecked("photo.PNG");
    assert!(matches!(
        ContentType::from_filename(&f),
        ContentType::ImagePng
    ));
    let g = FileName::new_unchecked("noext");
    assert!(matches!(
        ContentType::from_filename(&g),
        ContentType::ApplicationOctetStream
    ));
}

#[test]
fn test_content_type_strings() {
    assert_eq!(ContentType::ImageJpeg.as_str(), "image/jpeg");
    assert_eq!(ContentType::ApplicationJson.as_str(), "application/json");
    assert_eq!(ContentType::TextPlain.as_str(), "text/plain");
    assert_eq!(
        ContentType::ApplicationOctetStream.as_str(),
        "application/octet-stream"
    );
}

#[test]
fn test_directory_join() {
    let dir = DirectoryPath::new("images/gary");
    let name = FileName::new_unchecked("pic.jpg");
    assert_eq!(dir.join(&name), "images/gary/pic.jpg");
    assert_eq!(dir.as_str(), "images/gary");
}

#[test]
fn test_cache_key() {
    let k = CacheKey::new("some.jpg");
    assert_eq!(k.as_str(), "some.jpg");
    let f = FileName::new_unchecked("other.png");
    let k2 = CacheKey::from_file_name(&f);
    assert_eq!(k2.as_str(), "other.png");
}

#[test]
fn test_resource_type_strings() {
    assert_eq!(ResourceType::Gary.as_str(), "gary");
    assert_eq!(ResourceType::Goober.as_str(), "goober");
    assert_eq!(ResourceType::Gary.default_image(), "Gary76.jpg");
    assert_eq!(ResourceType::Goober.default_image(), "goober8.jpg");
}

#[test]
fn test_filename_error_messages() {
    assert_eq!(
        FileName::new("a/b").unwrap_err(),
        "File name cannot contain path separators"
    );
    assert_eq!(FileName::new("").unwrap_err(), "File name cannot be empty");
}
