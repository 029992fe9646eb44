use azalea_shell::image::{classify, classify_strict, data_url_payload_exec, decode_data_url, scaled_size, truncate, ImageSource};

#[test]
fn classify_locations() {
    assert!(matches!(classify("https://a/b.png"), ImageSource::Http(ref u) if u == "https://a/b.png"));
    assert!(matches!(classify("data:image/png;base64,AAAA"), ImageSource::DataUrl(_)));
    assert!(matches!(classify("file:///tmp/a.png"), ImageSource::File(ref p) if p == "/tmp/a.png"));
    assert!(matches!(classify("/tmp/a.png"), ImageSource::File(ref p) if p == "/tmp/a.png"));
    assert!(classify_strict("/tmp/a.png").is_none());
    assert!(matches!(classify_strict("file:///x"), Some(ImageSource::File(ref p)) if p == "/x"));
    assert!(matches!(classify_strict("http://x"), Some(ImageSource::Http(_))));
}

#[test]
fn data_url_decoding() {
    assert_eq!(decode_data_url("data:image/png;base64,aGVsbG8="), Some(b"hello".to_vec()));
    assert_eq!(decode_data_url("data:image/png,raw"), None);
    assert_eq!(decode_data_url("data:image/png;base64,!!!"), None);
    assert_eq!(data_url_payload_exec("data:image/png;base64,AB;base64,CD").as_deref(), Some("AB;"));
    assert_eq!(decode_data_url("data:image/png;base64,"), Some(vec![]));
}

#[test]
fn truncation_keeps_fifty_characters() {
    let long: String = "é".repeat(60);
    assert_eq!(truncate(&long).chars().count(), 50);
    assert_eq!(truncate("short"), "short");
    let exactly: String = "x".repeat(50);
    assert_eq!(truncate(&exactly), exactly);
}

#[test]
fn scaling_keeps_aspect_ratio() {
    assert_eq!(scaled_size(None, None, 640, 480), None);
    assert_eq!(scaled_size(None, Some(30), 640, 480), Some((40, 30)));
    assert_eq!(scaled_size(Some(100), None, 640, 480), Some((100, 75)));
    assert_eq!(scaled_size(Some(10), Some(20), 640, 480), Some((10, 20)));
    assert_eq!(scaled_size(None, Some(100), 33, 100), Some((33, 100)));
    assert_eq!(scaled_size(None, Some(10), 33, 100), Some((3, 10)));
}
