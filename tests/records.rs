use boom::records::{path_mapper, peak_level, Api, DatabasePlugin, InvalidUploadUrl, Upload};
use boom::text::{split_once_char, strip_leading_slash, strip_quotes, trim_trailing_slashes};
use boom::window::{same_text, WindowLabel};

#[test]
fn upload_record_url_and_key() {
    let u = Upload::new(
        7,
        "https://media.s3.example.com/clips/a.mp4".to_string(),
        "2024-01-01".to_string(),
        "video/mp4".to_string(),
    );
    assert_eq!(u.id(), 7);
    assert_eq!(u.mime_type(), "video/mp4");
    assert_eq!(u.created_at(), "2024-01-01");
    assert_eq!(u.url().unwrap().host_str(), Some("media.s3.example.com"));
    assert_eq!(u.object_key().unwrap(), "clips/a.mp4");
    let bad = Upload::new(8, "nope".to_string(), String::new(), String::new());
    assert_eq!(bad.object_key(), Err(InvalidUploadUrl));
    assert!(bad.url().is_err());
}

#[test]
fn database_path() {
    assert_eq!(path_mapper("/tmp/app", "sqlite:boom.db"), Some("sqlite:/tmp/app/boom.db".to_string()));
    assert_eq!(path_mapper("/tmp/app", "sqlite:a:b.db"), Some("sqlite:/tmp/app/a:b.db".to_string()));
    assert_eq!(path_mapper("/tmp/app", "boom.db"), None);
    assert_eq!(DatabasePlugin::init("sqlite:boom.db").database_str(), "sqlite:boom.db");
    assert_eq!(Api::init("sqlite:x.db").database_str(), "sqlite:x.db");
}

#[test]
fn peak_of_samples() {
    assert_eq!(peak_level(&[]), 0);
    assert_eq!(peak_level(&[3, 200, 17]), 200);
    assert_eq!(peak_level(&[255]), 255);
}

#[test]
fn text_helpers() {
    assert_eq!(strip_quotes("\"abc\""), "abc");
    assert_eq!(strip_quotes("a\"b\"\"c"), "abc");
    assert_eq!(strip_quotes(""), "");
    assert_eq!(trim_trailing_slashes("https://x.io///"), "https://x.io");
    assert_eq!(trim_trailing_slashes("///"), "");
    assert_eq!(strip_leading_slash("/a/b"), "a/b");
    assert_eq!(strip_leading_slash("a/b"), "a/b");
    assert_eq!(strip_leading_slash("//a"), "/a");
    assert_eq!(split_once_char("k:v:w", ':'), Some(("k", "v:w")));
    assert_eq!(split_once_char("kv", ':'), None);
}

#[test]
fn window_labels() {
    assert_eq!(WindowLabel::Main.as_str(), "main");
    assert_eq!(WindowLabel::Overlay.to_string(), "overlay");
    assert_eq!(WindowLabel::parse("overlay"), Ok(WindowLabel::Overlay));
    assert_eq!("main".parse::<WindowLabel>(), Ok(WindowLabel::Main));
    assert_eq!(WindowLabel::parse("Main").unwrap_err().label, "Main");
    assert!(same_text("ab", "ab"));
    assert!(!same_text("ab", "abc"));
}
