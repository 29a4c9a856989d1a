use media_journal::{build_upload_request, path_is_mp4, strip_quotes, trim, Config};

fn config_for(id: &str) -> Config {
    Config {
        mongo_uri: String::from("mongodb://localhost:27017"),
        mongo_db: String::from("journal"),
        mongo_collection: String::from("entries"),
        cloudinary_id: String::from(id),
        cloudinary_api_key: String::from("key-123"),
        cloudinary_preset: String::from("preset-7"),
    }
}

#[test]
fn trim_removes_surrounding_whitespace() {
    assert_eq!(trim("  Refactoring the scheduler \n"), "Refactoring the scheduler");
    assert_eq!(trim("\t a b \t"), "a b");
}

#[test]
fn trim_of_trimmed_is_identity() {
    let once = trim("   note text  ");
    let twice = trim(&once);
    assert_eq!(once, twice);
    assert_eq!(trim("already trimmed"), "already trimmed");
}

#[test]
fn trim_keeps_interior_whitespace() {
    assert_eq!(trim("  a   b  "), "a   b");
}

#[test]
fn trim_of_empty_and_blank() {
    assert_eq!(trim(""), "");
    assert_eq!(trim(" \t\r\n"), "");
}

#[test]
fn strip_quotes_is_global() {
    assert_eq!(strip_quotes("'/a/b'.mp4'"), "/a/b.mp4");
    assert_eq!(strip_quotes("'/tmp/clip.mp4'"), "/tmp/clip.mp4");
}

#[test]
fn strip_quotes_keeps_everything_else() {
    assert_eq!(strip_quotes("/plain/path.jpg"), "/plain/path.jpg");
    assert_eq!(strip_quotes(""), "");
    assert_eq!(strip_quotes("''"), "");
}

#[test]
fn mp4_suffix_routes_to_video() {
    assert!(path_is_mp4("/tmp/clip.mp4"));
    assert!(path_is_mp4(".mp4"));
}

#[test]
fn other_paths_route_to_image() {
    assert!(!path_is_mp4("/tmp/photo.jpg"));
    assert!(!path_is_mp4("noextension"));
    assert!(!path_is_mp4("/tmp/movie.avi"));
    assert!(!path_is_mp4("/tmp/clip.mp4.jpg"));
    assert!(!path_is_mp4("mp4"));
    assert!(!path_is_mp4(""));
}

#[test]
fn upload_request_video_url() {
    let config = config_for("acct-1");
    let request = build_upload_request(&config, String::from("/tmp/clip.mp4"));
    assert_eq!(request.url, "https://api.cloudinary.com/v1_1/acct-1/video/upload");
    assert!(request.url.contains("/video/"));
    assert_eq!(request.api_key, "key-123");
    assert_eq!(request.upload_preset, "preset-7");
    assert_eq!(request.file_path, "/tmp/clip.mp4");
}

#[test]
fn upload_request_image_url() {
    let config = config_for("acct-2");
    let request = build_upload_request(&config, String::from("/tmp/photo.jpg"));
    assert_eq!(request.url, "https://api.cloudinary.com/v1_1/acct-2/image/upload");
    assert!(request.url.contains("/image/"));
    assert!(!request.url.contains("/video/"));
}
