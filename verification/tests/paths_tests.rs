use flashcap::errors::ScreenshotError;
use flashcap::paths::join_path;
use flashcap::paths::path_contains;
use flashcap::paths::split_parent_file;
use flashcap::paths::validate_destination;
use flashcap::persist::prepare_image_write;

#[test]
fn descendant_is_contained() {
    assert!(path_contains("/save", "/save/shot.png"));
    assert!(path_contains("/save", "/save/deep/shot.png"));
    assert!(path_contains("/", "/anything"));
}

#[test]
fn sibling_with_shared_prefix_is_not_contained() {
    assert!(!path_contains("/save", "/savenot/shot.png"));
    assert!(!path_contains("/save", "/other/shot.png"));
    assert!(!path_contains("/save/deep", "/save"));
    // the directory itself is no file destination
    assert!(!path_contains("/save", "/save"));
}

#[test]
fn validate_accepts_contained_target() {
    let r = validate_destination("/save", "/save/shot.png").unwrap();
    assert_eq!(r.path, "/save/shot.png");
    assert_eq!(r.save_dir, "/save");
}

#[test]
fn validate_rejects_escaping_target() {
    match validate_destination("/save", "/elsewhere/shot.png") {
        Err(ScreenshotError::PathEscape { target, save_dir }) => {
            assert_eq!(target, "/elsewhere/shot.png");
            assert_eq!(save_dir, "/save");
        },
        _ => panic!("expected a path-escape error"),
    }
}

// A symlink inside the save directory that points elsewhere is resolved
// by canonicalization before validation: the canonical target names the
// link's destination, and containment is judged on that.
#[test]
fn symlink_resolved_target_outside_is_rejected() {
    // /save/link -> /outside, so /save/link/shot.png canonicalizes to:
    let canonical_target = "/outside/shot.png";
    match validate_destination("/save", canonical_target) {
        Err(ScreenshotError::PathEscape { target, save_dir }) => {
            assert_eq!(target, "/outside/shot.png");
            assert_eq!(save_dir, "/save");
        },
        _ => panic!("expected a path-escape error"),
    }
}

#[test]
fn split_keeps_separator_on_parent() {
    let (parent, name) = split_parent_file("/a/b/c.png").unwrap();
    assert_eq!(parent, "/a/b/");
    assert_eq!(name, "c.png");
}

#[test]
fn split_of_root_level_file() {
    let (parent, name) = split_parent_file("/c.png").unwrap();
    assert_eq!(parent, "/");
    assert_eq!(name, "c.png");
}

#[test]
fn split_refuses_paths_without_a_name() {
    assert!(split_parent_file("").is_none());
    assert!(split_parent_file("/a/b/").is_none());
    assert!(split_parent_file("plain.png").is_none());
}

#[test]
fn join_inserts_exactly_one_separator() {
    assert_eq!(join_path("/a/b", "c.png"), "/a/b/c.png");
    assert_eq!(join_path("/a/b/", "c.png"), "/a/b/c.png");
    assert_eq!(join_path("/", "c.png"), "/c.png");
}

#[test]
fn prepare_write_rejects_escape_before_decoding() {
    // The data is valid base64; the escape must be reported anyway.
    match prepare_image_write("/save", "/outside/shot.png", "aGVsbG8=") {
        Err(ScreenshotError::PathEscape { target, save_dir }) => {
            assert_eq!(target, "/outside/shot.png");
            assert_eq!(save_dir, "/save");
        },
        _ => panic!("expected a path-escape error"),
    }
}

#[test]
fn prepare_write_returns_exact_decoded_bytes() {
    let (resolved, bytes) = prepare_image_write("/save", "/save/shot.png", "aGVsbG8=").unwrap();
    assert_eq!(resolved.path, "/save/shot.png");
    assert_eq!(bytes, b"hello".to_vec());
}

#[test]
fn prepare_write_reports_malformed_data() {
    match prepare_image_write("/save", "/save/shot.png", "not base64!") {
        Err(ScreenshotError::DecodeFailed) => {},
        _ => panic!("expected a decode failure"),
    }
}
