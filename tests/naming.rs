use embed_bot::resolve::{
    disposition_filename, file_extension, name_with_extensions, resolve_filename, resolve_mime_type,
    url_file_name,
};
use embed_bot::text::{decimal_string, equals_ignore_ascii_case, parse_u32, trim};

const PNG: &[u8] = b"\x89PNG\r\n\x1a\n\0\0\0\rIHDR";

#[test]
fn deceptive_extension_gets_canonical_one() {
    assert_eq!(resolve_filename("video/mp4", None, "/media/clip.mp4:orig"), "clip.mp4:orig.mp4");
}

#[test]
fn accepted_extension_is_kept() {
    assert_eq!(resolve_filename("video/mp4", None, "/clip.MP4"), "clip.MP4");
    assert_eq!(resolve_filename("image/jpeg", None, "/a/photo.jpeg"), "photo.jpeg");
}

#[test]
fn fallback_names() {
    assert_eq!(resolve_filename("image/png", None, "/"), "media.png");
    assert_eq!(resolve_filename("application/x-unknown-thing", None, "/"), "media");
    assert_eq!(resolve_filename("application/x-unknown-thing", None, "/file.bin"), "file.bin");
}

#[test]
fn disposition_name_wins() {
    assert_eq!(
        resolve_filename("image/png", Some("attachment; FileName=\"shot.png\""), "/other.jpg"),
        "shot.png"
    );
    assert_eq!(resolve_filename("image/png", Some("inline"), "/other"), "other.png");
}

#[test]
fn disposition_parsing() {
    assert_eq!(disposition_filename("attachment; filename=a.txt").as_deref(), Some("a.txt"));
    assert_eq!(disposition_filename("attachment;filename=\"b c.txt\" ").as_deref(), Some("b c.txt"));
    assert_eq!(disposition_filename("filename=\"\"; filename=d.txt").as_deref(), Some("d.txt"));
    assert_eq!(disposition_filename("attachment; name=x").as_deref(), None);
    assert_eq!(disposition_filename("").as_deref(), None);
    assert_eq!(disposition_filename("filename=\"").as_deref(), Some("\""));
}

#[test]
fn url_segments() {
    assert_eq!(url_file_name("/a/b/c.png").as_deref(), Some("c.png"));
    assert_eq!(url_file_name("/a/b/").as_deref(), None);
    assert_eq!(url_file_name("/").as_deref(), None);
    assert_eq!(url_file_name("").as_deref(), None);
    assert_eq!(url_file_name("opaque:path").as_deref(), None);
}

#[test]
fn extensions_as_paths_read_them() {
    assert_eq!(file_extension("a.tar.gz"), "gz");
    assert_eq!(file_extension(".bashrc"), "");
    assert_eq!(file_extension(".a.b"), "b");
    assert_eq!(file_extension("a."), "");
    assert_eq!(file_extension("dir/file.txt"), "txt");
    assert_eq!(file_extension("file.txt/"), "txt");
    assert_eq!(file_extension("file.txt/."), "txt");
    assert_eq!(file_extension("x.y/.."), "");
    assert_eq!(file_extension(""), "");
    assert_eq!(file_extension("clip.mp4:orig"), "mp4:orig");
}

#[test]
fn extension_appended_after_name_from_list() {
    let exts = Some(vec!["mp4".to_string(), "mp4v".to_string()]);
    assert_eq!(name_with_extensions(Some("x.MP4V".to_string()), &exts), "x.MP4V");
    assert_eq!(name_with_extensions(Some("x.mov".to_string()), &exts), "x.mov.mp4");
    assert_eq!(name_with_extensions(None, &exts), "media.mp4");
    assert_eq!(name_with_extensions(None, &Some(vec![])), "media");
    assert_eq!(name_with_extensions(Some("y".to_string()), &None), "y");
}

#[test]
fn sniffed_type_outranks_header() {
    assert_eq!(resolve_mime_type(Some("text/plain"), "/x.txt", PNG), "image/png");
}

#[test]
fn header_outranks_path() {
    assert_eq!(resolve_mime_type(Some("image/gif"), "/x.txt", b"hello"), "image/gif");
}

#[test]
fn path_guess_then_binary() {
    assert_eq!(resolve_mime_type(None, "/x.txt", b"hello"), "text/plain");
    assert_eq!(resolve_mime_type(Some("not a mime"), "/x.mp3", b"hello"), "audio/mpeg");
    assert_eq!(resolve_mime_type(None, "/x", b"hello"), "application/octet-stream");
}

#[test]
fn text_helpers() {
    assert_eq!(trim("\u{a0} a b \u{3000}\n"), "a b");
    assert_eq!(trim("   "), "");
    assert!(equals_ignore_ascii_case("Video/X-Matroska", "video/x-matroska"));
    assert!(!equals_ignore_ascii_case("vidéo", "VIDÉO"));
    assert_eq!(parse_u32("007"), Some(7));
    assert_eq!(parse_u32("+"), None);
    assert_eq!(parse_u32(""), None);
    assert_eq!(decimal_string(0), "0");
    assert_eq!(decimal_string(1234567890), "1234567890");
}

#[test]
fn declared_type_is_normalized_by_parsing() {
    assert_eq!(resolve_mime_type(Some("IMAGE/GIF"), "/x.txt", b"hello"), "image/gif");
}

#[test]
fn extension_agrees_with_std_path() {
    let cases = [
        "", ".", "..", "/", "//", "a", "a.b", "a.b.c", ".a", ".a.b", "a.", "a..", "..a", "...",
        "a/b.c", "a/b.c/", "a/b.c/.", "a/b.c/./", "a/..", "./a.b", "/a.b", "a//b.c", "a/.b",
        "clip.mp4:orig", "x y.z w", "é.ü", "a/b/../c.d", "a.b/..", "a.b/./..",
    ];
    for c in cases {
        let expected = std::path::Path::new(c).extension().and_then(|e| e.to_str()).unwrap_or("");
        assert_eq!(file_extension(c), expected, "input {:?}", c);
    }
}

#[test]
fn offered_name_ending_in_slash_is_not_a_file_name() {
    assert_eq!(
        resolve_filename("video/mp4", Some("attachment; filename=\"dir/\""), "/"),
        "media.mp4"
    );
    assert_eq!(
        resolve_filename("video/mp4", Some("attachment; filename=dir/"), "/v/clip"),
        "clip.mp4"
    );
    assert_eq!(disposition_filename("filename=a/; filename=b.mp4").as_deref(), Some("b.mp4"));
    assert_eq!(resolve_filename("video/mp4", Some("filename=a/b"), "/"), "a/b.mp4");
}
