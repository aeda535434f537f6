use file_browser::info::{file_info_text, info_text, time_field, timestamp_field, FileFacts};
use file_browser::path::extension;

fn facts(created: Option<(i64, u32)>, modified: Option<(i64, u32)>) -> FileFacts {
    FileFacts { size_text: "1.50".to_string(), created, modified }
}

#[test]
fn info_without_entry_is_a_notice() {
    assert_eq!(file_info_text(None, None), "No Permission for this Folder, PageDown to return");
}

#[test]
fn info_without_metadata_is_empty() {
    let e = "/a/b.txt".to_string();
    assert_eq!(file_info_text(Some(&e), None), "");
}

#[test]
fn info_of_a_file() {
    let e = "/a/b.txt".to_string();
    let f = facts(Some((0, 0)), Some((86_400 + 3_661, 5)));
    assert_eq!(
        file_info_text(Some(&e), Some(&f)),
        "Extension:\"txt\"\nSize: 1.50 KiB\nCreated: 1970-01-01 00:00:00\nModified: 1970-01-02 01:01:01\n"
    );
}

#[test]
fn info_of_a_file_without_extension_or_times() {
    let e = "/a/.profile".to_string();
    let f = facts(None, Some((i64::MAX, 0)));
    assert_eq!(
        file_info_text(Some(&e), Some(&f)),
        "Extension:\"none\"\nSize: 1.50 KiB\nCreated: Unavailable\nModified: Unavailable\n"
    );
}

#[test]
fn time_fields() {
    assert_eq!(timestamp_field(Some((1_000_000_000, 0))), "2001-09-09 01:46:40");
    assert_eq!(timestamp_field(None), "Unavailable");
    assert_eq!(time_field(Some("x".to_string())), "x");
    assert_eq!(time_field(None), "Unavailable");
}

#[test]
fn info_text_layout() {
    assert_eq!(info_text("\"rs\"", "0.00", "c", "m"), "Extension:\"rs\"\nSize: 0.00 KiB\nCreated: c\nModified: m\n");
}

#[test]
fn extensions() {
    assert_eq!(extension("/a/b.tar.gz"), Some("gz".to_string()));
    assert_eq!(extension("/a/.bashrc"), None);
    assert_eq!(extension("/a/.x.y"), Some("y".to_string()));
    assert_eq!(extension("/a/plain"), None);
    assert_eq!(extension("/a/end."), Some("".to_string()));
    assert_eq!(extension("/a/.."), None);
    assert_eq!(extension("/a.b/c"), None);
}

#[test]
fn representable_times_are_formatted() {
    assert_eq!(timestamp_field(Some((8_000_000_000_000, 999_999_999))).contains("Unavailable"), false);
    assert_eq!(timestamp_field(Some((-1, 2_000_000_000))), "Unavailable");
}
