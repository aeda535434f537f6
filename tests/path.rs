use file_browser::path::{basename, dirname, entry_label, last_separator, parent};

#[test]
fn basename_takes_last_segment() {
    assert_eq!(basename("/a/b.txt"), "b.txt");
    assert_eq!(basename("plain"), "plain");
    assert_eq!(basename("/"), "");
    assert_eq!(basename("/é/ü.md"), "ü.md");
}

#[test]
fn parent_cuts_last_segment() {
    assert_eq!(parent("/a/b.txt"), "/a");
    assert_eq!(parent("/a"), "/");
    assert_eq!(parent("plain"), "");
}

#[test]
fn root_is_own_parent() {
    assert_eq!(parent("/"), "/");
}

#[test]
fn last_separator_position() {
    assert_eq!(last_separator("/a/bc"), Some(2));
    assert_eq!(last_separator("abc"), None);
}

#[test]
fn label_marks_directories() {
    assert_eq!(entry_label("/home/user/docs", true), "docs/");
    assert_eq!(entry_label("/home/user/a.txt", false), "a.txt");
}

#[test]
fn dirname_keeps_text_before_last_separator() {
    assert_eq!(dirname("/a/b.txt"), "/a");
    assert_eq!(dirname("/top"), "");
    assert_eq!(dirname("plain"), "plain");
}
