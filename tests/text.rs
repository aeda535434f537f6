use file_browser::selection::SelectionSet;
use file_browser::text::{file_preview, join, listing_preview, split};

fn strings(v: &[&str]) -> Vec<String> {
    v.iter().map(|s| s.to_string()).collect()
}

#[test]
fn split_keeps_empty_pieces() {
    assert_eq!(split("a\nb\n", '\n'), strings(&["a", "b", ""]));
    assert_eq!(split("", '\n'), strings(&[""]));
    assert_eq!(split("abc", '\n'), strings(&["abc"]));
}

#[test]
fn join_puts_separator_between() {
    assert_eq!(join(&strings(&["a", "b", "c"]), ", "), "a, b, c");
    assert_eq!(join(&strings(&["a"]), ", "), "a");
    assert_eq!(join(&strings(&[]), ", "), "");
}

#[test]
fn preview_marks_directories_and_drops_last() {
    let lines = split("docs\nnotes.txt\n", '\n');
    assert_eq!(listing_preview(&lines, &vec![true, false, false]), "docs/\nnotes.txt");
    assert_eq!(listing_preview(&lines, &vec![]), "docs\nnotes.txt");
    assert_eq!(listing_preview(&strings(&[]), &vec![]), "");
}

#[test]
fn selection_text_joins_with_commas() {
    let mut s = SelectionSet::new();
    s.toggle("/a".to_string());
    s.toggle("/b".to_string());
    assert_eq!(s.to_text(), "/a, /b");
}

#[test]
fn file_preview_falls_back_to_path() {
    let p = "/a/bin.dat".to_string();
    assert_eq!(file_preview(&p, Some("hello".to_string())), "hello");
    assert_eq!(file_preview(&p, None), "/a/bin.dat");
}
