use file_browser::session::FileList;

fn listing(names: &[&str]) -> Option<Vec<String>> {
    Some(names.iter().map(|s| s.to_string()).collect())
}

#[test]
fn new_highlights_first_entry() {
    let l = FileList::new("/a".to_string(), listing(&["/a/x", "/a/y"]));
    assert_eq!(l.selected(), Some(0));
    assert_eq!(l.items().len(), 2);
    assert_eq!(l.path(), "/a");
    assert_eq!(l.selected_item(), "x");
}

#[test]
fn unreadable_directory_is_empty() {
    let l = FileList::new("/root".to_string(), None);
    assert!(l.items().is_empty());
    assert_eq!(l.selected(), None);
    assert_eq!(l.selected_item(), "");
    assert_eq!(l.selected_path(), None);
}

#[test]
fn descend_into_directory() {
    let mut l = FileList::new("/a".to_string(), listing(&["/a/x", "/a/y"]));
    l.next();
    l.dir_next(true, listing(&["/a/y/1"]));
    assert_eq!(l.path(), "/a/y");
    assert_eq!(l.items(), &vec!["/a/y/1".to_string()]);
    assert_eq!(l.selected(), Some(0));
}

#[test]
fn descend_into_file_keeps_path() {
    let mut l = FileList::new("/a".to_string(), listing(&["/a/x.txt"]));
    l.dir_next(false, None);
    assert_eq!(l.path(), "/a");
    assert_eq!(l.items(), &vec!["/a/x.txt".to_string()]);
}

#[test]
fn descend_into_empty_directory() {
    let mut l = FileList::new("/a".to_string(), listing(&["/a/e"]));
    l.dir_next(true, listing(&[]));
    assert_eq!(l.path(), "/a/e");
    assert_eq!(l.selected(), None);
}

#[test]
fn ascend_at_root_keeps_path() {
    let mut l = FileList::new("/".to_string(), listing(&["/bin", "/etc"]));
    l.dir_back(listing(&["/bin", "/etc"]));
    assert_eq!(l.path(), "/");
    assert_eq!(l.parent_path(), "/");
}

#[test]
fn ascend_goes_to_parent() {
    let mut l = FileList::new("/a/b".to_string(), listing(&["/a/b/c"]));
    assert_eq!(l.parent_path(), "/a");
    l.dir_back(listing(&["/a/b", "/a/z"]));
    assert_eq!(l.path(), "/a");
    assert_eq!(l.selected(), Some(0));
}

#[test]
fn update_keeps_cursor_where_it_can() {
    let mut l = FileList::new("/a".to_string(), listing(&["/a/1", "/a/2", "/a/3"]));
    l.previous();
    assert_eq!(l.selected(), Some(2));
    l.update(listing(&["/a/1", "/a/2"]));
    assert_eq!(l.selected(), Some(0));
    l.next();
    l.update(listing(&["/a/1", "/a/2", "/a/4"]));
    assert_eq!(l.selected(), Some(1));
    l.update(None);
    assert_eq!(l.selected(), None);
}

#[test]
fn toggle_selected_chooses_highlighted_path() {
    let mut l = FileList::new("/a".to_string(), listing(&["/a/1", "/a/2"]));
    l.toggle_selected();
    l.next();
    l.toggle_selected();
    assert_eq!(l.selection().members(), vec!["/a/1".to_string(), "/a/2".to_string()]);
    l.toggle_selected();
    assert_eq!(l.selection().members(), vec!["/a/1".to_string()]);
    l.clear_selection();
    assert_eq!(l.selection().len(), 0);
}
