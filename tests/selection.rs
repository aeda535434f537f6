use file_browser::selection::SelectionSet;

#[test]
fn toggle_adds_then_removes() {
    let mut s = SelectionSet::new();
    assert!(s.toggle("/a".to_string()));
    assert!(s.toggle("/b".to_string()));
    assert!(s.contains(&"/a".to_string()));
    assert!(!s.toggle("/a".to_string()));
    assert!(!s.contains(&"/a".to_string()));
    assert_eq!(s.members(), vec!["/b".to_string()]);
}

#[test]
fn toggle_twice_restores_membership() {
    let mut s = SelectionSet::new();
    s.toggle("/x".to_string());
    s.toggle("/y".to_string());
    let before = s.members();
    s.toggle("/x".to_string());
    s.toggle("/x".to_string());
    let mut after = s.members();
    after.sort();
    let mut b = before.clone();
    b.sort();
    assert_eq!(after, b);
    s.toggle("/z".to_string());
    s.toggle("/z".to_string());
    let mut again = s.members();
    again.sort();
    assert_eq!(again, b);
}

#[test]
fn clear_empties_and_members_restart() {
    let mut s = SelectionSet::new();
    s.toggle("/a".to_string());
    assert_eq!(s.members(), s.members());
    assert_eq!(s.len(), 1);
    assert_eq!(s.get(0), "/a");
    s.clear();
    assert_eq!(s.len(), 0);
    assert!(s.members().is_empty());
}
