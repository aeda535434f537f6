use file_browser::bulk::{Operation, Outcome};
use file_browser::controller::{action_for, Action, App, Key, Request};
use file_browser::focus::Focus;

fn listing(names: &[&str]) -> Option<Vec<String>> {
    Some(names.iter().map(|s| s.to_string()).collect())
}

fn outcome(status: &str, stderr: &str) -> Outcome {
    Outcome { status: status.to_string(), stderr: stderr.to_string() }
}

#[test]
fn empty_directory_navigation_is_a_no_op() {
    let mut app = App::new("/empty".to_string(), listing(&[]));
    assert!(app.notes().items().is_empty());
    assert_eq!(app.notes().selected(), None);
    assert!(matches!(app.handle_key_events(Key::Down), Request::Done));
    assert!(matches!(app.handle_key_events(Key::Up), Request::Done));
    assert_eq!(app.notes().selected(), None);
    assert!(matches!(app.handle_key_events(Key::PageUp), Request::Done));
    assert!(matches!(app.handle_key_events(Key::Enter), Request::Done));
    assert!(matches!(app.handle_key_events(Key::Char(' ')), Request::Done));
    assert_eq!(app.notes().selection().len(), 0);
}

#[test]
fn forward_from_three_of_five_then_wraps() {
    let mut app = App::new("/d".to_string(), listing(&["/d/0", "/d/1", "/d/2", "/d/3", "/d/4"]));
    for _ in 0..3 {
        app.next();
    }
    assert_eq!(app.notes().selected(), Some(3));
    app.next();
    assert_eq!(app.notes().selected(), Some(4));
    app.next();
    assert_eq!(app.notes().selected(), Some(0));
}

#[test]
fn delete_one_selected_path() {
    let mut app = App::new("/a".to_string(), listing(&["/a/b.txt", "/a/c"]));
    app.handle_key_events(Key::Char(' '));
    assert_eq!(app.notes().selection().members(), vec!["/a/b.txt".to_string()]);
    let runs = match app.handle_key_events(Key::Char('d')) {
        Request::Bulk(v) => v,
        _ => panic!("expected a bulk request"),
    };
    assert_eq!(runs.len(), 1);
    assert_eq!(runs[0].program, "rm");
    assert_eq!(runs[0].args, vec!["/a/b.txt".to_string()]);
    app.finish_operation(&vec![outcome("exit status: 0", "")], listing(&["/a/c"]));
    assert_eq!(app.error_output().len(), 1);
    assert!(app.error_output()[0].contains("/a/b.txt"));
    assert_eq!(app.error_output()[0], "/a/b.txt: exit status: 0, ");
    assert_eq!(app.notes().items(), &vec!["/a/c".to_string()]);
    assert_eq!(app.notes().selection().len(), 0);
}

#[test]
fn bulk_logs_every_path_even_on_failure() {
    let mut app = App::new("/dst".to_string(), listing(&["/dst/1", "/dst/2", "/dst/3"]));
    app.select_files();
    app.next();
    app.select_files();
    app.next();
    app.select_files();
    let runs = app.move_files();
    assert_eq!(runs.len(), 3);
    assert_eq!(runs[1].program, "mv");
    assert_eq!(runs[1].args, vec!["/dst/2".to_string(), "/dst".to_string()]);
    let copies = app.copy_files();
    assert_eq!(copies[2].program, "cp");
    assert_eq!(app.delete_files()[0].args.len(), 1);
    let outs = vec![
        outcome("exit status: 1", "denied"),
        outcome("exit status: 0", ""),
        outcome("failed to run", "not found"),
    ];
    app.finish_operation(&outs, None);
    assert_eq!(app.error_output().len(), 3);
    assert_eq!(app.error_output()[0], "/dst/1: exit status: 1, denied");
    assert_eq!(app.error_output()[2], "/dst/3: failed to run, not found");
    assert_eq!(app.notes().selection().len(), 0);
    assert_eq!(app.notes().selected(), None);
}

#[test]
fn bulk_on_empty_selection_still_refreshes() {
    let mut app = App::new("/d".to_string(), listing(&["/d/1"]));
    match app.handle_key_events(Key::Char('c')) {
        Request::Bulk(v) => assert!(v.is_empty()),
        _ => panic!("expected a bulk request"),
    }
    app.finish_operation(&vec![], listing(&["/d/1", "/d/2"]));
    assert!(app.error_output().is_empty());
    assert_eq!(app.notes().items().len(), 2);
}

#[test]
fn focus_cycling_with_tab() {
    let mut app = App::new("/d".to_string(), listing(&["/d/1"]));
    for _ in 0..4 {
        app.handle_key_events(Key::Tab);
    }
    assert_eq!(app.selected_widget().focus, Focus::List);
}

#[test]
fn arrows_scroll_focused_pane() {
    let mut app = App::new("/d".to_string(), listing(&["/d/1", "/d/2"]));
    app.handle_key_events(Key::Tab);
    app.handle_key_events(Key::Down);
    app.handle_key_events(Key::Down);
    assert_eq!(app.selected_widget().file_preview.scroll.y, 2);
    assert_eq!(app.notes().selected(), Some(0));
    app.handle_key_events(Key::Up);
    assert_eq!(app.selected_widget().file_preview.scroll.y, 1);
    for _ in 0..3 {
        app.handle_key_events(Key::Tab);
    }
    app.handle_key_events(Key::Down);
    assert_eq!(app.notes().selected(), Some(1));
    assert_eq!(app.selected_widget().file_preview.scroll.y, 0);
}

#[test]
fn list_actions_need_list_focus() {
    let mut app = App::new("/d".to_string(), listing(&["/d/1"]));
    app.handle_key_events(Key::Tab);
    assert!(matches!(app.handle_key_events(Key::PageUp), Request::Done));
    assert!(matches!(app.handle_key_events(Key::PageDown), Request::Done));
    assert!(matches!(app.handle_key_events(Key::Char('m')), Request::Done));
    app.handle_key_events(Key::Char(' '));
    assert_eq!(app.notes().selection().len(), 0);
}

#[test]
fn descend_request_and_completion() {
    let mut app = App::new("/d".to_string(), listing(&["/d/sub", "/d/f.txt"]));
    match app.handle_key_events(Key::PageUp) {
        Request::Descend(t) => assert_eq!(t, "/d/sub"),
        _ => panic!("expected a descend request"),
    }
    assert!(matches!(app.complete_descend(true, listing(&["/d/sub/z"])), Request::Done));
    assert_eq!(app.notes().path(), "/d/sub");
    match app.handle_key_events(Key::PageDown) {
        Request::Ascend(t) => assert_eq!(t, "/d"),
        _ => panic!("expected an ascend request"),
    }
    app.complete_ascend(listing(&["/d/sub", "/d/f.txt"]));
    assert_eq!(app.notes().path(), "/d");
    app.next();
    match app.complete_descend(false, None) {
        Request::Open(t) => assert_eq!(t, "/d/f.txt"),
        _ => panic!("expected an open request"),
    }
    assert_eq!(app.notes().path(), "/d");
}

#[test]
fn open_and_list_requests_are_logged() {
    let mut app = App::new("/d".to_string(), listing(&["/d/x"]));
    match app.handle_key_events(Key::Enter) {
        Request::Open(t) => assert_eq!(t, "/d/x"),
        _ => panic!("expected an open request"),
    }
    app.record(&outcome("exit status: 4", "no handler"));
    match app.handle_key_events(Key::Char('t')) {
        Request::List(t) => assert_eq!(t, "/d/x"),
        _ => panic!("expected a list request"),
    }
    app.record_text("a\nb\n".to_string());
    assert_eq!(app.error_output(), &vec!["exit status: 4, no handler".to_string(), "a\nb\n".to_string()]);
}

#[test]
fn input_help_quit_and_clear() {
    let mut app = App::new("/d".to_string(), listing(&["/d/x"]));
    app.handle_key_events(Key::End);
    app.handle_key_events(Key::Insert);
    assert_eq!(app.input(), "/d/d/x");
    app.handle_key_events(Key::Char('h'));
    assert!(app.help());
    app.handle_key_events(Key::Char('h'));
    assert!(!app.help());
    app.handle_key_events(Key::Char(' '));
    app.handle_key_events(Key::Backspace);
    assert_eq!(app.notes().selection().len(), 0);
    assert!(!app.should_exit());
    app.handle_key_events(Key::Char('q'));
    assert!(app.should_exit());
}

#[test]
fn key_bindings() {
    assert_eq!(action_for(Key::Char('q')), Some(Action::Quit));
    assert_eq!(action_for(Key::Char('d')), Some(Action::Bulk(Operation::Delete)));
    assert_eq!(action_for(Key::Tab), Some(Action::CycleFocus));
    assert_eq!(action_for(Key::Char('x')), None);
    assert_eq!(action_for(Key::Other), None);
}
