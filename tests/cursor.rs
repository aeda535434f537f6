use file_browser::cursor::{advance, retreat, visible_window};

#[test]
fn advance_from_none_selects_first() {
    assert_eq!(advance(None, 3), Some(0));
}

#[test]
fn advance_wraps_from_last_to_first() {
    assert_eq!(advance(Some(3), 5), Some(4));
    assert_eq!(advance(Some(4), 5), Some(0));
}

#[test]
fn advance_full_cycle_returns_to_first() {
    for n in 1..8usize {
        let mut c = Some(0);
        for _ in 0..n {
            c = advance(c, n);
        }
        assert_eq!(c, Some(0));
        let mut d = None;
        for _ in 0..n + 1 {
            d = advance(d, n);
        }
        assert_eq!(d, Some(0));
    }
}

#[test]
fn retreat_full_cycle_returns_to_first() {
    for n in 1..8usize {
        let mut c = Some(0);
        for _ in 0..n {
            c = retreat(c, n);
        }
        assert_eq!(c, Some(0));
    }
}

#[test]
fn retreat_from_none_or_first_selects_last() {
    assert_eq!(retreat(None, 4), Some(3));
    assert_eq!(retreat(Some(0), 4), Some(3));
    assert_eq!(retreat(Some(2), 4), Some(1));
}

#[test]
fn empty_list_keeps_cursor() {
    assert_eq!(advance(None, 0), None);
    assert_eq!(retreat(None, 0), None);
    let mut c = None;
    for _ in 0..5 {
        c = advance(c, 0);
        c = retreat(c, 0);
    }
    assert_eq!(c, None);
}

#[test]
fn window_holds_index_on_page_boundary() {
    assert_eq!(visible_window(0, 10, 4), (0, 4));
    assert_eq!(visible_window(3, 10, 4), (0, 4));
    assert_eq!(visible_window(4, 10, 4), (4, 8));
    assert_eq!(visible_window(9, 10, 4), (8, 10));
}

#[test]
fn window_contains_index_for_every_height() {
    for n in 1..20usize {
        for h in 1..25usize {
            for i in 0..n {
                let (s, e) = visible_window(i, n, h);
                assert!(s <= i && i < e);
                assert_eq!(s % h, 0);
                assert!(e - s <= h);
            }
        }
    }
}

#[test]
fn window_of_zero_height_is_empty() {
    assert_eq!(visible_window(5, 10, 0), (0, 0));
}

#[test]
fn window_on_largest_index() {
    let (s, e) = visible_window(usize::MAX - 1, usize::MAX, 10);
    assert!(s <= usize::MAX - 1 && usize::MAX - 1 < e);
}

#[test]
fn moves_after_k_steps() {
    for n in 1..7usize {
        let mut c = None;
        for k in 1..30usize {
            c = advance(c, n);
            assert_eq!(c, Some((k - 1) % n));
        }
        let mut d = Some(0);
        for k in 1..30usize {
            d = retreat(d, n);
            assert_eq!(d, Some((n - k % n) % n));
        }
    }
}
