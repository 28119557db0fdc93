use pager::Pager;

const FIVE: &str = "L1\nL2\nL3\nL4\nL5\n";

#[test]
fn five_lines_three_rows_walkthrough() {
    let mut p = Pager::new(FIVE, 3);
    assert_eq!(p.line_count(), 5);
    assert_eq!(p.term_height(), 3);
    assert!(p.is_scrollable());
    assert_eq!(p.index(), 1);
    assert_eq!(p.get_shown(), "L2\r\nL3\r\nL4\r\n");
    assert_eq!(p.shown(), "L2\r\nL3\r\nL4\r\n");

    p.scroll_down();
    assert_eq!(p.index(), 2);
    assert_eq!(p.get_shown(), "L3\r\nL4\r\nL5\r\n");
    assert_eq!(p.shown(), "L3\r\nL4\r\nL5\r\n");

    p.scroll_down();
    assert_eq!(p.index(), 2);
    assert_eq!(p.get_shown(), "L3\r\nL4\r\nL5\r\n");

    p.scroll_up();
    assert_eq!(p.index(), 1);
    assert_eq!(p.get_shown(), "L2\r\nL3\r\nL4\r\n");
    assert_eq!(p.shown(), "L2\r\nL3\r\nL4\r\n");

    p.scroll_up();
    assert_eq!(p.index(), 1);
    assert_eq!(p.get_shown(), "L2\r\nL3\r\nL4\r\n");
}

#[test]
fn empty_document_renders_nothing() {
    let mut p = Pager::new("", 24);
    assert_eq!(p.line_count(), 0);
    assert!(!p.is_scrollable());
    assert_eq!(p.index(), 0);
    assert_eq!(p.get_shown(), "");
    p.scroll_down();
    assert_eq!(p.index(), 0);
    assert_eq!(p.shown(), "");
    p.scroll_up();
    assert_eq!(p.index(), 0);
    assert_eq!(p.shown(), "");
}

#[test]
fn empty_document_on_terminal_without_rows() {
    let mut p = Pager::new("", 0);
    assert!(!p.is_scrollable());
    assert_eq!(p.index(), 0);
    p.scroll_down();
    p.scroll_up();
    assert_eq!(p.index(), 0);
    assert_eq!(p.get_shown(), "");
}

#[test]
fn fitting_document_is_shown_whole() {
    let p = Pager::new("one\ntwo\nthree\n", 5);
    assert!(!p.is_scrollable());
    assert_eq!(p.index(), 0);
    assert_eq!(p.get_shown(), "one\r\ntwo\r\nthree\r\n");
    assert_eq!(p.shown(), "one\r\ntwo\r\nthree\r\n");
}

#[test]
fn document_of_exactly_the_terminal_height_fits() {
    let mut p = Pager::new("a\nb\nc\n", 3);
    assert!(!p.is_scrollable());
    assert_eq!(p.index(), 0);
    assert_eq!(p.get_shown(), "a\r\nb\r\nc\r\n");
    p.scroll_down();
    assert_eq!(p.index(), 0);
    p.scroll_up();
    assert_eq!(p.index(), 0);
    assert_eq!(p.shown(), "a\r\nb\r\nc\r\n");
}

#[test]
fn fitting_document_never_scrolls() {
    let mut p = Pager::new("one\ntwo\n", 10);
    for _ in 0..5 {
        p.scroll_down();
        assert_eq!(p.index(), 0);
        assert_eq!(p.shown(), "one\r\ntwo\r\n");
    }
    for _ in 0..5 {
        p.scroll_up();
        assert_eq!(p.index(), 0);
        assert_eq!(p.shown(), "one\r\ntwo\r\n");
    }
}

#[test]
fn one_line_more_than_the_terminal_has_rows() {
    let mut p = Pager::new("a\nb\nc\nd\n", 3);
    assert!(p.is_scrollable());
    assert_eq!(p.index(), 1);
    assert_eq!(p.shown(), "b\r\nc\r\nd\r\n");
    p.scroll_down();
    assert_eq!(p.index(), 1);
    p.scroll_up();
    assert_eq!(p.index(), 1);
    assert_eq!(p.shown(), "b\r\nc\r\nd\r\n");
}

#[test]
fn scroll_down_never_goes_back_and_stops_at_the_bottom() {
    let text: String = (0..20).map(|i| format!("line {}\n", i)).collect();
    let mut p = Pager::new(&text, 6);
    let mut last = p.index();
    assert_eq!(last, 1);
    for _ in 0..40 {
        p.scroll_down();
        assert!(p.index() >= last);
        assert!(p.index() <= 20 - 6);
        last = p.index();
    }
    assert_eq!(p.index(), 14);
    assert_eq!(
        p.shown(),
        "line 14\r\nline 15\r\nline 16\r\nline 17\r\nline 18\r\nline 19\r\n"
    );
}

#[test]
fn scroll_up_never_goes_forward_and_stops_at_line_one() {
    let text: String = (0..20).map(|i| format!("line {}\n", i)).collect();
    let mut p = Pager::new(&text, 6);
    for _ in 0..9 {
        p.scroll_down();
    }
    let mut last = p.index();
    assert_eq!(last, 10);
    for _ in 0..40 {
        p.scroll_up();
        assert!(p.index() <= last);
        assert!(p.index() >= 1);
        last = p.index();
    }
    assert_eq!(p.index(), 1);
    assert_eq!(
        p.shown(),
        "line 1\r\nline 2\r\nline 3\r\nline 4\r\nline 5\r\nline 6\r\n"
    );
}

#[test]
fn scroll_down_at_the_bottom_changes_nothing() {
    let mut p = Pager::new(FIVE, 2);
    p.scroll_down();
    p.scroll_down();
    assert_eq!(p.index(), 3);
    let before = p.get_shown();
    assert_eq!(before, "L4\r\nL5\r\n");
    for _ in 0..3 {
        p.scroll_down();
        assert_eq!(p.index(), 3);
        assert_eq!(p.get_shown(), before);
        assert_eq!(p.shown(), before);
    }
}

#[test]
fn scroll_up_at_line_one_changes_nothing() {
    let mut p = Pager::new(FIVE, 2);
    let before = p.get_shown();
    assert_eq!(before, "L2\r\nL3\r\n");
    for _ in 0..3 {
        p.scroll_up();
        assert_eq!(p.index(), 1);
        assert_eq!(p.get_shown(), before);
        assert_eq!(p.shown(), before);
    }
}

#[test]
fn same_steps_give_the_same_screen() {
    let mut a = Pager::new(FIVE, 2);
    let mut b = Pager::new(FIVE, 2);
    assert_eq!(a.get_shown(), b.get_shown());
    for step in [true, true, false, true, true, true, false, false, false, false] {
        if step {
            a.scroll_down();
            b.scroll_down();
        } else {
            a.scroll_up();
            b.scroll_up();
        }
        assert_eq!(a.index(), b.index());
        assert_eq!(a.get_shown(), b.get_shown());
        assert_eq!(a.shown(), b.shown());
    }
}

#[test]
fn get_shown_can_be_called_again() {
    let p = Pager::new(FIVE, 3);
    let first = p.get_shown();
    assert_eq!(p.get_shown(), first);
    assert_eq!(p.get_shown(), first);
}

#[test]
fn terminal_without_rows_shows_nothing() {
    let mut p = Pager::new("a\nb\n", 0);
    assert!(p.is_scrollable());
    assert_eq!(p.index(), 1);
    assert_eq!(p.get_shown(), "");
    p.scroll_down();
    assert_eq!(p.index(), 2);
    assert_eq!(p.get_shown(), "");
    p.scroll_down();
    assert_eq!(p.index(), 2);
    p.scroll_up();
    assert_eq!(p.index(), 1);
    p.scroll_up();
    assert_eq!(p.index(), 1);
}

#[test]
fn terminal_of_one_row_shows_one_line() {
    let mut p = Pager::new("a\nb\nc\n", 1);
    assert_eq!(p.index(), 1);
    assert_eq!(p.shown(), "b\r\n");
    p.scroll_down();
    assert_eq!(p.index(), 2);
    assert_eq!(p.shown(), "c\r\n");
    p.scroll_down();
    assert_eq!(p.index(), 2);
    assert_eq!(p.shown(), "c\r\n");
}

#[test]
fn tallest_terminal() {
    let mut p = Pager::new(FIVE, u16::MAX);
    assert!(!p.is_scrollable());
    assert_eq!(p.index(), 0);
    assert_eq!(p.shown(), "L1\r\nL2\r\nL3\r\nL4\r\nL5\r\n");
    p.scroll_down();
    assert_eq!(p.index(), 0);
}
