use pager::{split_lines, Pager};

fn strings(lines: &[&str]) -> Vec<String> {
    lines.iter().map(|l| l.to_string()).collect()
}

#[test]
fn empty_text_has_no_line() {
    assert_eq!(split_lines(""), strings(&[]));
}

#[test]
fn text_without_newline_is_one_line() {
    assert_eq!(split_lines("abc"), strings(&["abc"]));
}

#[test]
fn final_newline_starts_no_line() {
    assert_eq!(split_lines("abc\n"), strings(&["abc"]));
    assert_eq!(split_lines("a\nb\n"), strings(&["a", "b"]));
    assert_eq!(split_lines("a\nb"), strings(&["a", "b"]));
}

#[test]
fn single_newline_is_one_empty_line() {
    assert_eq!(split_lines("\n"), strings(&[""]));
}

#[test]
fn empty_lines_are_kept() {
    assert_eq!(split_lines("\n\n\n"), strings(&["", "", ""]));
    assert_eq!(split_lines("a\n\nb\n"), strings(&["a", "", "b"]));
    assert_eq!(split_lines("a\n\n"), strings(&["a", ""]));
    assert_eq!(split_lines("\na"), strings(&["", "a"]));
}

#[test]
fn carriage_returns_stay_in_their_lines() {
    assert_eq!(split_lines("a\r\nb\r\n"), strings(&["a\r", "b\r"]));
    assert_eq!(split_lines("a\rb"), strings(&["a\rb"]));
}

#[test]
fn characters_beyond_ascii_are_kept() {
    assert_eq!(split_lines("héllo\n日本語\n"), strings(&["héllo", "日本語"]));
}

#[test]
fn lines_are_those_of_the_text_with_carriage_returns_added() {
    for text in [
        "",
        "a",
        "a\n",
        "a\nb",
        "a\nb\n",
        "\n",
        "\n\n",
        "a\n\nb",
        "a\r\nb\r\n",
        "tab\there\n  indented\n",
        "héllo\n日本語",
    ] {
        let normalized = text.replace("\n", "\r\n");
        let expected: Vec<String> = normalized.lines().map(|l| l.to_string()).collect();
        assert_eq!(split_lines(text), expected, "text {:?}", text);
    }
}

#[test]
fn line_count_is_the_number_of_lines() {
    assert_eq!(Pager::new("", 3).line_count(), 0);
    assert_eq!(Pager::new("a", 3).line_count(), 1);
    assert_eq!(Pager::new("a\n", 3).line_count(), 1);
    assert_eq!(Pager::new("a\nb", 3).line_count(), 2);
    assert_eq!(Pager::new("a\n\n\n", 3).line_count(), 3);
}

#[test]
fn last_line_without_newline_is_rendered_with_a_line_break() {
    let p = Pager::new("a\nb", 5);
    assert_eq!(p.get_shown(), "a\r\nb\r\n");
}

#[test]
fn render_of_a_fitting_document_is_the_text_with_carriage_returns_added() {
    for text in ["", "a\n", "a\nb\n", "\n", "\n\n", "x\n\ny\n"] {
        let p = Pager::new(text, 100);
        assert_eq!(p.get_shown(), text.replace("\n", "\r\n"), "text {:?}", text);
    }
}
