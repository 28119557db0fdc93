//! What holds of the pager: of the text it shows, and of the window over
//! whole sessions.

use crate::document::{lemma_line_end, line_end, lines_of, newline_free, NEWLINE};
use crate::pager::Pager;
use crate::session::{run, Command};
use crate::viewport::{line_break, render_lines, terminated, with_carriage_returns, Viewport};
use vstd::prelude::*;

verus! {

/// Rendering two runs of lines one after the other renders the lines of both.
pub proof fn lemma_render_lines_concat(a: Seq<Seq<char>>, b: Seq<Seq<char>>)
    ensures
        render_lines(a + b) == render_lines(a) + render_lines(b),
    decreases b.len(),
{
    if b.len() > 0 {
        assert((a + b).drop_last() =~= a + b.drop_last());
        lemma_render_lines_concat(a, b.drop_last());
    }
}

/// One line is rendered as the line and a line break.
pub proof fn lemma_render_one_line(line: Seq<char>)
    ensures
        render_lines(seq![line]) == line + line_break(),
{
    assert(seq![line].drop_last() =~= Seq::<Seq<char>>::empty());
    assert(render_lines(Seq::<Seq<char>>::empty()) =~= Seq::<char>::empty());
}

/// Putting in the carriage returns goes piece by piece.
pub proof fn lemma_with_carriage_returns_concat(a: Seq<char>, b: Seq<char>)
    ensures
        with_carriage_returns(a + b) == with_carriage_returns(a) + with_carriage_returns(b),
    decreases b.len(),
{
    if b.len() > 0 {
        assert((a + b).drop_last() =~= a + b.drop_last());
        lemma_with_carriage_returns_concat(a, b.drop_last());
        assert(with_carriage_returns(a + b) =~= with_carriage_returns(a) + with_carriage_returns(
            b,
        ));
    }
}

/// A text without a newline gets no carriage return.
pub proof fn lemma_with_carriage_returns_newline_free(text: Seq<char>)
    requires
        newline_free(text),
    ensures
        with_carriage_returns(text) == text,
    decreases text.len(),
{
    if text.len() > 0 {
        lemma_with_carriage_returns_newline_free(text.drop_last());
    }
}

/// The lines of a text, rendered, are the text with a carriage return before
/// each newline, and with a line break at the end where the text is not empty
/// and ends in no newline.
pub proof fn lemma_render_of_lines(text: Seq<char>)
    ensures
        render_lines(lines_of(text)) == with_carriage_returns(terminated(text)),
    decreases text.len(),
{
    let end: int = line_end(text);
    lemma_line_end(text);
    if text.len() == 0 {
    } else if end < text.len() {
        let line = text.take(end);
        let rest = text.skip(end + 1);
        let newline = seq![NEWLINE];
        lemma_render_of_lines(rest);
        lemma_render_lines_concat(seq![line], lines_of(rest));
        lemma_render_one_line(line);
        lemma_with_carriage_returns_newline_free(line);
        assert(with_carriage_returns(newline) =~= line_break()) by {
            assert(newline.drop_last() =~= Seq::<char>::empty());
            assert(with_carriage_returns(Seq::<char>::empty()) =~= Seq::<char>::empty());
        }
        lemma_with_carriage_returns_concat(line, newline);
        assert(terminated(text) =~= (line + newline) + terminated(rest));
        lemma_with_carriage_returns_concat(line + newline, terminated(rest));
    } else {
        assert(text.take(end) =~= text);
        lemma_render_one_line(text);
        lemma_with_carriage_returns_newline_free(text);
        assert(text.push(NEWLINE).drop_last() =~= text);
    }
}

/// A document that fits the terminal is on screen whole from the start: every
/// line of it, in order.
pub proof fn lemma_fitting_document_shown_whole(lines: Seq<Seq<char>>, height: nat)
    requires
        lines.len() <= height,
    ensures
        Viewport::initial(lines, height).render() == render_lines(lines),
        !Viewport::initial(lines, height).scrollable(),
{
    let window = Viewport::initial(lines, height);
    assert(window.window() =~= lines);
}

/// A text with no more lines than the terminal has rows is on screen from the
/// start as it is, but for the carriage return before each newline and for
/// the line break after a last line that ends in no newline.
pub proof fn lemma_fitting_text_shown_whole(text: Seq<char>, height: nat)
    requires
        lines_of(text).len() <= height,
    ensures
        Viewport::initial(lines_of(text), height).render() == with_carriage_returns(
            terminated(text),
        ),
{
    lemma_fitting_document_shown_whole(lines_of(text), height);
    lemma_render_of_lines(text);
}

/// Over a document that fits the terminal no command moves the window or
/// changes what is on screen.
pub proof fn lemma_fitting_document_stays(lines: Seq<Seq<char>>, height: nat, commands: Seq<Command>)
    requires
        lines.len() <= height,
    ensures
        run(Viewport::initial(lines, height), commands) == Viewport::initial(lines, height),
    decreases commands.len(),
{
    if commands.len() > 0 {
        lemma_fitting_document_stays(lines, height, commands.drop_last());
    }
}

/// The starting window is one that the pager can be at.
pub proof fn lemma_initial_inv(lines: Seq<Seq<char>>, height: nat)
    ensures
        Viewport::initial(lines, height).inv(),
{
}

/// Whatever the commands, the document and the height stay what they are, and
/// the window stays where a pager can be: over a document that does not fit,
/// between line 1 and the position that puts the last line in the last row.
pub proof fn lemma_run_keeps_inv(window: Viewport, commands: Seq<Command>)
    requires
        window.inv(),
    ensures
        run(window, commands).inv(),
        run(window, commands).lines == window.lines,
        run(window, commands).height == window.height,
    decreases commands.len(),
{
    if commands.len() > 0 {
        lemma_run_keeps_inv(window, commands.drop_last());
    }
}

/// Steps down change neither the document nor the height, never move the
/// window up, and never move it past the position that puts the last line in
/// the last row, unless it was past it before.
pub proof fn lemma_scroll_down_times(window: Viewport, n: nat)
    ensures
        window.scroll_down_times(n).lines == window.lines,
        window.scroll_down_times(n).height == window.height,
        window.top <= window.scroll_down_times(n).top,
        window.top <= window.line_count() - window.height ==> window.scroll_down_times(n).top
            <= window.line_count() - window.height,
        window.inv() ==> window.scroll_down_times(n).inv(),
    decreases n,
{
    if n > 0 {
        lemma_scroll_down_times(window, (n - 1) as nat);
    }
}

/// From the starting window on, each further step down leaves the window where
/// it is or moves it down: the top line after `i` steps is not below the top
/// line after `j` steps, for `i` no more than `j`. Where the document has at
/// least as many lines as the terminal has rows, the top line never exceeds
/// the number of lines less the number of rows.
pub proof fn lemma_scroll_down_monotone(lines: Seq<Seq<char>>, height: nat, i: nat, j: nat)
    requires
        i <= j,
    ensures
        Viewport::initial(lines, height).scroll_down_times(i).top <= Viewport::initial(
            lines,
            height,
        ).scroll_down_times(j).top,
        lines.len() >= height ==> Viewport::initial(lines, height).scroll_down_times(j).top
            <= lines.len() - height,
    decreases j,
{
    let start = Viewport::initial(lines, height);
    lemma_scroll_down_times(start, j);
    if i < j {
        lemma_scroll_down_monotone(lines, height, i, (j - 1) as nat);
        lemma_scroll_down_times(start, (j - 1) as nat);
    }
}

/// Steps up change neither the document nor the height, never move the window
/// down, and never take it above line 1 from line 1 or below it.
pub proof fn lemma_scroll_up_times(window: Viewport, n: nat)
    ensures
        window.scroll_up_times(n).lines == window.lines,
        window.scroll_up_times(n).height == window.height,
        window.scroll_up_times(n).top <= window.top,
        window.top >= 1 ==> window.scroll_up_times(n).top >= 1,
        window.inv() ==> window.scroll_up_times(n).inv(),
    decreases n,
{
    if n > 0 {
        lemma_scroll_up_times(window, (n - 1) as nat);
    }
}

/// From any window on, each further step up leaves the window where it is or
/// moves it up: the top line after `j` steps is not below the top line after
/// `i` steps, for `i` no more than `j`. A window at line 1 or below it never
/// gets above line 1.
pub proof fn lemma_scroll_up_monotone(window: Viewport, i: nat, j: nat)
    requires
        i <= j,
    ensures
        window.scroll_up_times(j).top <= window.scroll_up_times(i).top,
        window.top >= 1 ==> window.scroll_up_times(j).top >= 1,
    decreases j,
{
    lemma_scroll_up_times(window, j);
    if i < j {
        lemma_scroll_up_monotone(window, i, (j - 1) as nat);
    }
}

/// Over a document that does not fit the terminal, a window that the pager can
/// be at never gets above line 1, however many steps up are taken.
pub proof fn lemma_scroll_up_floor(window: Viewport, n: nat)
    requires
        window.inv(),
        window.scrollable(),
    ensures
        window.scroll_up_times(n).top >= 1,
{
    lemma_scroll_up_times(window, n);
}

/// At the bottom, steps down change nothing: a window whose last row shows the
/// last line stays as it is, however many steps down are taken.
pub proof fn lemma_scroll_down_at_bottom(window: Viewport, n: nat)
    requires
        window.top == window.line_count() - window.height,
    ensures
        window.scroll_down_times(n) == window,
    decreases n,
{
    if n > 0 {
        lemma_scroll_down_at_bottom(window, (n - 1) as nat);
    }
}

/// At the top, steps up change nothing: a window at line 1 stays as it is,
/// however many steps up are taken.
pub proof fn lemma_scroll_up_at_top(window: Viewport, n: nat)
    requires
        window.top == 1,
    ensures
        window.scroll_up_times(n) == window,
    decreases n,
{
    if n > 0 {
        lemma_scroll_up_at_top(window, (n - 1) as nat);
    }
}

/// What is on screen depends on the document, the height and the top line
/// alone: two windows that agree in these and get the same commands show the
/// same text.
pub proof fn lemma_same_commands_same_screen(a: Viewport, b: Viewport, commands: Seq<Command>)
    requires
        a.lines == b.lines,
        a.height == b.height,
        a.top == b.top,
    ensures
        run(a, commands).render() == run(b, commands).render(),
{
}

/// Two pagers whose windows agree hold the same text as being on screen.
pub proof fn lemma_same_window_same_screen(a: Pager, b: Pager)
    requires
        a.wf(),
        b.wf(),
        a@ == b@,
    ensures
        a.shown_text() == b.shown_text(),
{
}

} // verus!
