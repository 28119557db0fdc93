//! The mathematical model of the pager: a window laid over a sequence of lines.
//!
//! Lines are counted from 0. Over a document with more lines than the terminal
//! has rows the window starts at line 1 and no step up takes it above line 1,
//! so line 0 of such a document is never on screen. Over a document that fits
//! the window stays at line 0 and shows all of it.

use crate::document::NEWLINE;
use vstd::prelude::*;

verus! {

/// What ends each line on a terminal in raw mode: a carriage return, then a
/// line feed.
pub open spec fn line_break() -> Seq<char> {
    seq!['\r', '\n']
}

/// The text that shows `lines` on the terminal: each line followed by a line
/// break, in order.
pub open spec fn render_lines(lines: Seq<Seq<char>>) -> Seq<char>
    decreases lines.len(),
{
    if lines.len() == 0 {
        Seq::empty()
    } else {
        render_lines(lines.drop_last()) + lines.last() + line_break()
    }
}

/// `text` with a carriage return put before each of its newlines.
pub open spec fn with_carriage_returns(text: Seq<char>) -> Seq<char>
    decreases text.len(),
{
    if text.len() == 0 {
        Seq::empty()
    } else if text.last() == NEWLINE {
        with_carriage_returns(text.drop_last()) + line_break()
    } else {
        with_carriage_returns(text.drop_last()).push(text.last())
    }
}

/// `text` with a newline at its end: added where the text is not empty and
/// ends in none.
pub open spec fn terminated(text: Seq<char>) -> Seq<char> {
    if text.len() == 0 || text.last() == NEWLINE {
        text
    } else {
        text.push(NEWLINE)
    }
}

/// A window of `height` rows whose first row shows line `top` of `lines`.
pub struct Viewport {
    pub lines: Seq<Seq<char>>,
    pub height: nat,
    pub top: nat,
}

impl Viewport {
    /// The number of lines of the document.
    pub open spec fn line_count(self) -> nat {
        self.lines.len()
    }

    /// Whether the document has more lines than the window has rows. Only then
    /// does the window move.
    pub open spec fn scrollable(self) -> bool {
        self.line_count() > self.height
    }

    /// The window as it is when the pager starts. A document that fits is shown
    /// from its first line. One that does not fit is shown from its second
    /// line: the first line is never on screen.
    pub open spec fn initial(lines: Seq<Seq<char>>, height: nat) -> Viewport {
        Viewport { lines, height, top: if lines.len() <= height { 0 } else { 1 } }
    }

    /// The index of the first line in the window, clipped to the document.
    pub open spec fn first_shown(self) -> int {
        if self.top <= self.line_count() {
            self.top as int
        } else {
            self.line_count() as int
        }
    }

    /// The index after the last line in the window, clipped to the document.
    pub open spec fn end_shown(self) -> int {
        if self.top + self.height <= self.line_count() {
            (self.top + self.height) as int
        } else {
            self.line_count() as int
        }
    }

    /// The lines in the window.
    pub open spec fn window(self) -> Seq<Seq<char>> {
        self.lines.subrange(self.first_shown(), self.end_shown())
    }

    /// The text that shows the window on the terminal.
    pub open spec fn render(self) -> Seq<char> {
        render_lines(self.window())
    }

    /// The window one line further down, unless its last row already shows the
    /// last line or the document fits.
    pub open spec fn scroll_down(self) -> Viewport {
        if self.top < self.line_count() - self.height {
            Viewport { top: self.top + 1, ..self }
        } else {
            self
        }
    }

    /// The window one line further up, unless it already starts at line 1 or
    /// above it.
    pub open spec fn scroll_up(self) -> Viewport {
        if self.top > 1 {
            Viewport { top: (self.top - 1) as nat, ..self }
        } else {
            self
        }
    }

    /// The window after `n` steps down.
    pub open spec fn scroll_down_times(self, n: nat) -> Viewport
        decreases n,
    {
        if n == 0 {
            self
        } else {
            self.scroll_down_times((n - 1) as nat).scroll_down()
        }
    }

    /// The window after `n` steps up.
    pub open spec fn scroll_up_times(self, n: nat) -> Viewport
        decreases n,
    {
        if n == 0 {
            self
        } else {
            self.scroll_up_times((n - 1) as nat).scroll_up()
        }
    }

    /// What holds of every window that the pager reaches: over a document that
    /// fits it stays at line 0, and over one that does not it stays between
    /// line 1 and the position that shows the last line in the last row.
    pub open spec fn inv(self) -> bool {
        if self.scrollable() {
            1 <= self.top <= self.line_count() - self.height
        } else {
            self.top == 0
        }
    }
}

} // verus!
