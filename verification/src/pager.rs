//! The pager itself: the lines, the window over them and the text on screen.

use crate::document::{lines_of, split_lines, texts};
use crate::viewport::{render_lines, Viewport};
use vstd::prelude::*;
use vstd::string::StringExecFns;

verus! {

/// A document split into lines, with a window over it and the text that the
/// window shows.
pub struct Pager {
    lines: Vec<String>,
    term_height: u16,
    index: usize,
    shown: String,
}

impl View for Pager {
    type V = Viewport;

    closed spec fn view(&self) -> Viewport {
        Viewport {
            lines: texts(self.lines@),
            height: self.term_height as nat,
            top: self.index as nat,
        }
    }
}

impl Pager {
    /// The text that the pager holds as being on screen.
    pub closed spec fn shown_text(&self) -> Seq<char> {
        self.shown@
    }

    /// A pager is well formed when its window is where a pager can get to and
    /// the text it holds is what that window shows.
    pub open spec fn wf(&self) -> bool {
        &&& self@.inv()
        &&& self.shown_text() == self@.render()
    }

    /// A pager over the lines of `text`, for a terminal of `term_height` rows,
    /// with the window at its starting position and rendered.
    pub fn new(text: &str, term_height: u16) -> (pager: Pager)
        ensures
            pager.wf(),
            pager@ == Viewport::initial(lines_of(text@), term_height as nat),
    {
        let lines = split_lines(text);
        let index: usize = if lines.len() <= term_height as usize {
            0
        } else {
            1
        };
        let mut pager = Pager { lines, term_height, index, shown: String::new() };
        pager.shown = pager.get_shown();
        pager
    }

    /// Renders the window: the lines from the window's first on, as many as
    /// the terminal has rows and the document has left, each followed by a
    /// line break.
    pub fn get_shown(&self) -> (shown: String)
        ensures
            shown@ == self@.render(),
    {
        let count = self.lines.len();
        let first = if self.index <= count {
            self.index
        } else {
            count
        };
        let end = if self.term_height as usize <= count - first {
            first + self.term_height as usize
        } else {
            count
        };
        let mut shown = String::new();
        let mut i = first;
        while i < end
            invariant
                first <= i <= end <= self.lines.len(),
                shown@ == render_lines(texts(self.lines@).subrange(first as int, i as int)),
            decreases end - i,
        {
            let ghost before = texts(self.lines@).subrange(first as int, i as int);
            shown.append(self.lines[i].as_str());
            shown.push('\r');
            shown.push('\n');
            i += 1;
            proof {
                let now = texts(self.lines@).subrange(first as int, i as int);
                assert(now.drop_last() =~= before);
            }
        }
        shown
    }

    /// Moves the window one line down, unless its last row shows the last line
    /// already or the document fits the terminal, and renders it again.
    pub fn scroll_down(&mut self)
        ensures
            final(self)@ == old(self)@.scroll_down(),
            final(self).shown_text() == final(self)@.render(),
            old(self)@.inv() ==> final(self).wf(),
    {
        let count = self.lines.len();
        let height = self.term_height as usize;
        if count >= height && self.index < count - height {
            self.index += 1;
        }
        self.shown = self.get_shown();
    }

    /// Moves the window one line up, unless it starts at line 1 already or
    /// above it, and renders it again.
    pub fn scroll_up(&mut self)
        ensures
            final(self)@ == old(self)@.scroll_up(),
            final(self).shown_text() == final(self)@.render(),
            old(self)@.inv() ==> final(self).wf(),
    {
        if self.index > 1 {
            self.index -= 1;
        }
        self.shown = self.get_shown();
    }

    /// The text on screen: what `get_shown` gave when the window last moved.
    pub fn shown(&self) -> (shown: &str)
        ensures
            shown@ == self.shown_text(),
    {
        self.shown.as_str()
    }

    /// The index of the line in the window's first row.
    pub fn index(&self) -> (index: usize)
        ensures
            index == self@.top,
    {
        self.index
    }

    /// The number of rows of the terminal.
    pub fn term_height(&self) -> (height: u16)
        ensures
            height == self@.height,
    {
        self.term_height
    }

    /// The number of lines of the document.
    pub fn line_count(&self) -> (count: usize)
        ensures
            count == self@.line_count(),
    {
        self.lines.len()
    }

    /// Whether the document has more lines than the terminal has rows.
    pub fn is_scrollable(&self) -> (scrollable: bool)
        ensures
            scrollable == self@.scrollable(),
    {
        self.lines.len() > self.term_height as usize
    }
}

} // verus!
