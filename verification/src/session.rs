//! One session of the pager at a terminal: what is written first, what each
//! key does and what is written after it, and what is written at the end.
//! The program around the library reads the keys and writes the frames.

use crate::pager::Pager;
use crate::terminal::{
    clear_sequence, clear_text, goto_sequence, goto_text, hide_sequence, hide_text, show_sequence,
    show_text,
};
use crate::viewport::Viewport;
use vstd::prelude::*;
use vstd::string::StringExecFns;

verus! {

/// A key press, as far as the pager tells keys apart.
#[derive(Clone, Copy, Debug, PartialEq, Eq, Structural)]
pub enum Key {
    /// The escape key.
    Esc,
    /// The up arrow.
    Up,
    /// The down arrow.
    Down,
    /// A character key.
    Char(char),
    /// Any other key.
    Other,
}

/// What a key press asks of the pager.
#[derive(Clone, Copy, Debug, PartialEq, Eq, Structural)]
pub enum Command {
    /// End the session.
    Quit,
    /// Move the window one line down.
    ScrollDown,
    /// Move the window one line up.
    ScrollUp,
    /// Leave the window where it is.
    Stay,
}

/// What the program writes to the terminal next, and whether the session goes
/// on after it.
pub struct Frame {
    /// The text to write.
    pub text: String,
    /// Whether no further key is to be read.
    pub done: bool,
}

/// The command that `key` stands for: escape and `q` quit, the down arrow and
/// `j` scroll down, the up arrow and `k` scroll up, and every other key leaves
/// the window where it is.
pub open spec fn command_of(key: Key) -> Command {
    match key {
        Key::Esc => Command::Quit,
        Key::Down => Command::ScrollDown,
        Key::Up => Command::ScrollUp,
        Key::Char(c) => if c == 'q' {
            Command::Quit
        } else if c == 'j' {
            Command::ScrollDown
        } else if c == 'k' {
            Command::ScrollUp
        } else {
            Command::Stay
        },
        Key::Other => Command::Stay,
    }
}

/// The window after `command`.
pub open spec fn apply(window: Viewport, command: Command) -> Viewport {
    match command {
        Command::ScrollDown => window.scroll_down(),
        Command::ScrollUp => window.scroll_up(),
        Command::Quit | Command::Stay => window,
    }
}

/// The window after each of `commands` in turn.
pub open spec fn run(window: Viewport, commands: Seq<Command>) -> Viewport
    decreases commands.len(),
{
    if commands.len() == 0 {
        window
    } else {
        apply(run(window, commands.drop_last()), commands.last())
    }
}

/// What is written when the session starts. A document that fits the terminal
/// is written as it is. For one that does not, the screen is cleared, the
/// cursor is sent to the top left corner and hidden, and the window is drawn.
pub open spec fn opening_text(window: Viewport) -> Seq<char> {
    if window.scrollable() {
        clear_sequence() + goto_sequence(1, 1) + hide_sequence() + window.render()
    } else {
        window.render()
    }
}

/// What is written after a key press that gave `command` and left the window
/// at `window`: the cursor is sent to the top left corner and the screen is
/// cleared, whatever the key was, and unless the key quits the window is drawn.
pub open spec fn turn_text(window: Viewport, command: Command) -> Seq<char> {
    if command is Quit {
        goto_sequence(1, 1) + clear_sequence()
    } else {
        goto_sequence(1, 1) + clear_sequence() + window.render()
    }
}

/// What is written when the keys have come to an end: the cursor is shown
/// again.
pub open spec fn closing_text() -> Seq<char> {
    show_sequence()
}

/// Tells which command a key stands for.
pub fn command_for(key: Key) -> (command: Command)
    ensures
        command == command_of(key),
{
    match key {
        Key::Esc | Key::Char('q') => Command::Quit,
        Key::Down | Key::Char('j') => Command::ScrollDown,
        Key::Up | Key::Char('k') => Command::ScrollUp,
        _ => Command::Stay,
    }
}

impl Pager {
    /// The first frame of a session. The session is over with it when the
    /// document fits the terminal: no key is read then.
    pub fn start(&self) -> (frame: Frame)
        ensures
            frame.text@ == opening_text(self@),
            frame.done == !self@.scrollable(),
    {
        if self.is_scrollable() {
            let mut text = clear_text();
            text.append(goto_text(1, 1).as_str());
            text.append(hide_text().as_str());
            text.append(self.get_shown().as_str());
            Frame { text, done: false }
        } else {
            Frame { text: self.get_shown(), done: true }
        }
    }

    /// One turn of the session: moves the window as `key` asks, and gives the
    /// frame to write after it. The session is over when the key quits.
    pub fn handle_key(&mut self, key: Key) -> (frame: Frame)
        requires
            old(self).wf(),
        ensures
            final(self).wf(),
            final(self)@ == apply(old(self)@, command_of(key)),
            frame.text@ == turn_text(final(self)@, command_of(key)),
            frame.done == (command_of(key) is Quit),
    {
        let command = command_for(key);
        let mut text = goto_text(1, 1);
        text.append(clear_text().as_str());
        match command {
            Command::Quit => Frame { text, done: true },
            Command::ScrollDown => {
                self.scroll_down();
                text.append(self.shown());
                Frame { text, done: false }
            },
            Command::ScrollUp => {
                self.scroll_up();
                text.append(self.shown());
                Frame { text, done: false }
            },
            Command::Stay => {
                text.append(self.shown());
                Frame { text, done: false }
            },
        }
    }
}

/// The last frame of a session that read keys, written when a key has quit or
/// no key is left.
pub fn finish() -> (text: String)
    ensures
        text@ == closing_text(),
{
    show_text()
}

} // verus!
