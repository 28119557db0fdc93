//! The control sequences that the pager sends to the terminal. The `termion`
//! crate provides them; what this module states of them is taken on trust.

use vstd::prelude::*;

verus! {

/// The character for the digit `d`, for `d` below ten.
pub open spec fn digit(d: nat) -> char {
    ((48 + d) as u8) as char
}

/// `n` in decimal digits, without sign or padding.
pub open spec fn decimal(n: nat) -> Seq<char>
    decreases n,
{
    if n < 10 {
        seq![digit(n)]
    } else {
        decimal(n / 10).push(digit(n % 10))
    }
}

/// The sequence that introduces a control sequence: escape, then `[`.
pub open spec fn csi() -> Seq<char> {
    seq!['\u{1b}', '[']
}

/// The control sequence that moves the cursor to column `col` of row `row`,
/// both counted from 1.
pub open spec fn goto_sequence(col: nat, row: nat) -> Seq<char> {
    csi() + decimal(row) + seq![';'] + decimal(col) + seq!['H']
}

/// The control sequence that clears the whole screen.
pub open spec fn clear_sequence() -> Seq<char> {
    csi() + seq!['2', 'J']
}

/// The control sequence that hides the cursor.
pub open spec fn hide_sequence() -> Seq<char> {
    csi() + seq!['?', '2', '5', 'l']
}

/// The control sequence that shows the cursor.
pub open spec fn show_sequence() -> Seq<char> {
    csi() + seq!['?', '2', '5', 'h']
}

/// Formats `termion::cursor::Goto(col, row)`. Its `Display` writes escape,
/// `[`, the row, `;`, the column and `H`, the numbers in decimal, and asserts
/// that the position is not (0, 0). Assumed, not proved.
#[verifier::external_body]
pub(crate) fn goto_text(col: u16, row: u16) -> (text: String)
    requires
        col != 0 || row != 0,
    ensures
        text@ == goto_sequence(col as nat, row as nat),
{
    format!("{}", termion::cursor::Goto(col, row))
}

/// Formats `termion::clear::All`. Its `Display` writes escape and `[2J`.
/// Assumed, not proved.
#[verifier::external_body]
pub(crate) fn clear_text() -> (text: String)
    ensures
        text@ == clear_sequence(),
{
    format!("{}", termion::clear::All)
}

/// Formats `termion::cursor::Hide`. Its `Display` writes escape and `[?25l`.
/// Assumed, not proved.
#[verifier::external_body]
pub(crate) fn hide_text() -> (text: String)
    ensures
        text@ == hide_sequence(),
{
    format!("{}", termion::cursor::Hide)
}

/// Formats `termion::cursor::Show`. Its `Display` writes escape and `[?25h`.
/// Assumed, not proved.
#[verifier::external_body]
pub(crate) fn show_text() -> (text: String)
    ensures
        text@ == show_sequence(),
{
    format!("{}", termion::cursor::Show)
}

/// The sequence that moves the cursor to the top left corner is escape and
/// `[1;1H`.
pub proof fn lemma_goto_home()
    ensures
        goto_sequence(1, 1) == seq!['\u{1b}', '[', '1', ';', '1', 'H'],
{
}

} // verus!
