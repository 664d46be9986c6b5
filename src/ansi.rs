//! Terminal escape sequences, taken from crossterm's commands, with their
//! exact text stated as spec functions.
use vstd::prelude::*;

verus! {

/// The decimal digit `d` (for `0 <= d < 10`) as a character.
pub open spec fn digit(d: int) -> char {
    seq!['0', '1', '2', '3', '4', '5', '6', '7', '8', '9'][d]
}

/// The decimal representation of `n`, without sign or leading zeros.
pub open spec fn decimal(n: nat) -> Seq<char>
    decreases n,
{
    if n < 10 {
        seq![digit(n as int)]
    } else {
        decimal(n / 10) + seq![digit((n % 10) as int)]
    }
}

/// The control sequence introducer `ESC [`.
pub open spec fn csi() -> Seq<char> {
    seq!['\x1B', '[']
}

/// Moves the cursor to column `x`, row `y` (both counted from 0).
pub open spec fn goto_seq(x: nat, y: nat) -> Seq<char> {
    csi() + decimal(y + 1) + seq![';'] + decimal(x + 1) + seq!['H']
}

/// Sets the foreground to the 24-bit colour `(r, g, b)`.
pub open spec fn fg_seq(r: u8, g: u8, b: u8) -> Seq<char> {
    csi() + seq!['3', '8', ';', '2', ';'] + decimal(r as nat) + seq![';'] + decimal(g as nat)
        + seq![';'] + decimal(b as nat) + seq!['m']
}

/// Resets all colours and attributes.
pub open spec fn reset_seq() -> Seq<char> {
    csi() + seq!['0', 'm']
}

/// Hides the cursor.
pub open spec fn hide_cursor_seq() -> Seq<char> {
    csi() + seq!['?', '2', '5', 'l']
}

/// Relies on crossterm's `cursor::MoveTo`, whose ANSI form is
/// `ESC [ {y + 1} ; {x + 1} H`; it adds one to each coordinate as a `u16`.
#[verifier::external_body]
pub(crate) fn goto(x: u16, y: u16) -> (r: String)
    requires
        x < u16::MAX,
        y < u16::MAX,
    ensures
        r@ == goto_seq(x as nat, y as nat),
{
    let mut s = String::new();
    crossterm::Command::write_ansi(&crossterm::cursor::MoveTo(x, y), &mut s).unwrap();
    s
}

/// Relies on crossterm's `style::SetForegroundColor` with `Color::Rgb`, whose
/// ANSI form is `ESC [ 38;2;{r};{g};{b} m`.
#[verifier::external_body]
pub(crate) fn fg_rgb(r: u8, g: u8, b: u8) -> (s: String)
    ensures
        s@ == fg_seq(r, g, b),
{
    let mut s = String::new();
    let color = crossterm::style::Color::Rgb { r, g, b };
    crossterm::Command::write_ansi(&crossterm::style::SetForegroundColor(color), &mut s).unwrap();
    s
}

/// Relies on crossterm's `style::ResetColor`, whose ANSI form is `ESC [ 0 m`.
#[verifier::external_body]
pub(crate) fn reset() -> (s: String)
    ensures
        s@ == reset_seq(),
{
    let mut s = String::new();
    crossterm::Command::write_ansi(&crossterm::style::ResetColor, &mut s).unwrap();
    s
}

/// Relies on crossterm's `cursor::Hide`, whose ANSI form is `ESC [ ? 25 l`.
#[verifier::external_body]
pub(crate) fn hide_cursor() -> (s: String)
    ensures
        s@ == hide_cursor_seq(),
{
    let mut s = String::new();
    crossterm::Command::write_ansi(&crossterm::cursor::Hide, &mut s).unwrap();
    s
}

/// Relies on std's `Display` for `u32` (through `ToString`): the decimal
/// digits of the value.
#[verifier::external_body]
pub(crate) fn decimal_string(n: u32) -> (s: String)
    ensures
        s@ == decimal(n as nat),
{
    n.to_string()
}

} // verus!
