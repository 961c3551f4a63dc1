//! Foreground colours for terminal text, written as ANSI escape codes.
use vstd::prelude::*;
use vstd::string::StringExecFns;
use crate::text::push_char;

verus! {

/// The escape character that starts every ANSI sequence.
pub open spec fn esc() -> char {
    '\u{1b}'
}

/// The sequence that selects foreground colour number `d` (a digit from
/// `'0'` to `'7'`): `ESC [ 3 d m`.
pub open spec fn color_code(d: char) -> Seq<char> {
    seq![esc(), '[', '3', d, 'm']
}

/// The sequence that resets all attributes: `ESC [ 0 m`.
pub open spec fn reset_code() -> Seq<char> {
    seq![esc(), '[', '0', 'm']
}

/// `text` in foreground colour number `d`, followed by a reset.
pub open spec fn colored(d: char, text: Seq<char>) -> Seq<char> {
    color_code(d) + text + reset_code()
}

fn paint(d: char, text: String) -> (r: String)
    ensures
        r@ == colored(d, text@),
{
    let mut s = String::new();
    push_char(&mut s, '\u{1b}');
    push_char(&mut s, '[');
    push_char(&mut s, '3');
    push_char(&mut s, d);
    push_char(&mut s, 'm');
    s.append(text.as_str());
    push_char(&mut s, '\u{1b}');
    push_char(&mut s, '[');
    push_char(&mut s, '0');
    push_char(&mut s, 'm');
    assert(s@ =~= colored(d, text@));
    s
}

/// `text` in black.
pub fn fg_black(text: String) -> (r: String)
    ensures
        r@ == colored('0', text@),
{
    paint('0', text)
}

/// `text` in red.
pub fn fg_red(text: String) -> (r: String)
    ensures
        r@ == colored('1', text@),
{
    paint('1', text)
}

/// `text` in green.
pub fn fg_green(text: String) -> (r: String)
    ensures
        r@ == colored('2', text@),
{
    paint('2', text)
}

/// `text` in yellow.
pub fn fg_yellow(text: String) -> (r: String)
    ensures
        r@ == colored('3', text@),
{
    paint('3', text)
}

/// `text` in blue.
pub fn fg_blue(text: String) -> (r: String)
    ensures
        r@ == colored('4', text@),
{
    paint('4', text)
}

/// `text` in purple (magenta).
pub fn fg_purple(text: String) -> (r: String)
    ensures
        r@ == colored('5', text@),
{
    paint('5', text)
}

/// `text` in cyan.
pub fn fg_cyan(text: String) -> (r: String)
    ensures
        r@ == colored('6', text@),
{
    paint('6', text)
}

/// `text` in white.
pub fn fg_white(text: String) -> (r: String)
    ensures
        r@ == colored('7', text@),
{
    paint('7', text)
}

} // verus!
