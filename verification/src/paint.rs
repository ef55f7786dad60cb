//! Terminal styling: ANSI escape sequences wrapped round a text.

use crate::band::Color;
use owo_colors::{CssColors, OwoColorize};
use vstd::prelude::*;

verus! {

/// The escape sequence that sets the foreground to `color`, as a 24-bit
/// colour with each component written in three digits.
pub open spec fn foreground_code(color: Color) -> Seq<char> {
    match color {
        Color::Green => "\x1b[38;2;000;128;000m"@,
        Color::Yellow => "\x1b[38;2;255;255;000m"@,
        Color::Orange => "\x1b[38;2;255;165;000m"@,
        Color::Red => "\x1b[38;2;255;000;000m"@,
        Color::Purple => "\x1b[38;2;128;000;128m"@,
        Color::Maroon => "\x1b[38;2;128;000;000m"@,
        Color::White => "\x1b[38;2;255;255;255m"@,
    }
}

/// `text` with its foreground set to `color` and reset to the default after
/// it.
pub open spec fn colored(text: Seq<char>, color: Color) -> Seq<char> {
    foreground_code(color) + text + "\x1b[39m"@
}

/// `text` in the terminal's own white, the foreground reset after it.
pub open spec fn whitened(text: Seq<char>) -> Seq<char> {
    "\x1b[37m"@ + text + "\x1b[39m"@
}

/// `text` in the terminal's own blue, the foreground reset after it.
pub open spec fn blued(text: Seq<char>) -> Seq<char> {
    "\x1b[34m"@ + text + "\x1b[39m"@
}

/// `text` in bold, every attribute reset after it.
pub open spec fn bolded(text: Seq<char>) -> Seq<char> {
    "\x1b[1m"@ + text + "\x1b[0m"@
}

/// `text` as a heading: blue, and the blue text in bold.
pub open spec fn emphasized(text: Seq<char>) -> Seq<char> {
    bolded(blued(text))
}

/// Calls `OwoColorize::color` of owo_colors with the CSS colour of the same
/// name and formats the outcome. Claimed, not proved: the outcome is the
/// text between the colour's 24-bit foreground sequence and the sequence
/// that resets the foreground.
#[verifier::external_body]
pub(crate) fn paint(text: &str, color: Color) -> (out: String)
    ensures
        out@ == colored(text@, color),
{
    let css = match color {
        Color::Green => CssColors::Green,
        Color::Yellow => CssColors::Yellow,
        Color::Orange => CssColors::Orange,
        Color::Red => CssColors::Red,
        Color::Purple => CssColors::Purple,
        Color::Maroon => CssColors::Maroon,
        Color::White => CssColors::White,
    };
    format!("{}", text.color(css))
}

/// Calls `OwoColorize::white` of owo_colors and formats the outcome.
/// Claimed, not proved: the outcome is the text between the sequence for
/// a white foreground and the sequence that resets the foreground.
#[verifier::external_body]
pub(crate) fn paint_white(text: &str) -> (out: String)
    ensures
        out@ == whitened(text@),
{
    format!("{}", text.white())
}

/// Calls `OwoColorize::blue` of owo_colors and formats the outcome.
/// Claimed, not proved: the outcome is the text between the sequence for
/// a blue foreground and the sequence that resets the foreground.
#[verifier::external_body]
fn paint_blue(text: &str) -> (out: String)
    ensures
        out@ == blued(text@),
{
    format!("{}", text.blue())
}

/// Calls `OwoColorize::bold` of owo_colors and formats the outcome.
/// Claimed, not proved: the outcome is the text between the sequence for
/// bold and the sequence that resets all attributes.
#[verifier::external_body]
fn embolden(text: &str) -> (out: String)
    ensures
        out@ == bolded(text@),
{
    format!("{}", text.bold())
}

/// Shows `text` as a heading: blue and bold.
pub fn emphasize(text: &str) -> (out: String)
    ensures
        out@ == emphasized(text@),
{
    let blue = paint_blue(text);
    embolden(blue.as_str())
}

} // verus!
