//! Terminal colours and text attributes, applied through `colored`.
use vstd::prelude::*;

use colored::Colorize;

verus! {

/// The foreground colours the report uses.
#[derive(Clone, Copy, Debug, PartialEq, Eq, Structural)]
pub enum Color {
    Green,
    Yellow,
    Magenta,
    BrightRed,
    BrightGreen,
    BrightYellow,
    BrightBlue,
}

/// The SGR parameter that selects a foreground colour.
pub open spec fn fg_code(c: Color) -> Seq<char> {
    match c {
        Color::Green => seq!['3', '2'],
        Color::Yellow => seq!['3', '3'],
        Color::Magenta => seq!['3', '5'],
        Color::BrightRed => seq!['9', '1'],
        Color::BrightGreen => seq!['9', '2'],
        Color::BrightYellow => seq!['9', '3'],
        Color::BrightBlue => seq!['9', '4'],
    }
}

/// Parameters for bold text in colour `c`.
pub open spec fn bold_codes(c: Color) -> Seq<char> {
    seq!['1', ';'] + fg_code(c)
}

/// Parameters for bold italic yellow text.
pub open spec fn bold_italic_yellow_codes() -> Seq<char> {
    seq!['1', ';', '3', ';'] + fg_code(Color::Yellow)
}

/// Parameters for italic text.
pub open spec fn italic_codes() -> Seq<char> {
    seq!['3']
}

/// The escape sequence that selects the attributes `codes`.
pub open spec fn sgr(codes: Seq<char>) -> Seq<char> {
    seq!['\x1b', '['] + codes + seq!['m']
}

/// The escape sequence that restores plain text.
pub open spec fn reset() -> Seq<char> {
    seq!['\x1b', '[', '0', 'm']
}

/// `r` shows `s` with the attributes `codes`: wrapped in their escape
/// sequence and a reset when colouring is on, or as it is when it is off.
pub open spec fn painted(r: Seq<char>, s: Seq<char>, codes: Seq<char>) -> bool {
    r == s || r == sgr(codes) + s + reset()
}

/// Relies on colored's `Colorize::color` and `Colorize::bold` and on the
/// `Display` of `ColoredString`: when colouring is on (read from the
/// environment, or set by `colored::control::set_override`) the text comes
/// between `ESC[1;<fg>m` and `ESC[0m`, else as it is. Only resets inside the
/// text are rewritten, so the contract is stated for text without escapes.
#[verifier::external_body]
pub(crate) fn bold_in(s: &str, c: Color) -> (r: String)
    ensures
        !s@.contains('\x1b') ==> painted(r@, s@, bold_codes(c)),
{
    let fg = match c {
        Color::Green => colored::Color::Green,
        Color::Yellow => colored::Color::Yellow,
        Color::Magenta => colored::Color::Magenta,
        Color::BrightRed => colored::Color::BrightRed,
        Color::BrightGreen => colored::Color::BrightGreen,
        Color::BrightYellow => colored::Color::BrightYellow,
        Color::BrightBlue => colored::Color::BrightBlue,
    };
    s.color(fg).bold().to_string()
}

/// Relies on colored's `Colorize::yellow`, `bold` and `italic` and on the
/// `Display` of `ColoredString`, as `bold_in` does.
#[verifier::external_body]
pub(crate) fn bold_italic_yellow(s: &str) -> (r: String)
    ensures
        !s@.contains('\x1b') ==> painted(r@, s@, bold_italic_yellow_codes()),
{
    s.yellow().bold().italic().to_string()
}

/// Relies on colored's `Colorize::italic` and on the `Display` of
/// `ColoredString`, as `bold_in` does.
#[verifier::external_body]
pub(crate) fn italic(s: &str) -> (r: String)
    ensures
        !s@.contains('\x1b') ==> painted(r@, s@, italic_codes()),
{
    s.italic().to_string()
}

} // verus!
