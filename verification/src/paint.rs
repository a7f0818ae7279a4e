use vstd::prelude::*;
use yansi::Color as TermColor;
use crate::color::Color;

verus! {

/// What the terminal-styling library renders when it decorates `name` with
/// the foreground color whose `Color::code_spec` is `code`: the color's ANSI
/// escape prefix, then the name, then the reset suffix. The result depends on
/// the name and the color alone.
pub uninterp spec fn painted_of(name: Seq<char>, code: int) -> Seq<char>;

/// Relies on yansi::Color::foreground and yansi::Style::prefix / suffix: for
/// a style that sets only a foreground color they return exactly the ANSI
/// escape prefix and the reset suffix that yansi's Painted display writes
/// around the value when styling is enabled, and they depend on the color
/// alone, not on yansi's process-global toggle.
#[verifier::external_body]
pub(crate) fn paint_label(name: &str, color: &Color) -> (r: String)
    ensures
        r@ == painted_of(name@, color.code_spec()),
{
    let style = match color {
        Color::Black => TermColor::Black, Color::Red => TermColor::Red,
        Color::Green => TermColor::Green, Color::Yellow => TermColor::Yellow,
        Color::Blue => TermColor::Blue, Color::Magenta => TermColor::Magenta,
        Color::Cyan => TermColor::Cyan, Color::White => TermColor::White,
        Color::BrightBlack => TermColor::BrightBlack, Color::BrightRed => TermColor::BrightRed,
        Color::BrightGreen => TermColor::BrightGreen, Color::BrightYellow => TermColor::BrightYellow,
        Color::BrightBlue => TermColor::BrightBlue, Color::BrightMagenta => TermColor::BrightMagenta,
        Color::BrightCyan => TermColor::BrightCyan, Color::BrightWhite => TermColor::BrightWhite,
    }.foreground();
    format!("{}{}{}", style.prefix(), name, style.suffix())
}

} // verus!
