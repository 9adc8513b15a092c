use vstd::prelude::*;

verus! {

/// The rendering style a line is drawn in. The engine decides the style;
/// the terminal colours it stands for are an outside capability.
#[derive(Clone, Copy, PartialEq, Eq, Structural, Debug)]
pub enum RenderStyle {
    /// The muted grey of the in-progress spinner line.
    Muted,
    /// The success colour of a completed line.
    Success,
    /// The failure colour of a failed line.
    Failure,
}

/// The ANSI reset sequence. The styling below rewrites occurrences of it
/// inside the text, so the contracts here exclude texts that hold one.
pub open spec fn reset_marker() -> Seq<char> {
    "\x1b[0m"@
}

/// Whether the text holds the ANSI reset sequence somewhere.
pub open spec fn contains_reset(s: Seq<char>) -> bool {
    exists|i: int| 0 <= i && i + 4 <= s.len() && #[trigger] s.subrange(i, i + 4) == reset_marker()
}

/// Relies on colored::Colorize::green and ColoredString's Display
/// implementation: the rendered form is the text itself between a style
/// prefix and a reset suffix, either of which is empty when the terminal
/// takes no colour — provided the text holds no reset sequence of its own.
#[verifier::external_body]
fn paint_success(text: &str) -> (r: String)
    ensures
        !contains_reset(text@) ==> exists|p: Seq<char>, q: Seq<char>| r@ == p + text@ + q,
{
    colored::Colorize::green(text).to_string()
}

/// Relies on colored::Colorize::red, rendered the same way as above.
#[verifier::external_body]
fn paint_failure(text: &str) -> (r: String)
    ensures
        !contains_reset(text@) ==> exists|p: Seq<char>, q: Seq<char>| r@ == p + text@ + q,
{
    colored::Colorize::red(text).to_string()
}

/// Relies on colored::Colorize::custom_color: the same rendering shape as
/// the named colours, with a true-colour prefix built from the channels.
#[verifier::external_body]
fn paint_custom(text: &str, red: u8, green: u8, blue: u8) -> (r: String)
    ensures
        !contains_reset(text@) ==> exists|p: Seq<char>, q: Seq<char>| r@ == p + text@ + q,
{
    colored::Colorize::custom_color(text, colored::CustomColor::new(red, green, blue)).to_string()
}

/// Styles one rendered line for the terminal. Whatever the style, when the
/// text holds no ANSI reset sequence its characters survive unchanged
/// between a possibly empty prefix and suffix.
pub fn paint(text: &str, style: RenderStyle) -> (r: String)
    ensures
        !contains_reset(text@) ==> exists|p: Seq<char>, q: Seq<char>| r@ == p + text@ + q,
{
    match style {
        RenderStyle::Muted => paint_custom(text, 121, 115, 118),
        RenderStyle::Success => paint_success(text),
        RenderStyle::Failure => paint_failure(text),
    }
}

} // verus!
