//! Text that the reports are made of: joining with a separator, and terminal
//! styling.

use colored::Colorize;
use itertools::Itertools;
use vstd::prelude::*;

use crate::status::Verdict;

verus! {

/// The items of `items` in their order, with `separator` between each two.
pub open spec fn joined(items: Seq<Seq<char>>, separator: Seq<char>) -> Seq<char>
    decreases items.len(),
{
    if items.len() == 0 {
        Seq::empty()
    } else if items.len() == 1 {
        items[0]
    } else {
        joined(items.drop_last(), separator) + separator + items.last()
    }
}

/// The escape character, with which every terminal control sequence begins.
pub open spec fn escape_char() -> char {
    '\u{1b}'
}

/// The control sequence that switches to a green foreground.
pub open spec fn green_code() -> Seq<char> {
    seq![escape_char(), '[', '3', '2', 'm']
}

/// The control sequence that switches to a red foreground.
pub open spec fn red_code() -> Seq<char> {
    seq![escape_char(), '[', '3', '1', 'm']
}

/// The control sequence that switches to bold.
pub open spec fn bold_code() -> Seq<char> {
    seq![escape_char(), '[', '1', 'm']
}

/// The control sequence that switches every style off.
pub open spec fn reset_code() -> Seq<char> {
    seq![escape_char(), '[', '0', 'm']
}

/// The control sequence of a verdict's color.
pub open spec fn verdict_code(verdict: Verdict) -> Seq<char> {
    match verdict {
        Verdict::Green => green_code(),
        Verdict::Red => red_code(),
    }
}

/// `text` with `code` put after each reset sequence in it, so that a style
/// that `text` switches off inside comes back on at once.
pub open spec fn restyled(text: Seq<char>, code: Seq<char>) -> Seq<char>
    decreases text.len(),
{
    if text.len() == 0 {
        text
    } else if reset_code().is_prefix_of(text) {
        reset_code() + code + restyled(text.skip(4), code)
    } else {
        seq![text[0]] + restyled(text.skip(1), code)
    }
}

/// `out` is a rendering of `text` in the style that `code` switches on.
/// Whether a terminal style is applied is decided by the process's
/// environment at the time of the rendering. A rendering is the text as it
/// is; or `code`, the text restyled, and the reset sequence. Where coloring
/// is switched off while the rendering runs, `code` may be missing in front,
/// and the text between may be as it was.
pub open spec fn styled(text: Seq<char>, code: Seq<char>, out: Seq<char>) -> bool {
    ||| out == text
    ||| out == code + restyled(text, code) + reset_code()
    ||| out == code + text + reset_code()
    ||| out == restyled(text, code) + reset_code()
    ||| out == text + reset_code()
}

/// Calls `itertools::Itertools::join` on the strings of `items`. That method
/// writes the first item, then for each further item the separator and the
/// item: the contract states exactly this.
#[verifier::external_body]
pub(crate) fn join_with(items: &Vec<String>, separator: &str) -> (out: String)
    ensures
        out@ == joined(items.deep_view(), separator@),
{
    items.iter().join(separator)
}

/// Calls `colored::Colorize::green` and renders the result with its
/// `Display`, which writes the text as it is where coloring is off, and else
/// the code for green, the text with that code after each reset sequence in
/// it, and the reset sequence.
#[verifier::external_body]
pub(crate) fn paint_green(text: &str) -> (out: String)
    ensures
        styled(text@, green_code(), out@),
{
    text.green().to_string()
}

/// Calls `colored::Colorize::red` and renders the result with its `Display`,
/// which writes the text as it is where coloring is off, and else the code
/// for red, the text with that code after each reset sequence in it, and the
/// reset sequence.
#[verifier::external_body]
pub(crate) fn paint_red(text: &str) -> (out: String)
    ensures
        styled(text@, red_code(), out@),
{
    text.red().to_string()
}

/// Calls `colored::Colorize::bold` and renders the result with its `Display`,
/// which writes the text as it is where coloring is off, and else the code
/// for bold, the text with that code after each reset sequence in it, and the
/// reset sequence.
#[verifier::external_body]
pub(crate) fn embolden(text: &str) -> (out: String)
    ensures
        styled(text@, bold_code(), out@),
{
    text.bold().to_string()
}

/// Renders `text` in the color of `verdict`.
pub fn paint(verdict: Verdict, text: &str) -> (out: String)
    ensures
        styled(text@, verdict_code(verdict), out@),
{
    match verdict {
        Verdict::Green => paint_green(text),
        Verdict::Red => paint_red(text),
    }
}

/// A text without the escape character holds no reset sequence, so
/// restyling leaves it as it is: its renderings are the text alone, the text
/// between the code and the reset sequence, and the text before the reset
/// sequence.
pub proof fn plain_text_is_not_restyled(text: Seq<char>, code: Seq<char>)
    requires
        !text.contains(escape_char()),
    ensures
        restyled(text, code) == text,
    decreases text.len(),
{
    if text.len() > 0 {
        assert(text.contains(text[0]));
        assert(reset_code()[0] == escape_char());
        assert(!reset_code().is_prefix_of(text)) by {
            if reset_code().is_prefix_of(text) {
                assert(text[0] == reset_code()[0]);
            }
        }
        let rest = text.skip(1);
        assert forall|index: int| 0 <= index < rest.len() implies rest[index] != escape_char() by {
            assert(text.contains(text[index + 1]));
        }
        plain_text_is_not_restyled(rest, code);
        assert(seq![text[0]] + rest =~= text);
    }
}

} // verus!
