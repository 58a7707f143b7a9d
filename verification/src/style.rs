//! Terminal styles, applied by the `console` crate.
//!
//! A style is carried as `console::Style` and never looked into. Whether
//! applying it adds escape sequences depends on the colour switch of the
//! process, so the contracts here say what holds either way: the text comes
//! back as it is, or between the escape sequences that put a style on and
//! the one that takes it off again.

use console::Style;
use vstd::prelude::*;
use crate::text::{lemma_line_breaks_concat, line_breaks, same_line_breaks, string_views, views};

verus! {

/// `console::Style`, a set of colours and attributes. Its fields are private
/// to `console`.
#[verifier::external_type_specification]
#[verifier::external_body]
pub struct ExStyle(Style);

/// `console::Style::new` returns the empty style. Nothing is claimed of it
/// here: a style is only ever handed on.
pub assume_specification[ Style::new ]() -> Style;

/// `console::Style::bold` adds the bold attribute. Nothing is claimed of the
/// style that comes back.
pub assume_specification[ Style::bold ](style: Style) -> Style;

/// `console::Style::dim` adds the dim attribute. Nothing is claimed of the
/// style that comes back.
pub assume_specification[ Style::dim ](style: Style) -> Style;

/// `console::Style::red` sets a red foreground. Nothing is claimed of the
/// style that comes back.
pub assume_specification[ Style::red ](style: Style) -> Style;

/// `console::Style::green` sets a green foreground. Nothing is claimed of
/// the style that comes back.
pub assume_specification[ Style::green ](style: Style) -> Style;

/// `console::Style::yellow` sets a yellow foreground. Nothing is claimed of
/// the style that comes back.
pub assume_specification[ Style::yellow ](style: Style) -> Style;

/// `console::Style::cyan` sets a cyan foreground. Nothing is claimed of the
/// style that comes back.
pub assume_specification[ Style::cyan ](style: Style) -> Style;

/// A character that an escape sequence for colours and attributes is made
/// of: escape, `[`, `;`, `m` or a decimal digit.
pub open spec fn is_escape_char(c: char) -> bool {
    c == '\x1b' || c == '[' || c == ';' || c == 'm' || ('0' <= c && c <= '9')
}

/// Every character of `s` belongs to an escape sequence.
pub open spec fn escape_only(s: Seq<char>) -> bool {
    forall|i: int| 0 <= i < s.len() ==> is_escape_char(#[trigger] s[i])
}

/// The escape sequence that takes every colour and attribute off again.
pub open spec fn reset_sequence() -> Seq<char> {
    "\x1b[0m"@
}

/// `out` is `text` with some style applied: `text` itself, or `text` between
/// the escape sequences that put a style on and the one that takes it off
/// again.
pub open spec fn styled_as(out: Seq<char>, text: Seq<char>) -> bool {
    out == text || exists|codes: Seq<char>|
        #![trigger codes + text]
        codes.len() > 0 && escape_only(codes) && out == codes + text + reset_sequence()
}

/// `outs` holds a styling of each text of `texts`, in order.
pub open spec fn each_styled_as(outs: Seq<Seq<char>>, texts: Seq<Seq<char>>) -> bool {
    outs.len() == texts.len() && forall|i: int|
        0 <= i < texts.len() ==> styled_as(#[trigger] outs[i], texts[i])
}

/// Applies `style` to `text` with `console::Style::apply_to` and formats the
/// styled object. Where styling is off, by the style's own setting or, without
/// one, by the colour switch of the process, and where the style is empty,
/// the result is `text`. Otherwise `console` writes one escape sequence for
/// each colour and attribute of the style, then `text`, then the reset
/// sequence. The contract states what all of these share.
#[verifier::external_body]
pub(crate) fn styled(style: &Style, text: &str) -> (out: String)
    ensures
        styled_as(out@, text@),
{
    style.apply_to(text).to_string()
}

/// A text is a styling of itself.
pub proof fn lemma_plain_is_styled(text: Seq<char>)
    ensures
        styled_as(text, text),
{
}

/// Escape sequences hold no line feed.
pub proof fn lemma_escape_only_line_breaks(s: Seq<char>)
    requires
        escape_only(s),
    ensures
        line_breaks(s) == 0,
    decreases s.len(),
{
    if s.len() > 0 {
        assert(is_escape_char(s[s.len() - 1]));
        lemma_escape_only_line_breaks(s.drop_last());
    }
}

/// Styling a text adds no line: the styled text has exactly the line feeds of
/// the text.
pub proof fn lemma_styled_line_breaks(out: Seq<char>, text: Seq<char>)
    requires
        styled_as(out, text),
    ensures
        line_breaks(out) == line_breaks(text),
{
    if out != text {
        let codes = choose|codes: Seq<char>|
            #![trigger codes + text]
            codes.len() > 0 && escape_only(codes) && out == codes + text + reset_sequence();
        reveal_strlit("\x1b[0m");
        lemma_escape_only_line_breaks(codes);
        lemma_escape_only_line_breaks(reset_sequence());
        lemma_line_breaks_concat(codes, text);
        lemma_line_breaks_concat(codes + text, reset_sequence());
    }
}

/// Applies `style` to each of `texts`, in order.
pub(crate) fn styled_all(style: &Style, texts: &[&str]) -> (out: Vec<String>)
    ensures
        each_styled_as(string_views(out@), views(texts@)),
{
    let mut out: Vec<String> = Vec::new();
    let mut i: usize = 0;
    while i < texts.len()
        invariant
            i <= texts.len(),
            out@.len() == i,
            forall|j: int| 0 <= j < i ==> styled_as((#[trigger] out@[j])@, texts@[j]@),
        decreases texts.len() - i,
    {
        out.push(styled(style, texts[i]));
        i += 1;
    }
    out
}

/// Styling texts adds no line to any of them.
pub proof fn lemma_each_styled_line_breaks(outs: Seq<Seq<char>>, texts: Seq<Seq<char>>)
    requires
        each_styled_as(outs, texts),
    ensures
        same_line_breaks(outs, texts),
{
    assert forall|i: int| 0 <= i < outs.len() implies line_breaks(#[trigger] outs[i])
        == line_breaks(texts[i]) by {
        lemma_styled_line_breaks(outs[i], texts[i]);
    }
}

/// Texts are stylings of themselves.
pub proof fn lemma_plain_are_styled(texts: Seq<Seq<char>>)
    ensures
        each_styled_as(texts, texts),
{
    assert forall|i: int| 0 <= i < texts.len() implies styled_as(#[trigger] texts[i], texts[i]) by {
        lemma_plain_is_styled(texts[i]);
    }
}

} // verus!
