//! The unstyled wording of every prompt event.
//!
//! These functions are the base behaviour of all themes: a theme that has no
//! wording of its own for an event writes what stands here. The character
//! that ends a prompt is a parameter; the simple theme passes `:`.

use vstd::prelude::*;
use crate::text::{join, key_choices, key_choices_text, option_view, views};

verus! {

/// Rendering style for a selected item.
#[derive(Debug, Clone, Copy, PartialEq, Eq)]
pub enum SelectionStyle {
    /// Renders an unchecked but selected checkbox.
    CheckboxUncheckedSelected,
    /// Renders an unchecked and unselected checkbox.
    CheckboxUncheckedUnselected,
    /// Renders a checked but selected checkbox.
    CheckboxCheckedSelected,
    /// Renders a checked and unselected checkbox.
    CheckboxCheckedUnselected,
    /// Renders a selected menu item.
    MenuSelected,
    /// Renders an unselected menu item.
    MenuUnselected,
}

impl SelectionStyle {
    /// The cursor stands on the item.
    pub open spec fn is_selected(self) -> bool {
        self is CheckboxUncheckedSelected || self is CheckboxCheckedSelected || self is MenuSelected
    }

    /// The item is a checkbox with its mark set.
    pub open spec fn is_checked(self) -> bool {
        self is CheckboxCheckedSelected || self is CheckboxCheckedUnselected
    }
}

/// A question header: the prompt and the terminator.
pub open spec fn prompt_text(prompt: Seq<char>, terminator: char) -> Seq<char> {
    prompt.push(terminator)
}

/// A single-line input prompt, the default value in square brackets where
/// there is one.
pub open spec fn singleline_prompt_text(
    prompt: Seq<char>,
    default: Option<Seq<char>>,
    terminator: char,
) -> Seq<char> {
    match default {
        Some(d) => prompt + " ["@ + d + "]"@ + seq![terminator, ' '],
        None => prompt + seq![terminator, ' '],
    }
}

/// An error banner.
pub open spec fn error_text(message: Seq<char>) -> Seq<char> {
    "error: "@ + message
}

/// The hint of a confirmation prompt in square brackets, the default answer
/// in upper case.
pub open spec fn confirmation_hint(default: bool) -> Seq<char> {
    if default {
        "[Y/n]"@
    } else {
        "[y/N]"@
    }
}

/// The hint that goes with an optional default answer: none where there is
/// no default.
pub open spec fn optional_hint(default: Option<bool>) -> Option<Seq<char>> {
    match default {
        Some(d) => Some(confirmation_hint(d)),
        None => None,
    }
}

/// A prompt with a hint after it, a space on either side of the hint; the
/// bare prompt where there is no hint.
pub open spec fn hinted_prompt_text(prompt: Seq<char>, hint: Option<Seq<char>>) -> Seq<char> {
    match hint {
        Some(h) => prompt + " "@ + h + " "@,
        None => prompt,
    }
}

/// A confirmation prompt: the prompt and the hint for its default.
pub open spec fn confirmation_prompt_text(prompt: Seq<char>, default: Option<bool>) -> Seq<char> {
    hinted_prompt_text(prompt, optional_hint(default))
}

/// A key prompt: the prompt and the choices in square brackets.
pub open spec fn key_prompt_text(
    prompt: Seq<char>,
    default: Option<u8>,
    choices: Seq<char>,
) -> Seq<char> {
    prompt + " ["@ + key_choices(default, choices) + "] "@
}

/// The word for a committed yes/no answer.
pub open spec fn answer_word(selection: bool) -> Seq<char> {
    if selection {
        "yes"@
    } else {
        "no"@
    }
}

/// An answer after its prompt, a space between them.
pub open spec fn answered_text(prompt: Seq<char>, answer: Seq<char>) -> Seq<char> {
    prompt + " "@ + answer
}

/// A committed yes/no answer after its prompt.
pub open spec fn confirmation_selection_text(prompt: Seq<char>, selection: bool) -> Seq<char> {
    answered_text(prompt, answer_word(selection))
}

/// A committed single value after its prompt.
pub open spec fn single_selection_text(
    prompt: Seq<char>,
    selection: Seq<char>,
    terminator: char,
) -> Seq<char> {
    prompt + seq![terminator, ' '] + selection
}

/// Committed values after their prompt, in order, separated by a comma and a
/// space.
pub open spec fn multi_selection_text(
    prompt: Seq<char>,
    selections: Seq<Seq<char>>,
    terminator: char,
) -> Seq<char> {
    prompt + seq![terminator, ' '] + join(selections, ", "@)
}

/// What stands in place of a password.
pub open spec fn hidden_mask() -> Seq<char> {
    "[hidden]"@
}

/// A committed password after its prompt: the mask, never the password.
pub open spec fn password_selection_text(prompt: Seq<char>, terminator: char) -> Seq<char> {
    single_selection_text(prompt, hidden_mask(), terminator)
}

/// The marker in front of a list item.
pub open spec fn selection_marker(style: SelectionStyle) -> Seq<char> {
    match style {
        SelectionStyle::CheckboxUncheckedSelected => "> [ ] "@,
        SelectionStyle::CheckboxUncheckedUnselected => "  [ ] "@,
        SelectionStyle::CheckboxCheckedSelected => "> [x] "@,
        SelectionStyle::CheckboxCheckedUnselected => "  [x] "@,
        SelectionStyle::MenuSelected => "> "@,
        SelectionStyle::MenuUnselected => "  "@,
    }
}

/// One list item: its marker and its text.
pub open spec fn selection_text(text: Seq<char>, style: SelectionStyle) -> Seq<char> {
    selection_marker(style) + text
}

/// Appends a question header to `f`.
pub fn format_prompt(f: &mut String, prompt: &str, terminator: char)
    ensures
        final(f)@ == old(f)@ + prompt_text(prompt@, terminator),
{
    f.append(prompt);
    f.push(terminator);
}

/// Appends the terminator and the space after it.
fn push_terminator(f: &mut String, terminator: char)
    ensures
        final(f)@ == old(f)@ + seq![terminator, ' '],
{
    f.push(terminator);
    f.push(' ');
}

/// Appends a single-line input prompt to `f`.
pub fn format_singleline_prompt(
    f: &mut String,
    prompt: &str,
    default: Option<&str>,
    terminator: char,
)
    ensures
        final(f)@ == old(f)@ + singleline_prompt_text(prompt@, option_view(default), terminator),
{
    f.append(prompt);
    match default {
        Some(d) => {
            f.append(" [");
            f.append(d);
            f.append("]");
        },
        None => {},
    }
    push_terminator(f, terminator);
}

/// Appends an error banner to `f`.
pub fn format_error(f: &mut String, err: &str)
    ensures
        final(f)@ == old(f)@ + error_text(err@),
{
    f.append("error: ");
    f.append(err);
}

/// The hint for a default answer.
pub fn confirmation_hint_word(default: bool) -> (hint: &'static str)
    ensures
        hint@ == confirmation_hint(default),
{
    if default {
        "[Y/n]"
    } else {
        "[y/N]"
    }
}

/// Appends a prompt and its hint to `f`.
pub fn format_hinted_prompt(f: &mut String, prompt: &str, hint: Option<&str>)
    ensures
        final(f)@ == old(f)@ + hinted_prompt_text(prompt@, option_view(hint)),
{
    f.append(prompt);
    match hint {
        Some(h) => {
            f.append(" ");
            f.append(h);
            f.append(" ");
        },
        None => {},
    }
}

/// Appends a confirmation prompt to `f`.
pub fn format_confirmation_prompt(f: &mut String, prompt: &str, default: Option<bool>)
    ensures
        final(f)@ == old(f)@ + confirmation_prompt_text(prompt@, default),
{
    match default {
        Some(d) => format_hinted_prompt(f, prompt, Some(confirmation_hint_word(d))),
        None => format_hinted_prompt(f, prompt, None),
    }
}

/// Appends a key prompt to `f`.
pub fn format_key_prompt(f: &mut String, prompt: &str, default: Option<u8>, choices: &Vec<char>)
    ensures
        final(f)@ == old(f)@ + key_prompt_text(prompt@, default, choices@),
{
    f.append(prompt);
    let keys = key_choices_text(default, choices);
    f.append(" [");
    f.append(keys.as_str());
    f.append("] ");
}

/// The word for a committed yes/no answer.
pub fn confirmation_answer_word(selection: bool) -> (word: &'static str)
    ensures
        word@ == answer_word(selection),
{
    if selection {
        "yes"
    } else {
        "no"
    }
}

/// Appends a prompt and the answer given to it to `f`.
pub fn format_answer(f: &mut String, prompt: &str, answer: &str)
    ensures
        final(f)@ == old(f)@ + answered_text(prompt@, answer@),
{
    f.append(prompt);
    f.append(" ");
    f.append(answer);
}

/// Appends a committed yes/no answer to `f`.
pub fn format_confirmation_prompt_selection(f: &mut String, prompt: &str, selection: bool)
    ensures
        final(f)@ == old(f)@ + confirmation_selection_text(prompt@, selection),
{
    format_answer(f, prompt, confirmation_answer_word(selection));
}

/// Appends a committed single value to `f`.
pub fn format_single_prompt_selection(f: &mut String, prompt: &str, sel: &str, terminator: char)
    ensures
        final(f)@ == old(f)@ + single_selection_text(prompt@, sel@, terminator),
{
    f.append(prompt);
    push_terminator(f, terminator);
    f.append(sel);
}

/// Appends `parts` to `f`, a comma and a space between each two.
pub fn append_comma_separated(f: &mut String, parts: &[&str])
    ensures
        final(f)@ == old(f)@ + join(views(parts@), ", "@),
{
    let mut idx: usize = 0;
    while idx < parts.len()
        invariant
            idx <= parts.len(),
            f@ == old(f)@ + join(views(parts@.take(idx as int)), ", "@),
        decreases parts.len() - idx,
    {
        proof {
            let now = views(parts@.take(idx as int + 1));
            assert(now.drop_last() == views(parts@.take(idx as int)));
            assert(now.last() == parts@[idx as int]@);
        }
        if idx != 0 {
            f.append(", ");
        }
        f.append(parts[idx]);
        idx += 1;
    }
    proof {
        assert(parts@.take(parts@.len() as int) == parts@);
    }
}

/// Appends committed values to `f`.
pub fn format_multi_prompt_selection(
    f: &mut String,
    prompt: &str,
    selections: &[&str],
    terminator: char,
)
    ensures
        final(f)@ == old(f)@ + multi_selection_text(prompt@, views(selections@), terminator),
{
    f.append(prompt);
    push_terminator(f, terminator);
    append_comma_separated(f, selections);
}

/// Appends a committed password to `f`: the mask in place of the password.
pub fn format_password_prompt_selection(f: &mut String, prompt: &str, terminator: char)
    ensures
        final(f)@ == old(f)@ + password_selection_text(prompt@, terminator),
{
    format_single_prompt_selection(f, prompt, "[hidden]", terminator);
}

/// Appends one list item to `f`.
pub fn format_selection(f: &mut String, text: &str, style: SelectionStyle)
    ensures
        final(f)@ == old(f)@ + selection_text(text@, style),
{
    f.append(
        match style {
            SelectionStyle::CheckboxUncheckedSelected => "> [ ] ",
            SelectionStyle::CheckboxUncheckedUnselected => "  [ ] ",
            SelectionStyle::CheckboxCheckedSelected => "> [x] ",
            SelectionStyle::CheckboxCheckedUnselected => "  [x] ",
            SelectionStyle::MenuSelected => "> ",
            SelectionStyle::MenuUnselected => "  ",
        },
    );
    f.append(text);
}

} // verus!
