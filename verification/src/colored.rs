//! A theme with coloured glyphs in front of prompts, answers and list items.

use console::Style;
use vstd::prelude::*;
use crate::plain::{append_comma_separated, SelectionStyle};
use crate::style::{
    each_styled_as, lemma_each_styled_line_breaks, lemma_plain_are_styled, lemma_plain_is_styled,
    lemma_styled_line_breaks, styled, styled_all, styled_as,
};
use crate::text::{
    borrow_all, join, key_choices, lemma_join_line_breaks,
    lemma_line_breaks_concat, line_breaks, option_view, string_views, views,
};
use crate::theme::{FormatError, PromptEvent, Theme};

verus! {

/// Provides a colored theme.
pub struct ColoredTheme {
    /// The style for default values and for the glyphs between a prompt and
    /// what follows it.
    pub defaults_style: Style,
    /// The style for prompts.
    pub prompts_style: Style,
    /// The style for the glyph in front of an open prompt.
    pub prefixes_style: Style,
    /// The style for committed values and their glyph.
    pub values_style: Style,
    /// The style for errors.
    pub errors_style: Style,
    /// The style for the list item under the cursor.
    pub selected_style: Style,
    /// The style for the other list items.
    pub unselected_style: Style,
    /// Whether a multi-selection shows the chosen values on the prompt line.
    /// Defaults to `true`.
    pub inline_selections: bool,
    /// Whether list items carry the glyphs of an ordering list. Defaults to
    /// `true`.
    pub is_sort: bool,
}

impl Default for ColoredTheme {
    /// Yellow bold defaults, bold prompts, cyan prefixes, green values, red
    /// errors, a cyan bold selected item; values on the prompt line and the
    /// glyphs of an ordering list.
    fn default() -> (theme: Self)
        ensures
            theme.inline_selections,
            theme.is_sort,
    {
        ColoredTheme {
            defaults_style: Style::new().yellow().bold(),
            prompts_style: Style::new().bold(),
            prefixes_style: Style::new().cyan(),
            values_style: Style::new().green(),
            errors_style: Style::new().red(),
            selected_style: Style::new().cyan().bold(),
            unselected_style: Style::new(),
            inline_selections: true,
            is_sort: true,
        }
    }
}

impl ColoredTheme {
    /// Checkboxes print the selected values on the prompt line. This option
    /// allows the user to customize whether those will be printed on the
    /// prompts line or not.
    pub fn inline_selections(self, val: bool) -> (theme: Self)
        ensures
            theme == (ColoredTheme { inline_selections: val, ..self }),
    {
        let mut theme = self;
        theme.inline_selections = val;
        theme
    }

    /// An ordering list by default prints like checkboxes. This function
    /// allows the user to specify that the theme needs to use a different
    /// style for sort.
    pub fn set_sort(self, val: bool) -> (theme: Self)
        ensures
            theme == (ColoredTheme { is_sort: val, ..self }),
    {
        let mut theme = self;
        theme.is_sort = val;
        theme
    }

    /// The wording of `event` with no part styled.
    pub open spec fn unstyled_text(&self, event: PromptEvent) -> Seq<char> {
        match event {
            PromptEvent::Prompt(prompt) => prompt_text("?"@, prompt, "›"@),
            PromptEvent::SinglelinePrompt(prompt, default) => input_text(
                "?"@,
                prompt,
                details_text(default),
                "›"@,
            ),
            PromptEvent::Error(message) => marked_text("✘"@, message),
            PromptEvent::ConfirmationPrompt(prompt, default) => confirmation_text(
                "?"@,
                prompt,
                hint_text(default),
                "›"@,
                default_word(default),
            ),
            PromptEvent::KeyPrompt(prompt, default, choices) => key_text(
                "?"@,
                prompt,
                bracketed_keys(default, choices),
                "›"@,
            ),
            PromptEvent::ConfirmationSelection(prompt, selection) => answer_text(
                "✔"@,
                prompt,
                "·"@,
                answer_word(selection),
            ),
            PromptEvent::SingleSelection(prompt, selection) => answer_text(
                "✔"@,
                prompt,
                "·"@,
                selection,
            ),
            PromptEvent::MultiSelection(prompt, selections) => multi_text(
                "✔"@,
                prompt,
                "·"@,
                if self.inline_selections {
                    selections
                } else {
                    Seq::empty()
                },
            ),
            PromptEvent::PasswordSelection(prompt) => answer_text(
                "✔"@,
                prompt,
                "·"@,
                password_mask(),
            ),
            PromptEvent::Selection(text, style) => marked_text(
                glyph_text(self.is_sort, style),
                text,
            ),
        }
    }

    /// The glyph in front of a list item of state `style`.
    pub fn selection_glyph(&self, style: SelectionStyle) -> (glyph: &'static str)
        ensures
            glyph@ == glyph_text(self.is_sort, style),
    {
        match style {
            SelectionStyle::CheckboxCheckedSelected => if self.is_sort {
                "❯"
            } else {
                "✔"
            },
            SelectionStyle::CheckboxCheckedUnselected => "✔",
            SelectionStyle::CheckboxUncheckedSelected => if self.is_sort {
                " "
            } else {
                "✔"
            },
            SelectionStyle::CheckboxUncheckedUnselected => if self.is_sort {
                " "
            } else {
                "✔"
            },
            SelectionStyle::MenuSelected => "❯",
            SelectionStyle::MenuUnselected => " ",
        }
    }
}

/// The glyph in front of a list item: an arrow on the selected menu item and,
/// in an ordering list, on the checked item under the cursor; a check mark on
/// the other checked items and, outside an ordering list, on unchecked ones; a
/// space elsewhere.
pub open spec fn glyph_text(is_sort: bool, style: SelectionStyle) -> Seq<char> {
    match style {
        SelectionStyle::CheckboxCheckedSelected => if is_sort {
            "❯"@
        } else {
            "✔"@
        },
        SelectionStyle::CheckboxCheckedUnselected => "✔"@,
        SelectionStyle::CheckboxUncheckedSelected => if is_sort {
            " "@
        } else {
            "✔"@
        },
        SelectionStyle::CheckboxUncheckedUnselected => if is_sort {
            " "@
        } else {
            "✔"@
        },
        SelectionStyle::MenuSelected => "❯"@,
        SelectionStyle::MenuUnselected => " "@,
    }
}

/// The hint of a confirmation prompt in round brackets, the default answer in
/// upper case; empty where there is no default.
pub open spec fn hint_text(default: Option<bool>) -> Seq<char> {
    match default {
        None => ""@,
        Some(true) => "(Y/n)"@,
        Some(false) => "(y/N)"@,
    }
}

/// The default answer of a confirmation prompt in a word; empty where there
/// is no default.
pub open spec fn default_word(default: Option<bool>) -> Seq<char> {
    match default {
        None => ""@,
        Some(true) => "true"@,
        Some(false) => "false"@,
    }
}

/// The word for a committed yes/no answer.
pub open spec fn answer_word(selection: bool) -> Seq<char> {
    if selection {
        "true"@
    } else {
        "false"@
    }
}

/// What stands in place of a password.
pub open spec fn password_mask() -> Seq<char> {
    "********"@
}

/// The default value of an input prompt in round brackets after a space;
/// empty where there is no default.
pub open spec fn details_text(default: Option<Seq<char>>) -> Seq<char> {
    match default {
        Some(d) => " ("@ + d + ")"@,
        None => Seq::empty(),
    }
}

/// The choices of a key prompt in round brackets.
pub open spec fn bracketed_keys(default: Option<u8>, choices: Seq<char>) -> Seq<char> {
    "("@ + key_choices(default, choices) + ")"@
}

/// A glyph and a text, a space between them.
pub open spec fn marked_text(mark: Seq<char>, text: Seq<char>) -> Seq<char> {
    mark + " "@ + text
}

/// A question header: prefix, prompt and pointer, a space between each two.
pub open spec fn prompt_text(prefix: Seq<char>, prompt: Seq<char>, pointer: Seq<char>) -> Seq<
    char,
> {
    prefix + " "@ + prompt + " "@ + pointer
}

/// An input prompt: prefix, prompt, the details right after the prompt, the
/// pointer, and a space for the cursor to stand after.
pub open spec fn input_text(
    prefix: Seq<char>,
    prompt: Seq<char>,
    details: Seq<char>,
    pointer: Seq<char>,
) -> Seq<char> {
    prefix + " "@ + prompt + details + " "@ + pointer + " "@
}

/// A confirmation prompt: prefix, prompt, hint, pointer and the default in a
/// word, a space after each.
pub open spec fn confirmation_text(
    prefix: Seq<char>,
    prompt: Seq<char>,
    hint: Seq<char>,
    pointer: Seq<char>,
    word: Seq<char>,
) -> Seq<char> {
    prefix + " "@ + prompt + " "@ + hint + " "@ + pointer + " "@ + word + " "@
}

/// A key prompt: prefix, prompt, keys and pointer, a space after each.
pub open spec fn key_text(
    prefix: Seq<char>,
    prompt: Seq<char>,
    keys: Seq<char>,
    pointer: Seq<char>,
) -> Seq<char> {
    prefix + " "@ + prompt + " "@ + keys + " "@ + pointer + " "@
}

/// A committed answer: mark, prompt, separator and value, a space between
/// each two.
pub open spec fn answer_text(
    mark: Seq<char>,
    prompt: Seq<char>,
    separator: Seq<char>,
    value: Seq<char>,
) -> Seq<char> {
    mark + " "@ + prompt + " "@ + separator + " "@ + value
}

/// The values of a multi-selection as they follow its header: a space and
/// the values, separated by a comma and a space; nothing where there is no
/// value.
pub open spec fn values_text(values: Seq<Seq<char>>) -> Seq<char> {
    if values.len() == 0 {
        Seq::empty()
    } else {
        " "@ + join(values, ", "@)
    }
}

/// A committed multi-selection: the header and, after it, the values.
pub open spec fn multi_text(
    mark: Seq<char>,
    prompt: Seq<char>,
    separator: Seq<char>,
    values: Seq<Seq<char>>,
) -> Seq<char> {
    prompt_text(mark, prompt, separator) + values_text(values)
}

/// `out` is an error: a styled cross and the styled message.
pub open spec fn renders_error(message: Seq<char>, out: Seq<char>) -> bool {
    exists|mark: Seq<char>, shown: Seq<char>|
        #![trigger marked_text(mark, shown)]
        styled_as(mark, "✘"@) && styled_as(shown, message) && out == marked_text(mark, shown)
}

/// `out` is a question header: a styled question mark, the styled prompt and
/// a styled pointer.
pub open spec fn renders_prompt(prompt: Seq<char>, out: Seq<char>) -> bool {
    exists|prefix: Seq<char>, shown: Seq<char>, pointer: Seq<char>|
        #![trigger prompt_text(prefix, shown, pointer)]
        styled_as(prefix, "?"@) && styled_as(shown, prompt) && styled_as(pointer, "›"@) && out
            == prompt_text(prefix, shown, pointer)
}

/// `out` is an input prompt: a styled question mark, the styled prompt, the
/// styled default in brackets and a styled pointer.
pub open spec fn renders_singleline_prompt(
    prompt: Seq<char>,
    default: Option<Seq<char>>,
    out: Seq<char>,
) -> bool {
    exists|prefix: Seq<char>, shown: Seq<char>, details: Seq<char>, pointer: Seq<char>|
        #![trigger input_text(prefix, shown, details, pointer)]
        styled_as(prefix, "?"@) && styled_as(shown, prompt) && styled_as(
            details,
            details_text(default),
        ) && styled_as(pointer, "›"@) && out == input_text(prefix, shown, details, pointer)
}

/// `out` is a confirmation prompt: a styled question mark, the styled
/// prompt, the styled hint, a styled pointer and the styled default word.
pub open spec fn renders_confirmation_prompt(
    prompt: Seq<char>,
    default: Option<bool>,
    out: Seq<char>,
) -> bool {
    exists|
        prefix: Seq<char>,
        shown: Seq<char>,
        hint: Seq<char>,
        pointer: Seq<char>,
        word: Seq<char>,
    |
        #![trigger confirmation_text(prefix, shown, hint, pointer, word)]
        styled_as(prefix, "?"@) && styled_as(shown, prompt) && styled_as(hint, hint_text(default))
            && styled_as(pointer, "›"@) && styled_as(word, default_word(default)) && out
            == confirmation_text(prefix, shown, hint, pointer, word)
}

/// `out` is a key prompt: a styled question mark, the styled prompt, the
/// styled choices in brackets and a styled pointer.
pub open spec fn renders_key_prompt(
    prompt: Seq<char>,
    default: Option<u8>,
    choices: Seq<char>,
    out: Seq<char>,
) -> bool {
    exists|prefix: Seq<char>, shown: Seq<char>, keys: Seq<char>, pointer: Seq<char>|
        #![trigger key_text(prefix, shown, keys, pointer)]
        styled_as(prefix, "?"@) && styled_as(shown, prompt) && styled_as(
            keys,
            bracketed_keys(default, choices),
        ) && styled_as(pointer, "›"@) && out == key_text(prefix, shown, keys, pointer)
}

/// `out` is a committed answer: a styled check mark, the styled prompt, a
/// styled dot and the styled `value`.
pub open spec fn renders_answer(prompt: Seq<char>, value: Seq<char>, out: Seq<char>) -> bool {
    exists|mark: Seq<char>, shown: Seq<char>, separator: Seq<char>, answer: Seq<char>|
        #![trigger answer_text(mark, shown, separator, answer)]
        styled_as(mark, "✔"@) && styled_as(shown, prompt) && styled_as(separator, "·"@)
            && styled_as(answer, value) && out == answer_text(mark, shown, separator, answer)
}

/// `values` are what a multi-selection shows of `selections`: each of them
/// in some styling where `inline` is set, nothing where it is not.
pub open spec fn shown_values(
    inline: bool,
    values: Seq<Seq<char>>,
    selections: Seq<Seq<char>>,
) -> bool {
    if inline {
        each_styled_as(values, selections)
    } else {
        values.len() == 0
    }
}

/// `out` is a committed multi-selection: a styled check mark, the styled
/// prompt and a styled dot, followed, where `inline` is set, by the styled
/// values in order, and by nothing where it is not.
pub open spec fn renders_multi_selection(
    inline: bool,
    prompt: Seq<char>,
    selections: Seq<Seq<char>>,
    out: Seq<char>,
) -> bool {
    exists|mark: Seq<char>, shown: Seq<char>, separator: Seq<char>, values: Seq<Seq<char>>|
        #![trigger multi_text(mark, shown, separator, values)]
        styled_as(mark, "✔"@) && styled_as(shown, prompt) && styled_as(separator, "·"@)
            && shown_values(inline, values, selections) && out == multi_text(
            mark,
            shown,
            separator,
            values,
        )
}

/// `out` is one list item: the styled glyph of its state and the styled
/// text.
pub open spec fn renders_selection(
    is_sort: bool,
    text: Seq<char>,
    style: SelectionStyle,
    out: Seq<char>,
) -> bool {
    exists|glyph: Seq<char>, item: Seq<char>|
        #![trigger marked_text(glyph, item)]
        styled_as(glyph, glyph_text(is_sort, style)) && styled_as(item, text) && out
            == marked_text(glyph, item)
}

/// Appends a glyph and a text to `f`.
pub fn format_marked(f: &mut String, mark: &str, text: &str)
    ensures
        final(f)@ == old(f)@ + marked_text(mark@, text@),
{
    f.append(mark);
    f.append(" ");
    f.append(text);
}

/// Appends a question header to `f`.
pub fn format_prompt_line(f: &mut String, prefix: &str, prompt: &str, pointer: &str)
    ensures
        final(f)@ == old(f)@ + prompt_text(prefix@, prompt@, pointer@),
{
    f.append(prefix);
    f.append(" ");
    f.append(prompt);
    f.append(" ");
    f.append(pointer);
}

/// Appends an input prompt to `f`.
pub fn format_input_line(f: &mut String, prefix: &str, prompt: &str, details: &str, pointer: &str)
    ensures
        final(f)@ == old(f)@ + input_text(prefix@, prompt@, details@, pointer@),
{
    f.append(prefix);
    f.append(" ");
    f.append(prompt);
    f.append(details);
    f.append(" ");
    f.append(pointer);
    f.append(" ");
}

/// Appends a confirmation prompt to `f`.
pub fn format_confirmation_line(
    f: &mut String,
    prefix: &str,
    prompt: &str,
    hint: &str,
    pointer: &str,
    word: &str,
)
    ensures
        final(f)@ == old(f)@ + confirmation_text(prefix@, prompt@, hint@, pointer@, word@),
{
    f.append(prefix);
    f.append(" ");
    f.append(prompt);
    f.append(" ");
    f.append(hint);
    f.append(" ");
    f.append(pointer);
    f.append(" ");
    f.append(word);
    f.append(" ");
}

/// Appends a key prompt to `f`.
pub fn format_key_line(f: &mut String, prefix: &str, prompt: &str, keys: &str, pointer: &str)
    ensures
        final(f)@ == old(f)@ + key_text(prefix@, prompt@, keys@, pointer@),
{
    f.append(prefix);
    f.append(" ");
    f.append(prompt);
    f.append(" ");
    f.append(keys);
    f.append(" ");
    f.append(pointer);
    f.append(" ");
}

/// Appends a committed answer to `f`.
pub fn format_answer_line(f: &mut String, mark: &str, prompt: &str, separator: &str, value: &str)
    ensures
        final(f)@ == old(f)@ + answer_text(mark@, prompt@, separator@, value@),
{
    f.append(mark);
    f.append(" ");
    f.append(prompt);
    f.append(" ");
    f.append(separator);
    f.append(" ");
    f.append(value);
}

/// Appends a committed multi-selection to `f`.
pub fn format_multi_line(
    f: &mut String,
    mark: &str,
    prompt: &str,
    separator: &str,
    values: &[&str],
)
    ensures
        final(f)@ == old(f)@ + multi_text(mark@, prompt@, separator@, views(values@)),
{
    format_prompt_line(f, mark, prompt, separator);
    if values.len() != 0 {
        f.append(" ");
        append_comma_separated(f, values);
    }
}

/// The default of an input prompt in round brackets after a space.
pub fn input_details(default: Option<&str>) -> (details: String)
    ensures
        details@ == details_text(option_view(default)),
{
    let mut details = String::new();
    match default {
        Some(d) => {
            details.append(" (");
            details.append(d);
            details.append(")");
        },
        None => {},
    }
    details
}

/// The hint of a confirmation prompt and its default in a word.
pub fn confirmation_details(default: Option<bool>) -> (details: (&'static str, &'static str))
    ensures
        details.0@ == hint_text(default),
        details.1@ == default_word(default),
{
    match default {
        None => ("", ""),
        Some(true) => ("(Y/n)", "true"),
        Some(false) => ("(y/N)", "false"),
    }
}

/// The word for a committed yes/no answer.
pub fn confirmation_answer_word(selection: bool) -> (word: &'static str)
    ensures
        word@ == answer_word(selection),
{
    if selection {
        "true"
    } else {
        "false"
    }
}

/// Puts the choices of a key prompt in round brackets.
pub fn bracketed(keys: &str) -> (out: String)
    ensures
        out@ == "("@ + keys@ + ")"@,
{
    let mut out = String::new();
    out.append("(");
    out.append(keys);
    out.append(")");
    out
}

impl Theme for ColoredTheme {
    open spec fn renders(&self, event: PromptEvent, out: Seq<char>) -> bool {
        match event {
            PromptEvent::Prompt(prompt) => renders_prompt(prompt, out),
            PromptEvent::SinglelinePrompt(prompt, default) => renders_singleline_prompt(
                prompt,
                default,
                out,
            ),
            PromptEvent::Error(message) => renders_error(message, out),
            PromptEvent::ConfirmationPrompt(prompt, default) => renders_confirmation_prompt(
                prompt,
                default,
                out,
            ),
            PromptEvent::KeyPrompt(prompt, default, choices) => renders_key_prompt(
                prompt,
                default,
                choices,
                out,
            ),
            PromptEvent::ConfirmationSelection(prompt, selection) => renders_answer(
                prompt,
                answer_word(selection),
                out,
            ),
            PromptEvent::SingleSelection(prompt, selection) => renders_answer(
                prompt,
                selection,
                out,
            ),
            PromptEvent::MultiSelection(prompt, selections) => renders_multi_selection(
                self.inline_selections,
                prompt,
                selections,
                out,
            ),
            PromptEvent::PasswordSelection(prompt) => renders_answer(prompt, password_mask(), out),
            PromptEvent::Selection(text, style) => renders_selection(
                self.is_sort,
                text,
                style,
                out,
            ),
        }
    }

    open spec fn infallible(&self) -> bool {
        true
    }

    fn format_error(&self, f: &mut String, err: &str) -> (r: Result<(), FormatError>)
    {
        let mark = styled(&self.errors_style, "✘");
        let shown = styled(&self.errors_style, err);
        format_marked(f, mark.as_str(), shown.as_str());
        let ghost out = marked_text(mark@, shown@);
        assert(renders_error(err@, out));
        assert(self.renders(PromptEvent::Error(err@), out));
        Ok(())
    }

    fn format_prompt(&self, f: &mut String, prompt: &str) -> (r: Result<(), FormatError>)
    {
        let prefix = styled(&self.prefixes_style, "?");
        let shown = styled(&self.prompts_style, prompt);
        let pointer = styled(&self.defaults_style, "›");
        format_prompt_line(f, prefix.as_str(), shown.as_str(), pointer.as_str());
        let ghost out = prompt_text(prefix@, shown@, pointer@);
        assert(renders_prompt(prompt@, out));
        assert(self.renders(PromptEvent::Prompt(prompt@), out));
        Ok(())
    }

    fn format_singleline_prompt(
        &self,
        f: &mut String,
        prompt: &str,
        default: Option<&str>,
    ) -> (r: Result<(), FormatError>)
    {
        let details = input_details(default);
        let prefix = styled(&self.prefixes_style, "?");
        let shown = styled(&self.prompts_style, prompt);
        let shown_details = styled(&self.defaults_style, details.as_str());
        let pointer = styled(&self.defaults_style, "›");
        format_input_line(
            f,
            prefix.as_str(),
            shown.as_str(),
            shown_details.as_str(),
            pointer.as_str(),
        );
        let ghost out = input_text(prefix@, shown@, shown_details@, pointer@);
        assert(renders_singleline_prompt(prompt@, option_view(default), out));
        assert(self.renders(PromptEvent::SinglelinePrompt(prompt@, option_view(default)), out));
        Ok(())
    }

    fn format_single_prompt_selection(
        &self,
        f: &mut String,
        prompt: &str,
        sel: &str,
    ) -> (r: Result<(), FormatError>)
    {
        let mark = styled(&self.values_style, "✔");
        let shown = styled(&self.prompts_style, prompt);
        let separator = styled(&self.defaults_style, "·");
        let value = styled(&self.values_style, sel);
        format_answer_line(f, mark.as_str(), shown.as_str(), separator.as_str(), value.as_str());
        let ghost out = answer_text(mark@, shown@, separator@, value@);
        assert(renders_answer(prompt@, sel@, out));
        assert(self.renders(PromptEvent::SingleSelection(prompt@, sel@), out));
        Ok(())
    }

    fn format_confirmation_prompt(
        &self,
        f: &mut String,
        prompt: &str,
        default: Option<bool>,
    ) -> (r: Result<(), FormatError>)
    {
        let details = confirmation_details(default);
        let (hint, word) = match default {
            None => (
                styled(&self.prompts_style, details.0),
                styled(&self.prompts_style, details.1),
            ),
            Some(_) => (
                styled(&self.defaults_style, details.0),
                styled(&self.prefixes_style, details.1),
            ),
        };
        let prefix = styled(&self.prefixes_style, "?");
        let shown = styled(&self.prompts_style, prompt);
        let pointer = styled(&self.defaults_style, "›");
        format_confirmation_line(
            f,
            prefix.as_str(),
            shown.as_str(),
            hint.as_str(),
            pointer.as_str(),
            word.as_str(),
        );
        let ghost out = confirmation_text(prefix@, shown@, hint@, pointer@, word@);
        assert(renders_confirmation_prompt(prompt@, default, out));
        assert(self.renders(PromptEvent::ConfirmationPrompt(prompt@, default), out));
        Ok(())
    }

    fn format_key_prompt(
        &self,
        f: &mut String,
        prompt: &str,
        default: Option<u8>,
        choices: &Vec<char>,
    ) -> (r: Result<(), FormatError>)
    {
        let strs = bracketed(self._format_key_prompt(default, choices).as_str());
        let keys = styled(&self.defaults_style, strs.as_str());
        let prefix = styled(&self.prefixes_style, "?");
        let shown = styled(&self.prompts_style, prompt);
        let pointer = styled(&self.defaults_style, "›");
        format_key_line(f, prefix.as_str(), shown.as_str(), keys.as_str(), pointer.as_str());
        let ghost out = key_text(prefix@, shown@, keys@, pointer@);
        assert(renders_key_prompt(prompt@, default, choices@, out));
        assert(self.renders(PromptEvent::KeyPrompt(prompt@, default, choices@), out));
        Ok(())
    }

    fn format_confirmation_prompt_selection(
        &self,
        f: &mut String,
        prompt: &str,
        selection: bool,
    ) -> (r: Result<(), FormatError>)
    {
        let mark = styled(&self.values_style, "✔");
        let shown = styled(&self.prompts_style, prompt);
        let separator = styled(&self.defaults_style, "·");
        let value = styled(&self.values_style, confirmation_answer_word(selection));
        format_answer_line(f, mark.as_str(), shown.as_str(), separator.as_str(), value.as_str());
        let ghost out = answer_text(mark@, shown@, separator@, value@);
        assert(renders_answer(prompt@, answer_word(selection), out));
        assert(self.renders(PromptEvent::ConfirmationSelection(prompt@, selection), out));
        Ok(())
    }

    fn format_password_prompt_selection(
        &self,
        f: &mut String,
        prompt: &str,
    ) -> (r: Result<(), FormatError>)
    {
        let r = self.format_single_prompt_selection(f, prompt, "********");
        proof {
            let out = choose|out: Seq<char>| #[trigger]
                self.renders(PromptEvent::SingleSelection(prompt@, "********"@), out) && f@
                    == old(f)@ + out;
            assert(self.renders(PromptEvent::PasswordSelection(prompt@), out));
        }
        r
    }

    fn format_selection(
        &self,
        f: &mut String,
        text: &str,
        style: SelectionStyle,
    ) -> (r: Result<(), FormatError>)
    {
        let glyph_word = self.selection_glyph(style);
        let glyph = match style {
            SelectionStyle::CheckboxCheckedSelected => styled(&self.values_style, glyph_word),
            SelectionStyle::CheckboxCheckedUnselected => styled(&self.values_style, glyph_word),
            SelectionStyle::MenuSelected => styled(&self.values_style, glyph_word),
            _ => styled(&self.defaults_style, glyph_word),
        };
        let item = match style {
            SelectionStyle::CheckboxCheckedSelected => styled(&self.selected_style, text),
            SelectionStyle::CheckboxUncheckedSelected => styled(&self.selected_style, text),
            SelectionStyle::MenuSelected => styled(&self.selected_style, text),
            _ => styled(&self.unselected_style, text),
        };
        format_marked(f, glyph.as_str(), item.as_str());
        let ghost out = marked_text(glyph@, item@);
        assert(renders_selection(self.is_sort, text@, style, out));
        assert(self.renders(PromptEvent::Selection(text@, style), out));
        Ok(())
    }

    fn format_multi_prompt_selection(
        &self,
        f: &mut String,
        prompt: &str,
        selections: &[&str],
    ) -> (r: Result<(), FormatError>)
    {
        let mark = styled(&self.values_style, "✔");
        let shown = styled(&self.prompts_style, prompt);
        let separator = styled(&self.defaults_style, "·");
        let values = if self.inline_selections {
            styled_all(&self.values_style, selections)
        } else {
            Vec::new()
        };
        let refs = borrow_all(&values);
        format_multi_line(f, mark.as_str(), shown.as_str(), separator.as_str(), refs.as_slice());
        let ghost out = multi_text(mark@, shown@, separator@, string_views(values@));
        assert(renders_multi_selection(
            self.inline_selections,
            prompt@,
            views(selections@),
            out,
        ));
        assert(self.renders(PromptEvent::MultiSelection(prompt@, views(selections@)), out));
        Ok(())
    }
}

/// Without styling the colored theme words an event by its glyphs and texts
/// alone: that wording is one of the wordings that the theme gives the
/// event.
pub proof fn lemma_unstyled_wording_is_colored(theme: ColoredTheme, event: PromptEvent)
    ensures
        theme.renders(event, theme.unstyled_text(event)),
{
    let out = theme.unstyled_text(event);
    lemma_plain_is_styled("?"@);
    lemma_plain_is_styled("›"@);
    lemma_plain_is_styled("✔"@);
    lemma_plain_is_styled("·"@);
    lemma_plain_is_styled("✘"@);
    match event {
        PromptEvent::Prompt(prompt) => {
            lemma_plain_is_styled(prompt);
            assert(out == prompt_text("?"@, prompt, "›"@));
        },
        PromptEvent::SinglelinePrompt(prompt, default) => {
            lemma_plain_is_styled(prompt);
            lemma_plain_is_styled(details_text(default));
            assert(out == input_text("?"@, prompt, details_text(default), "›"@));
        },
        PromptEvent::Error(message) => {
            lemma_plain_is_styled(message);
            assert(out == marked_text("✘"@, message));
        },
        PromptEvent::ConfirmationPrompt(prompt, default) => {
            lemma_plain_is_styled(prompt);
            lemma_plain_is_styled(hint_text(default));
            lemma_plain_is_styled(default_word(default));
            assert(out == confirmation_text(
                "?"@,
                prompt,
                hint_text(default),
                "›"@,
                default_word(default),
            ));
        },
        PromptEvent::KeyPrompt(prompt, default, choices) => {
            lemma_plain_is_styled(prompt);
            lemma_plain_is_styled(bracketed_keys(default, choices));
            assert(out == key_text("?"@, prompt, bracketed_keys(default, choices), "›"@));
        },
        PromptEvent::ConfirmationSelection(prompt, selection) => {
            lemma_plain_is_styled(prompt);
            lemma_plain_is_styled(answer_word(selection));
            assert(out == answer_text("✔"@, prompt, "·"@, answer_word(selection)));
        },
        PromptEvent::SingleSelection(prompt, selection) => {
            lemma_plain_is_styled(prompt);
            lemma_plain_is_styled(selection);
            assert(out == answer_text("✔"@, prompt, "·"@, selection));
        },
        PromptEvent::MultiSelection(prompt, selections) => {
            lemma_plain_is_styled(prompt);
            lemma_plain_are_styled(selections);
            let values = if theme.inline_selections {
                selections
            } else {
                Seq::empty()
            };
            assert(out == multi_text("✔"@, prompt, "·"@, values));
        },
        PromptEvent::PasswordSelection(prompt) => {
            lemma_plain_is_styled(prompt);
            lemma_plain_is_styled(password_mask());
            assert(out == answer_text("✔"@, prompt, "·"@, password_mask()));
        },
        PromptEvent::Selection(text, style) => {
            lemma_plain_is_styled(glyph_text(theme.is_sort, style));
            lemma_plain_is_styled(text);
            assert(out == marked_text(glyph_text(theme.is_sort, style), text));
        },
    }
}

/// Styling adds no line: whatever wording the colored theme gives an event,
/// it has the line feeds of the unstyled wording.
pub proof fn lemma_colored_line_breaks(theme: ColoredTheme, event: PromptEvent, out: Seq<char>)
    requires
        theme.renders(event, out),
    ensures
        line_breaks(out) == line_breaks(theme.unstyled_text(event)),
{
    broadcast use lemma_line_breaks_concat;

    match event {
        PromptEvent::Prompt(prompt) => {
            let (prefix, shown, pointer) = choose|
                prefix: Seq<char>,
                shown: Seq<char>,
                pointer: Seq<char>,
            |
                #![trigger prompt_text(prefix, shown, pointer)]
                styled_as(prefix, "?"@) && styled_as(shown, prompt) && styled_as(pointer, "›"@)
                    && out == prompt_text(prefix, shown, pointer);
            lemma_styled_line_breaks(prefix, "?"@);
            lemma_styled_line_breaks(shown, prompt);
            lemma_styled_line_breaks(pointer, "›"@);
        },
        PromptEvent::SinglelinePrompt(prompt, default) => {
            let (prefix, shown, details, pointer) = choose|
                prefix: Seq<char>,
                shown: Seq<char>,
                details: Seq<char>,
                pointer: Seq<char>,
            |
                #![trigger input_text(prefix, shown, details, pointer)]
                styled_as(prefix, "?"@) && styled_as(shown, prompt) && styled_as(
                    details,
                    details_text(default),
                ) && styled_as(pointer, "›"@) && out == input_text(
                    prefix,
                    shown,
                    details,
                    pointer,
                );
            lemma_styled_line_breaks(prefix, "?"@);
            lemma_styled_line_breaks(shown, prompt);
            lemma_styled_line_breaks(details, details_text(default));
            lemma_styled_line_breaks(pointer, "›"@);
        },
        PromptEvent::Error(message) => {
            let (mark, shown) = choose|mark: Seq<char>, shown: Seq<char>|
                #![trigger marked_text(mark, shown)]
                styled_as(mark, "✘"@) && styled_as(shown, message) && out == marked_text(
                    mark,
                    shown,
                );
            lemma_styled_line_breaks(mark, "✘"@);
            lemma_styled_line_breaks(shown, message);
        },
        PromptEvent::ConfirmationPrompt(prompt, default) => {
            let (prefix, shown, hint, pointer, word) = choose|
                prefix: Seq<char>,
                shown: Seq<char>,
                hint: Seq<char>,
                pointer: Seq<char>,
                word: Seq<char>,
            |
                #![trigger confirmation_text(prefix, shown, hint, pointer, word)]
                styled_as(prefix, "?"@) && styled_as(shown, prompt) && styled_as(
                    hint,
                    hint_text(default),
                ) && styled_as(pointer, "›"@) && styled_as(word, default_word(default)) && out
                    == confirmation_text(prefix, shown, hint, pointer, word);
            lemma_styled_line_breaks(prefix, "?"@);
            lemma_styled_line_breaks(shown, prompt);
            lemma_styled_line_breaks(hint, hint_text(default));
            lemma_styled_line_breaks(pointer, "›"@);
            lemma_styled_line_breaks(word, default_word(default));
        },
        PromptEvent::KeyPrompt(prompt, default, choices) => {
            let (prefix, shown, keys, pointer) = choose|
                prefix: Seq<char>,
                shown: Seq<char>,
                keys: Seq<char>,
                pointer: Seq<char>,
            |
                #![trigger key_text(prefix, shown, keys, pointer)]
                styled_as(prefix, "?"@) && styled_as(shown, prompt) && styled_as(
                    keys,
                    bracketed_keys(default, choices),
                ) && styled_as(pointer, "›"@) && out == key_text(prefix, shown, keys, pointer);
            lemma_styled_line_breaks(prefix, "?"@);
            lemma_styled_line_breaks(shown, prompt);
            lemma_styled_line_breaks(keys, bracketed_keys(default, choices));
            lemma_styled_line_breaks(pointer, "›"@);
        },
        PromptEvent::ConfirmationSelection(prompt, selection) => {
            lemma_answer_line_breaks(prompt, answer_word(selection), out);
        },
        PromptEvent::SingleSelection(prompt, selection) => {
            lemma_answer_line_breaks(prompt, selection, out);
        },
        PromptEvent::MultiSelection(prompt, selections) => {
            let inline = theme.inline_selections;
            let (mark, shown, separator, values) = choose|
                mark: Seq<char>,
                shown: Seq<char>,
                separator: Seq<char>,
                values: Seq<Seq<char>>,
            |
                #![trigger multi_text(mark, shown, separator, values)]
                styled_as(mark, "✔"@) && styled_as(shown, prompt) && styled_as(separator, "·"@)
                    && shown_values(inline, values, selections) && out == multi_text(
                    mark,
                    shown,
                    separator,
                    values,
                );
            lemma_styled_line_breaks(mark, "✔"@);
            lemma_styled_line_breaks(shown, prompt);
            lemma_styled_line_breaks(separator, "·"@);
            if inline {
                lemma_each_styled_line_breaks(values, selections);
                lemma_join_line_breaks(values, selections, ", "@);
            } else {
                assert(values =~= Seq::<Seq<char>>::empty());
            }
        },
        PromptEvent::PasswordSelection(prompt) => {
            lemma_answer_line_breaks(prompt, password_mask(), out);
        },
        PromptEvent::Selection(text, style) => {
            let glyph_word = glyph_text(theme.is_sort, style);
            let (glyph, item) = choose|glyph: Seq<char>, item: Seq<char>|
                #![trigger marked_text(glyph, item)]
                styled_as(glyph, glyph_word) && styled_as(item, text) && out == marked_text(
                    glyph,
                    item,
                );
            lemma_styled_line_breaks(glyph, glyph_word);
            lemma_styled_line_breaks(item, text);
        },
    }
}

/// A styled answer has the line feeds of the unstyled one.
proof fn lemma_answer_line_breaks(prompt: Seq<char>, value: Seq<char>, out: Seq<char>)
    requires
        renders_answer(prompt, value, out),
    ensures
        line_breaks(out) == line_breaks(answer_text("✔"@, prompt, "·"@, value)),
{
    broadcast use lemma_line_breaks_concat;

    let (mark, shown, separator, answer) = choose|
        mark: Seq<char>,
        shown: Seq<char>,
        separator: Seq<char>,
        answer: Seq<char>,
    |
        #![trigger answer_text(mark, shown, separator, answer)]
        styled_as(mark, "✔"@) && styled_as(shown, prompt) && styled_as(separator, "·"@)
            && styled_as(answer, value) && out == answer_text(mark, shown, separator, answer);
    lemma_styled_line_breaks(mark, "✔"@);
    lemma_styled_line_breaks(shown, prompt);
    lemma_styled_line_breaks(separator, "·"@);
    lemma_styled_line_breaks(answer, value);
}

/// Where values are not shown on the prompt line, the wording of a
/// multi-selection does not depend on the values: whatever was selected, the
/// header stands alone.
pub proof fn lemma_hidden_selections(
    theme: ColoredTheme,
    prompt: Seq<char>,
    first: Seq<Seq<char>>,
    second: Seq<Seq<char>>,
    out: Seq<char>,
)
    requires
        !theme.inline_selections,
    ensures
        theme.renders(PromptEvent::MultiSelection(prompt, first), out) == theme.renders(
            PromptEvent::MultiSelection(prompt, second),
            out,
        ),
        theme.unstyled_text(PromptEvent::MultiSelection(prompt, first)) == prompt_text(
            "✔"@,
            prompt,
            "·"@,
        ),
{
    assert(prompt_text("✔"@, prompt, "·"@) + Seq::<char>::empty() == prompt_text(
        "✔"@,
        prompt,
        "·"@,
    ));
}

/// Where values are shown on the prompt line, they follow the header in the
/// order of selection, a comma and a space between each two.
pub proof fn lemma_inline_selections(
    theme: ColoredTheme,
    prompt: Seq<char>,
    selections: Seq<Seq<char>>,
)
    requires
        theme.inline_selections,
        selections.len() > 0,
    ensures
        theme.unstyled_text(PromptEvent::MultiSelection(prompt, selections)) == prompt_text(
            "✔"@,
            prompt,
            "·"@,
        ) + " "@ + join(selections, ", "@),
{
}

/// A committed password is worded as the committed single value `********`:
/// eight characters whatever the password was, which no theme method is
/// given.
pub proof fn lemma_password_is_masked(theme: ColoredTheme, prompt: Seq<char>, out: Seq<char>)
    ensures
        theme.renders(PromptEvent::PasswordSelection(prompt), out) == theme.renders(
            PromptEvent::SingleSelection(prompt, password_mask()),
            out,
        ),
        password_mask().len() == 8,
{
    reveal_strlit("********");
}

/// The three defaults of a confirmation prompt carry three different hints.
pub proof fn lemma_hint_tells_default(first: Option<bool>, second: Option<bool>)
    requires
        hint_text(first) == hint_text(second),
    ensures
        first == second,
{
    reveal_strlit("");
    reveal_strlit("(Y/n)");
    reveal_strlit("(y/N)");
    if first is Some {
        assert(hint_text(first).len() == 5);
        assert(hint_text(first)[1] == if first->0 { 'Y' } else { 'y' });
    }
    if second is Some {
        assert(hint_text(second).len() == 5);
        assert(hint_text(second)[1] == if second->0 { 'Y' } else { 'y' });
    }
}

} // verus!
