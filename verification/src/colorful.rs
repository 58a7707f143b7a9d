//! A theme that colours defaults, errors, indicators and values.

use console::Style;
use vstd::prelude::*;
use crate::plain;
use crate::plain::SelectionStyle;
use crate::style::{
    each_styled_as, lemma_each_styled_line_breaks, lemma_plain_are_styled, lemma_plain_is_styled,
    lemma_styled_line_breaks, styled, styled_all, styled_as,
};
use crate::text::{
    borrow_all, lemma_join_line_breaks, lemma_line_breaks_concat, lemma_line_breaks_push,
    line_breaks, option_view, string_views, views,
};
use crate::theme::{plain_text, FormatError, PromptEvent, Theme};

verus! {

/// A colorful theme.
pub struct ColorfulTheme {
    /// The style for default values in prompts and similar.
    pub defaults_style: Style,
    /// The style for errors indicators.
    pub error_style: Style,
    /// The style for user interface indicators.
    pub indicator_style: Style,
    /// The style for inactive elements.
    pub inactive_style: Style,
    /// The style for active elements.
    pub active_style: Style,
    /// The style for values indicating "yes".
    pub yes_style: Style,
    /// The style for values indicating "no".
    pub no_style: Style,
    /// The style for values embedded in prompts.
    pub values_style: Style,
}

impl Default for ColorfulTheme {
    /// Dim defaults and inactive elements, a red error label, cyan bold
    /// indicators, unstyled active elements, green answers, cyan values.
    fn default() -> ColorfulTheme {
        ColorfulTheme {
            defaults_style: Style::new().dim(),
            error_style: Style::new().red(),
            indicator_style: Style::new().cyan().bold(),
            inactive_style: Style::new().dim(),
            active_style: Style::new(),
            yes_style: Style::new().green(),
            no_style: Style::new().green(),
            values_style: Style::new().cyan(),
        }
    }
}

/// An error banner under a label.
pub open spec fn error_text(label: Seq<char>, message: Seq<char>) -> Seq<char> {
    label + ": "@ + message
}

/// One list item. `cursor` stands in front of a selected item, `check` in
/// the box of a checked one, and `item` is the item's text; a part that the
/// state of the item does not call for is left out.
pub open spec fn selection_text(
    style: SelectionStyle,
    cursor: Seq<char>,
    check: Seq<char>,
    item: Seq<char>,
) -> Seq<char> {
    match style {
        SelectionStyle::CheckboxUncheckedSelected => cursor + " [ ] "@ + item,
        SelectionStyle::CheckboxUncheckedUnselected => "  [ ] "@ + item,
        SelectionStyle::CheckboxCheckedSelected => cursor + " ["@ + check + "] "@ + item,
        SelectionStyle::CheckboxCheckedUnselected => "  ["@ + check + "] "@ + item,
        SelectionStyle::MenuSelected => cursor + " "@ + item,
        SelectionStyle::MenuUnselected => "  "@ + item,
    }
}

/// `out` is a single-line input prompt whose default value, where there is
/// one, is styled.
pub open spec fn renders_singleline_prompt(
    prompt: Seq<char>,
    default: Option<Seq<char>>,
    out: Seq<char>,
) -> bool {
    match default {
        Some(d) => exists|shown: Seq<char>|
            #![trigger plain::singleline_prompt_text(prompt, Some(shown), ':')]
            styled_as(shown, d) && out == plain::singleline_prompt_text(prompt, Some(shown), ':'),
        None => out == plain::singleline_prompt_text(prompt, None, ':'),
    }
}

/// `out` is an error banner under a styled `error` label.
pub open spec fn renders_error(message: Seq<char>, out: Seq<char>) -> bool {
    exists|label: Seq<char>|
        #![trigger error_text(label, message)]
        styled_as(label, "error"@) && out == error_text(label, message)
}

/// `out` is a confirmation prompt whose hint, where there is a default, is
/// styled.
pub open spec fn renders_confirmation_prompt(
    prompt: Seq<char>,
    default: Option<bool>,
    out: Seq<char>,
) -> bool {
    match default {
        Some(d) => exists|hint: Seq<char>|
            #![trigger plain::hinted_prompt_text(prompt, Some(hint))]
            styled_as(hint, plain::confirmation_hint(d)) && out == plain::hinted_prompt_text(
                prompt,
                Some(hint),
            ),
        None => out == prompt,
    }
}

/// `out` is a prompt followed by `answer` in some styling.
pub open spec fn renders_answer(prompt: Seq<char>, answer: Seq<char>, out: Seq<char>) -> bool {
    exists|shown: Seq<char>|
        #![trigger plain::answered_text(prompt, shown)]
        styled_as(shown, answer) && out == plain::answered_text(prompt, shown)
}

/// `out` is a prompt followed by `selection` in some styling.
pub open spec fn renders_single_selection(
    prompt: Seq<char>,
    selection: Seq<char>,
    out: Seq<char>,
) -> bool {
    exists|shown: Seq<char>|
        #![trigger plain::single_selection_text(prompt, shown, ':')]
        styled_as(shown, selection) && out == plain::single_selection_text(prompt, shown, ':')
}

/// `out` is a prompt followed by the selections, each in some styling, in
/// order and separated by a comma and a space.
pub open spec fn renders_multi_selection(
    prompt: Seq<char>,
    selections: Seq<Seq<char>>,
    out: Seq<char>,
) -> bool {
    exists|shown: Seq<Seq<char>>|
        #![trigger plain::multi_selection_text(prompt, shown, ':')]
        each_styled_as(shown, selections) && out == plain::multi_selection_text(prompt, shown, ':')
}

/// `out` is one list item: a styled `>` where the item is selected, a styled
/// `x` where it is checked, and the styled text.
pub open spec fn renders_selection(text: Seq<char>, style: SelectionStyle, out: Seq<char>) -> bool {
    exists|cursor: Seq<char>, check: Seq<char>, item: Seq<char>|
        #![trigger selection_text(style, cursor, check, item)]
        (style.is_selected() ==> styled_as(cursor, ">"@)) && (style.is_checked() ==> styled_as(
            check,
            "x"@,
        )) && styled_as(item, text) && out == selection_text(style, cursor, check, item)
}

/// Appends an error banner under `label` to `f`.
pub fn format_error_line(f: &mut String, label: &str, err: &str)
    ensures
        final(f)@ == old(f)@ + error_text(label@, err@),
{
    f.append(label);
    f.append(": ");
    f.append(err);
}

/// Appends one list item to `f`. `cursor`, `check` and `item` are the parts
/// as they are to show; a part that `style` does not call for is not read.
pub fn format_selection_line(
    f: &mut String,
    style: SelectionStyle,
    cursor: &str,
    check: &str,
    item: &str,
)
    ensures
        final(f)@ == old(f)@ + selection_text(style, cursor@, check@, item@),
{
    match style {
        SelectionStyle::CheckboxUncheckedSelected => {
            f.append(cursor);
            f.append(" [ ] ");
        },
        SelectionStyle::CheckboxUncheckedUnselected => {
            f.append("  [ ] ");
        },
        SelectionStyle::CheckboxCheckedSelected => {
            f.append(cursor);
            f.append(" [");
            f.append(check);
            f.append("] ");
        },
        SelectionStyle::CheckboxCheckedUnselected => {
            f.append("  [");
            f.append(check);
            f.append("] ");
        },
        SelectionStyle::MenuSelected => {
            f.append(cursor);
            f.append(" ");
        },
        SelectionStyle::MenuUnselected => {
            f.append("  ");
        },
    }
    f.append(item);
}

/// Whether the cursor stands on an item of this state.
pub fn is_selected(style: SelectionStyle) -> (b: bool)
    ensures
        b == style.is_selected(),
{
    match style {
        SelectionStyle::CheckboxUncheckedSelected => true,
        SelectionStyle::CheckboxCheckedSelected => true,
        SelectionStyle::MenuSelected => true,
        _ => false,
    }
}

/// Whether an item of this state is a checkbox with its mark set.
pub fn is_checked(style: SelectionStyle) -> (b: bool)
    ensures
        b == style.is_checked(),
{
    match style {
        SelectionStyle::CheckboxCheckedSelected => true,
        SelectionStyle::CheckboxCheckedUnselected => true,
        _ => false,
    }
}

impl Theme for ColorfulTheme {
    open spec fn renders(&self, event: PromptEvent, out: Seq<char>) -> bool {
        match event {
            PromptEvent::Prompt(prompt) => out == plain::prompt_text(prompt, ':'),
            PromptEvent::SinglelinePrompt(prompt, default) => renders_singleline_prompt(
                prompt,
                default,
                out,
            ),
            PromptEvent::Error(message) => renders_error(message, out),
            PromptEvent::ConfirmationPrompt(prompt, default) => renders_confirmation_prompt(
                prompt,
                default,
                out,
            ),
            PromptEvent::KeyPrompt(prompt, default, choices) => out == plain::key_prompt_text(
                prompt,
                default,
                choices,
            ),
            PromptEvent::ConfirmationSelection(prompt, selection) => renders_answer(
                prompt,
                plain::answer_word(selection),
                out,
            ),
            PromptEvent::SingleSelection(prompt, selection) => renders_single_selection(
                prompt,
                selection,
                out,
            ),
            PromptEvent::MultiSelection(prompt, selections) => renders_multi_selection(
                prompt,
                selections,
                out,
            ),
            PromptEvent::PasswordSelection(prompt) => renders_single_selection(
                prompt,
                plain::hidden_mask(),
                out,
            ),
            PromptEvent::Selection(text, style) => renders_selection(text, style, out),
        }
    }

    open spec fn infallible(&self) -> bool {
        true
    }

    fn format_prompt(&self, f: &mut String, prompt: &str) -> (r: Result<(), FormatError>)
        ensures
            final(f)@ == old(f)@ + plain::prompt_text(prompt@, ':'),
    {
        plain::format_prompt(f, prompt, ':');
        assert(self.renders(PromptEvent::Prompt(prompt@), plain::prompt_text(prompt@, ':')));
        Ok(())
    }

    fn format_singleline_prompt(
        &self,
        f: &mut String,
        prompt: &str,
        default: Option<&str>,
    ) -> (r: Result<(), FormatError>)
    {
        match default {
            Some(d) => {
                let shown = styled(&self.defaults_style, d);
                plain::format_singleline_prompt(f, prompt, Some(shown.as_str()), ':');
                let ghost out = plain::singleline_prompt_text(prompt@, Some(shown@), ':');
                assert(renders_singleline_prompt(prompt@, Some(d@), out));
                assert(self.renders(
                    PromptEvent::SinglelinePrompt(prompt@, option_view(default)),
                    out,
                ));
            },
            None => {
                plain::format_singleline_prompt(f, prompt, None, ':');
                assert(self.renders(
                    PromptEvent::SinglelinePrompt(prompt@, option_view(default)),
                    plain::singleline_prompt_text(prompt@, None, ':'),
                ));
            },
        }
        Ok(())
    }

    fn format_error(&self, f: &mut String, err: &str) -> (r: Result<(), FormatError>)
    {
        let label = styled(&self.error_style, "error");
        format_error_line(f, label.as_str(), err);
        let ghost out = error_text(label@, err@);
        assert(renders_error(err@, out));
        assert(self.renders(PromptEvent::Error(err@), out));
        Ok(())
    }

    fn format_confirmation_prompt(
        &self,
        f: &mut String,
        prompt: &str,
        default: Option<bool>,
    ) -> (r: Result<(), FormatError>)
    {
        match default {
            Some(d) => {
                let hint = styled(&self.defaults_style, plain::confirmation_hint_word(d));
                plain::format_hinted_prompt(f, prompt, Some(hint.as_str()));
                let ghost out = plain::hinted_prompt_text(prompt@, Some(hint@));
                assert(renders_confirmation_prompt(prompt@, default, out));
                assert(self.renders(PromptEvent::ConfirmationPrompt(prompt@, default), out));
            },
            None => {
                plain::format_hinted_prompt(f, prompt, None);
                assert(self.renders(PromptEvent::ConfirmationPrompt(prompt@, default), prompt@));
            },
        }
        Ok(())
    }

    fn format_key_prompt(
        &self,
        f: &mut String,
        prompt: &str,
        default: Option<u8>,
        choices: &Vec<char>,
    ) -> (r: Result<(), FormatError>)
        ensures
            final(f)@ == old(f)@ + plain::key_prompt_text(prompt@, default, choices@),
    {
        plain::format_key_prompt(f, prompt, default, choices);
        assert(self.renders(
            PromptEvent::KeyPrompt(prompt@, default, choices@),
            plain::key_prompt_text(prompt@, default, choices@),
        ));
        Ok(())
    }

    fn format_confirmation_prompt_selection(
        &self,
        f: &mut String,
        prompt: &str,
        selection: bool,
    ) -> (r: Result<(), FormatError>)
    {
        let word = plain::confirmation_answer_word(selection);
        let shown = if selection {
            styled(&self.yes_style, word)
        } else {
            styled(&self.no_style, word)
        };
        plain::format_answer(f, prompt, shown.as_str());
        let ghost out = plain::answered_text(prompt@, shown@);
        assert(renders_answer(prompt@, plain::answer_word(selection), out));
        assert(self.renders(PromptEvent::ConfirmationSelection(prompt@, selection), out));
        Ok(())
    }

    fn format_single_prompt_selection(
        &self,
        f: &mut String,
        prompt: &str,
        sel: &str,
    ) -> (r: Result<(), FormatError>)
    {
        let shown = styled(&self.values_style, sel);
        plain::format_single_prompt_selection(f, prompt, shown.as_str(), ':');
        let ghost out = plain::single_selection_text(prompt@, shown@, ':');
        assert(renders_single_selection(prompt@, sel@, out));
        assert(self.renders(PromptEvent::SingleSelection(prompt@, sel@), out));
        Ok(())
    }

    fn format_multi_prompt_selection(
        &self,
        f: &mut String,
        prompt: &str,
        selections: &[&str],
    ) -> (r: Result<(), FormatError>)
    {
        let shown = styled_all(&self.values_style, selections);
        let refs = borrow_all(&shown);
        plain::format_multi_prompt_selection(f, prompt, refs.as_slice(), ':');
        let ghost out = plain::multi_selection_text(prompt@, string_views(shown@), ':');
        assert(renders_multi_selection(prompt@, views(selections@), out));
        assert(self.renders(PromptEvent::MultiSelection(prompt@, views(selections@)), out));
        Ok(())
    }

    fn format_password_prompt_selection(
        &self,
        f: &mut String,
        prompt: &str,
    ) -> (r: Result<(), FormatError>)
    {
        let r = self.format_single_prompt_selection(f, prompt, "[hidden]");
        proof {
            let out = choose|out: Seq<char>| #[trigger]
                self.renders(PromptEvent::SingleSelection(prompt@, "[hidden]"@), out) && f@
                    == old(f)@ + out;
            assert(self.renders(PromptEvent::PasswordSelection(prompt@), out));
        }
        r
    }

    fn format_selection(
        &self,
        f: &mut String,
        text: &str,
        style: SelectionStyle,
    ) -> (r: Result<(), FormatError>)
    {
        let cursor = if is_selected(style) {
            styled(&self.indicator_style, ">")
        } else {
            String::new()
        };
        let check = if is_checked(style) {
            styled(&self.indicator_style, "x")
        } else {
            String::new()
        };
        let item = if is_selected(style) {
            styled(&self.active_style, text)
        } else {
            styled(&self.inactive_style, text)
        };
        format_selection_line(f, style, cursor.as_str(), check.as_str(), item.as_str());
        let ghost out = selection_text(style, cursor@, check@, item@);
        assert(renders_selection(text@, style, out));
        assert(self.renders(PromptEvent::Selection(text@, style), out));
        Ok(())
    }
}

/// Without styling the colorful theme reads as the simple theme: the plain
/// wording of an event is one of the wordings that the colorful theme gives
/// it.
pub proof fn lemma_plain_wording_is_colorful(theme: ColorfulTheme, event: PromptEvent)
    ensures
        theme.renders(event, plain_text(event, ':')),
{
    let out = plain_text(event, ':');
    match event {
        PromptEvent::SinglelinePrompt(prompt, default) => {
            if let Some(d) = default {
                lemma_plain_is_styled(d);
                assert(out == plain::singleline_prompt_text(prompt, Some(d), ':'));
            }
        },
        PromptEvent::Error(message) => {
            lemma_plain_is_styled("error"@);
            lemma_error_label();
            assert(out == error_text("error"@, message));
        },
        PromptEvent::ConfirmationPrompt(prompt, default) => {
            if let Some(d) = default {
                lemma_plain_is_styled(plain::confirmation_hint(d));
                assert(out == plain::hinted_prompt_text(prompt, Some(plain::confirmation_hint(d))));
            }
        },
        PromptEvent::ConfirmationSelection(prompt, selection) => {
            lemma_plain_is_styled(plain::answer_word(selection));
            assert(out == plain::answered_text(prompt, plain::answer_word(selection)));
        },
        PromptEvent::SingleSelection(prompt, selection) => {
            lemma_plain_is_styled(selection);
            assert(out == plain::single_selection_text(prompt, selection, ':'));
        },
        PromptEvent::MultiSelection(prompt, selections) => {
            lemma_plain_are_styled(selections);
            assert(out == plain::multi_selection_text(prompt, selections, ':'));
        },
        PromptEvent::PasswordSelection(prompt) => {
            lemma_plain_is_styled(plain::hidden_mask());
            assert(out == plain::single_selection_text(prompt, plain::hidden_mask(), ':'));
        },
        PromptEvent::Selection(text, style) => {
            lemma_plain_is_styled(">"@);
            lemma_plain_is_styled("x"@);
            lemma_plain_is_styled(text);
            lemma_selection_marker(style);
            assert(out == selection_text(style, ">"@, "x"@, text));
        },
        _ => {},
    }
}

/// Styling adds no line: whatever wording the colorful theme gives an event,
/// it has the line feeds of the plain wording.
pub proof fn lemma_colorful_line_breaks(theme: ColorfulTheme, event: PromptEvent, out: Seq<char>)
    requires
        theme.renders(event, out),
    ensures
        line_breaks(out) == line_breaks(plain_text(event, ':')),
{
    broadcast use {lemma_line_breaks_concat, lemma_line_breaks_push};

    match event {
        PromptEvent::SinglelinePrompt(prompt, default) => {
            if let Some(d) = default {
                let shown = choose|shown: Seq<char>|
                    #![trigger plain::singleline_prompt_text(prompt, Some(shown), ':')]
                    styled_as(shown, d) && out == plain::singleline_prompt_text(
                        prompt,
                        Some(shown),
                        ':',
                    );
                lemma_styled_line_breaks(shown, d);
                assert(out == prompt + " ["@ + shown + "]"@ + seq![':', ' ']);
                assert(plain_text(event, ':') == prompt + " ["@ + d + "]"@ + seq![':', ' ']);
                } else {
                assert(out == plain_text(event, ':'));
            }
        },
        PromptEvent::Error(message) => {
            let label = choose|label: Seq<char>|
                #![trigger error_text(label, message)]
                styled_as(label, "error"@) && out == error_text(label, message);
            lemma_styled_line_breaks(label, "error"@);
            lemma_error_label();
        },
        PromptEvent::ConfirmationPrompt(prompt, default) => {
            if let Some(d) = default {
                let hint = choose|hint: Seq<char>|
                    #![trigger plain::hinted_prompt_text(prompt, Some(hint))]
                    styled_as(hint, plain::confirmation_hint(d)) && out
                        == plain::hinted_prompt_text(prompt, Some(hint));
                lemma_styled_line_breaks(hint, plain::confirmation_hint(d));
            }
        },
        PromptEvent::ConfirmationSelection(prompt, selection) => {
            let answer = plain::answer_word(selection);
            let shown = choose|shown: Seq<char>|
                #![trigger plain::answered_text(prompt, shown)]
                styled_as(shown, answer) && out == plain::answered_text(prompt, shown);
            lemma_styled_line_breaks(shown, answer);
        },
        PromptEvent::SingleSelection(prompt, selection) => {
            lemma_single_selection_line_breaks(prompt, selection, out);
        },
        PromptEvent::MultiSelection(prompt, selections) => {
            let shown = choose|shown: Seq<Seq<char>>|
                #![trigger plain::multi_selection_text(prompt, shown, ':')]
                each_styled_as(shown, selections) && out == plain::multi_selection_text(
                    prompt,
                    shown,
                    ':',
                );
            lemma_each_styled_line_breaks(shown, selections);
            lemma_join_line_breaks(shown, selections, ", "@);
        },
        PromptEvent::PasswordSelection(prompt) => {
            lemma_single_selection_line_breaks(prompt, plain::hidden_mask(), out);
        },
        PromptEvent::Selection(text, style) => {
            let (cursor, check, item) = choose|cursor: Seq<char>, check: Seq<char>, item: Seq<char>|
                #![trigger selection_text(style, cursor, check, item)]
                (style.is_selected() ==> styled_as(cursor, ">"@)) && (style.is_checked()
                    ==> styled_as(check, "x"@)) && styled_as(item, text) && out == selection_text(
                    style,
                    cursor,
                    check,
                    item,
                );
            if style.is_selected() {
                lemma_styled_line_breaks(cursor, ">"@);
            }
            if style.is_checked() {
                lemma_styled_line_breaks(check, "x"@);
            }
            lemma_styled_line_breaks(item, text);
            lemma_selection_marker(style);
            assert(selection_text(style, ">"@, "x"@, text) == plain::selection_text(text, style));
            assert(line_breaks(out) == line_breaks(selection_text(style, ">"@, "x"@, text)));
        },
        _ => {},
    }
}

/// A styled single selection has the line feeds of the plain one.
proof fn lemma_single_selection_line_breaks(
    prompt: Seq<char>,
    selection: Seq<char>,
    out: Seq<char>,
)
    requires
        renders_single_selection(prompt, selection, out),
    ensures
        line_breaks(out) == line_breaks(plain::single_selection_text(prompt, selection, ':')),
{
    broadcast use lemma_line_breaks_concat;

    let shown = choose|shown: Seq<char>|
        #![trigger plain::single_selection_text(prompt, shown, ':')]
        styled_as(shown, selection) && out == plain::single_selection_text(prompt, shown, ':');
    lemma_styled_line_breaks(shown, selection);
}

/// The label of an error and what follows it make up the plain banner's
/// opening.
proof fn lemma_error_label()
    ensures
        "error"@ + ": "@ == "error: "@,
{
    reveal_strlit("error");
    reveal_strlit(": ");
    reveal_strlit("error: ");
    assert("error"@ + ": "@ =~= "error: "@);
}

/// The unstyled parts of a list item make up its plain marker.
proof fn lemma_selection_marker(style: SelectionStyle)
    ensures
        forall|text: Seq<char>| #[trigger]
            selection_text(style, ">"@, "x"@, text) == plain::selection_text(text, style),
{
    reveal_strlit(">");
    reveal_strlit("x");
    reveal_strlit(" [ ] ");
    reveal_strlit("  [ ] ");
    reveal_strlit(" [");
    reveal_strlit("] ");
    reveal_strlit("  [");
    reveal_strlit(" ");
    reveal_strlit("  ");
    reveal_strlit("> [ ] ");
    reveal_strlit("> [x] ");
    reveal_strlit("  [x] ");
    reveal_strlit("> ");
    assert forall|text: Seq<char>| #[trigger]
        selection_text(style, ">"@, "x"@, text) == plain::selection_text(text, style) by {
        assert(selection_text(style, ">"@, "x"@, text) =~= plain::selection_text(text, style));
    }
}

/// A committed password is worded as the committed single value `[hidden]`,
/// whatever the password was, which no theme method is given.
pub proof fn lemma_password_is_masked(theme: ColorfulTheme, prompt: Seq<char>, out: Seq<char>)
    ensures
        theme.renders(PromptEvent::PasswordSelection(prompt), out) == theme.renders(
            PromptEvent::SingleSelection(prompt, plain::hidden_mask()),
            out,
        ),
{
}

} // verus!
