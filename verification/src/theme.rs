//! The theme interface and the two themes without styling.

use vstd::prelude::*;
use crate::plain;
use crate::plain::SelectionStyle;
use crate::text::{key_choices, key_choices_text, option_view, views};

verus! {

/// A theme could not format an event.
#[derive(Debug, Clone, Copy, PartialEq, Eq)]
pub struct FormatError;

/// What a prompt asks a theme to put into words: one case for each kind of
/// interaction, with the state that the wording depends on.
pub enum PromptEvent {
    /// A question header above a list: the prompt.
    Prompt(Seq<char>),
    /// A single-line input prompt: the prompt and the default value.
    SinglelinePrompt(Seq<char>, Option<Seq<char>>),
    /// An error: the message.
    Error(Seq<char>),
    /// A yes/no question: the prompt and the default answer.
    ConfirmationPrompt(Seq<char>, Option<bool>),
    /// A choice by key: the prompt, the index of the default choice and the
    /// choices.
    KeyPrompt(Seq<char>, Option<u8>, Seq<char>),
    /// A committed yes/no answer: the prompt and the answer.
    ConfirmationSelection(Seq<char>, bool),
    /// A committed single value: the prompt and the value.
    SingleSelection(Seq<char>, Seq<char>),
    /// Committed values: the prompt and the values in order.
    MultiSelection(Seq<char>, Seq<Seq<char>>),
    /// A committed password: the prompt. The password is no part of the
    /// event.
    PasswordSelection(Seq<char>),
    /// One item of a list: its text and its state.
    Selection(Seq<char>, SelectionStyle),
}

/// The wording of `event` without styling, prompts ended by `terminator`.
pub open spec fn plain_text(event: PromptEvent, terminator: char) -> Seq<char> {
    match event {
        PromptEvent::Prompt(prompt) => plain::prompt_text(prompt, terminator),
        PromptEvent::SinglelinePrompt(prompt, default) => plain::singleline_prompt_text(
            prompt,
            default,
            terminator,
        ),
        PromptEvent::Error(message) => plain::error_text(message),
        PromptEvent::ConfirmationPrompt(prompt, default) => plain::confirmation_prompt_text(
            prompt,
            default,
        ),
        PromptEvent::KeyPrompt(prompt, default, choices) => plain::key_prompt_text(
            prompt,
            default,
            choices,
        ),
        PromptEvent::ConfirmationSelection(prompt, selection) => plain::confirmation_selection_text(
            prompt,
            selection,
        ),
        PromptEvent::SingleSelection(prompt, selection) => plain::single_selection_text(
            prompt,
            selection,
            terminator,
        ),
        PromptEvent::MultiSelection(prompt, selections) => plain::multi_selection_text(
            prompt,
            selections,
            terminator,
        ),
        PromptEvent::PasswordSelection(prompt) => plain::password_selection_text(
            prompt,
            terminator,
        ),
        PromptEvent::Selection(text, style) => plain::selection_text(text, style),
    }
}

/// A formatting policy: for every prompt event, the text that shows it.
///
/// Each method appends the wording of one event to the sink `f` and, where
/// it succeeds, touches nothing that `f` held before. `renders` says which
/// wordings a theme may give an event. Where it admits one text only, the
/// theme is a function of its inputs; a theme that styles its text admits
/// the text in every styling, since the terminal decides whether styles
/// show.
///
/// A theme that has no wording of its own for an event hands the event to
/// the function of the same name in [`plain`].
pub trait Theme {
    /// `out` is a wording that this theme gives `event`. A theme that does
    /// not say how it words events admits every text.
    open spec fn renders(&self, event: PromptEvent, out: Seq<char>) -> bool {
        true
    }

    /// This theme formats every event without failing. A theme that does
    /// not say so may fail.
    open spec fn infallible(&self) -> bool {
        false
    }

    /// Given a prompt this formats out what the prompt should look like
    /// (multiline).
    fn format_prompt(&self, f: &mut String, prompt: &str) -> (r: Result<(), FormatError>)
        ensures
            self.infallible() ==> r is Ok,
            r is Ok ==> exists|out: Seq<char>|
                #[trigger] self.renders(PromptEvent::Prompt(prompt@), out)
                    && final(f)@ == old(f)@ + out,
    ;

    /// Given a prompt this formats out what the prompt should look like
    /// (singleline).
    fn format_singleline_prompt(
        &self,
        f: &mut String,
        prompt: &str,
        default: Option<&str>,
    ) -> (r: Result<(), FormatError>)
        ensures
            self.infallible() ==> r is Ok,
            r is Ok ==> exists|out: Seq<char>|
                #[trigger] self.renders(
                    PromptEvent::SinglelinePrompt(prompt@, option_view(default)),
                    out,
                )
                    && final(f)@ == old(f)@ + out,
    ;

    /// Formats out an error.
    fn format_error(&self, f: &mut String, err: &str) -> (r: Result<(), FormatError>)
        ensures
            self.infallible() ==> r is Ok,
            r is Ok ==> exists|out: Seq<char>|
                #[trigger] self.renders(PromptEvent::Error(err@), out)
                    && final(f)@ == old(f)@ + out,
    ;

    /// Formats a confirmation prompt.
    fn format_confirmation_prompt(
        &self,
        f: &mut String,
        prompt: &str,
        default: Option<bool>,
    ) -> (r: Result<(), FormatError>)
        ensures
            self.infallible() ==> r is Ok,
            r is Ok ==> exists|out: Seq<char>|
                #[trigger] self.renders(PromptEvent::ConfirmationPrompt(prompt@, default), out)
                    && final(f)@ == old(f)@ + out,
    ;

    /// Formats a key prompt.
    fn format_key_prompt(
        &self,
        f: &mut String,
        prompt: &str,
        default: Option<u8>,
        choices: &Vec<char>,
    ) -> (r: Result<(), FormatError>)
        ensures
            self.infallible() ==> r is Ok,
            r is Ok ==> exists|out: Seq<char>|
                #[trigger] self.renders(PromptEvent::KeyPrompt(prompt@, default, choices@), out)
                    && final(f)@ == old(f)@ + out,
    ;

    /// The choices of a key prompt in one text: every choice in order, `/`
    /// between them, the default choice in upper case. Themes decorate this
    /// text; none changes it.
    fn _format_key_prompt(&self, default: Option<u8>, choices: &Vec<char>) -> (keys: String)
        ensures
            keys@ == key_choices(default, choices@),
    {
        key_choices_text(default, choices)
    }

    /// Formats a committed yes/no answer.
    fn format_confirmation_prompt_selection(
        &self,
        f: &mut String,
        prompt: &str,
        selection: bool,
    ) -> (r: Result<(), FormatError>)
        ensures
            self.infallible() ==> r is Ok,
            r is Ok ==> exists|out: Seq<char>|
                #[trigger] self.renders(PromptEvent::ConfirmationSelection(prompt@, selection), out)
                    && final(f)@ == old(f)@ + out,
    ;

    /// Renders a prompt and a single selection made.
    fn format_single_prompt_selection(
        &self,
        f: &mut String,
        prompt: &str,
        sel: &str,
    ) -> (r: Result<(), FormatError>)
        ensures
            self.infallible() ==> r is Ok,
            r is Ok ==> exists|out: Seq<char>|
                #[trigger] self.renders(PromptEvent::SingleSelection(prompt@, sel@), out)
                    && final(f)@ == old(f)@ + out,
    ;

    /// Renders a prompt and multiple selections.
    fn format_multi_prompt_selection(
        &self,
        f: &mut String,
        prompt: &str,
        selections: &[&str],
    ) -> (r: Result<(), FormatError>)
        ensures
            self.infallible() ==> r is Ok,
            r is Ok ==> exists|out: Seq<char>|
                #[trigger] self.renders(
                    PromptEvent::MultiSelection(prompt@, views(selections@)),
                    out,
                )
                    && final(f)@ == old(f)@ + out,
    ;

    /// Renders a prompt and a mask in place of the password entered.
    fn format_password_prompt_selection(
        &self,
        f: &mut String,
        prompt: &str,
    ) -> (r: Result<(), FormatError>)
        ensures
            self.infallible() ==> r is Ok,
            r is Ok ==> exists|out: Seq<char>|
                #[trigger] self.renders(PromptEvent::PasswordSelection(prompt@), out)
                    && final(f)@ == old(f)@ + out,
    ;

    /// Formats a selection.
    fn format_selection(
        &self,
        f: &mut String,
        text: &str,
        style: SelectionStyle,
    ) -> (r: Result<(), FormatError>)
        ensures
            self.infallible() ==> r is Ok,
            r is Ok ==> exists|out: Seq<char>|
                #[trigger] self.renders(PromptEvent::Selection(text@, style), out)
                    && final(f)@ == old(f)@ + out,
    ;
}

/// The default theme.
#[derive(Debug, Clone, Copy)]
pub struct SimpleTheme;

impl Theme for SimpleTheme {
    open spec fn renders(&self, event: PromptEvent, out: Seq<char>) -> bool {
        out == plain_text(event, ':')
    }

    open spec fn infallible(&self) -> bool {
        true
    }

    fn format_prompt(&self, f: &mut String, prompt: &str) -> (r: Result<(), FormatError>)
        ensures
            final(f)@ == old(f)@ + plain::prompt_text(prompt@, ':'),
    {
        plain::format_prompt(f, prompt, ':');
        assert(self.renders(PromptEvent::Prompt(prompt@), plain::prompt_text(prompt@, ':')));
        Ok(())
    }

    fn format_singleline_prompt(
        &self,
        f: &mut String,
        prompt: &str,
        default: Option<&str>,
    ) -> (r: Result<(), FormatError>)
        ensures
            final(f)@ == old(f)@ + plain::singleline_prompt_text(
                prompt@,
                option_view(default),
                ':',
            ),
    {
        plain::format_singleline_prompt(f, prompt, default, ':');
        assert(self.renders(
            PromptEvent::SinglelinePrompt(prompt@, option_view(default)),
            plain::singleline_prompt_text(prompt@, option_view(default), ':'),
        ));
        Ok(())
    }

    fn format_error(&self, f: &mut String, err: &str) -> (r: Result<(), FormatError>)
        ensures
            final(f)@ == old(f)@ + plain::error_text(err@),
    {
        plain::format_error(f, err);
        assert(self.renders(PromptEvent::Error(err@), plain::error_text(err@)));
        Ok(())
    }

    fn format_confirmation_prompt(
        &self,
        f: &mut String,
        prompt: &str,
        default: Option<bool>,
    ) -> (r: Result<(), FormatError>)
        ensures
            final(f)@ == old(f)@ + plain::confirmation_prompt_text(prompt@, default),
    {
        plain::format_confirmation_prompt(f, prompt, default);
        assert(self.renders(
            PromptEvent::ConfirmationPrompt(prompt@, default),
            plain::confirmation_prompt_text(prompt@, default),
        ));
        Ok(())
    }

    fn format_key_prompt(
        &self,
        f: &mut String,
        prompt: &str,
        default: Option<u8>,
        choices: &Vec<char>,
    ) -> (r: Result<(), FormatError>)
        ensures
            final(f)@ == old(f)@ + plain::key_prompt_text(prompt@, default, choices@),
    {
        plain::format_key_prompt(f, prompt, default, choices);
        assert(self.renders(
            PromptEvent::KeyPrompt(prompt@, default, choices@),
            plain::key_prompt_text(prompt@, default, choices@),
        ));
        Ok(())
    }

    fn format_confirmation_prompt_selection(
        &self,
        f: &mut String,
        prompt: &str,
        selection: bool,
    ) -> (r: Result<(), FormatError>)
        ensures
            final(f)@ == old(f)@ + plain::confirmation_selection_text(prompt@, selection),
    {
        plain::format_confirmation_prompt_selection(f, prompt, selection);
        assert(self.renders(
            PromptEvent::ConfirmationSelection(prompt@, selection),
            plain::confirmation_selection_text(prompt@, selection),
        ));
        Ok(())
    }

    fn format_single_prompt_selection(
        &self,
        f: &mut String,
        prompt: &str,
        sel: &str,
    ) -> (r: Result<(), FormatError>)
        ensures
            final(f)@ == old(f)@ + plain::single_selection_text(prompt@, sel@, ':'),
    {
        plain::format_single_prompt_selection(f, prompt, sel, ':');
        assert(self.renders(
            PromptEvent::SingleSelection(prompt@, sel@),
            plain::single_selection_text(prompt@, sel@, ':'),
        ));
        Ok(())
    }

    fn format_multi_prompt_selection(
        &self,
        f: &mut String,
        prompt: &str,
        selections: &[&str],
    ) -> (r: Result<(), FormatError>)
        ensures
            final(f)@ == old(f)@ + plain::multi_selection_text(prompt@, views(selections@), ':'),
    {
        plain::format_multi_prompt_selection(f, prompt, selections, ':');
        assert(self.renders(
            PromptEvent::MultiSelection(prompt@, views(selections@)),
            plain::multi_selection_text(prompt@, views(selections@), ':'),
        ));
        Ok(())
    }

    fn format_password_prompt_selection(
        &self,
        f: &mut String,
        prompt: &str,
    ) -> (r: Result<(), FormatError>)
        ensures
            final(f)@ == old(f)@ + plain::password_selection_text(prompt@, ':'),
    {
        plain::format_password_prompt_selection(f, prompt, ':');
        assert(self.renders(
            PromptEvent::PasswordSelection(prompt@),
            plain::password_selection_text(prompt@, ':'),
        ));
        Ok(())
    }

    fn format_selection(
        &self,
        f: &mut String,
        text: &str,
        style: SelectionStyle,
    ) -> (r: Result<(), FormatError>)
        ensures
            final(f)@ == old(f)@ + plain::selection_text(text@, style),
    {
        plain::format_selection(f, text, style);
        assert(self.renders(
            PromptEvent::Selection(text@, style),
            plain::selection_text(text@, style),
        ));
        Ok(())
    }
}

/// The default theme, with a custom prompt character in place of `:`.
#[derive(Debug, Clone, Copy)]
pub struct CustomPromptCharacterTheme {
    prompt_character: char,
}

impl CustomPromptCharacterTheme {
    /// The character that ends a prompt.
    pub closed spec fn prompt_character(&self) -> char {
        self.prompt_character
    }

    /// Creates a theme, the prompt character for which is customized.
    pub fn new(character: char) -> (theme: CustomPromptCharacterTheme)
        ensures
            theme.prompt_character() == character,
    {
        CustomPromptCharacterTheme { prompt_character: character }
    }
}

impl Default for CustomPromptCharacterTheme {
    /// The theme with `:` as its prompt character.
    fn default() -> (theme: Self)
        ensures
            theme.prompt_character() == ':',
    {
        CustomPromptCharacterTheme { prompt_character: ':' }
    }
}

impl Theme for CustomPromptCharacterTheme {
    open spec fn renders(&self, event: PromptEvent, out: Seq<char>) -> bool {
        out == plain_text(event, self.prompt_character())
    }

    open spec fn infallible(&self) -> bool {
        true
    }

    fn format_prompt(&self, f: &mut String, prompt: &str) -> (r: Result<(), FormatError>)
        ensures
            final(f)@ == old(f)@ + plain::prompt_text(prompt@, self.prompt_character()),
    {
        plain::format_prompt(f, prompt, self.prompt_character);
        assert(self.renders(
            PromptEvent::Prompt(prompt@),
            plain::prompt_text(prompt@, self.prompt_character()),
        ));
        Ok(())
    }

    fn format_singleline_prompt(
        &self,
        f: &mut String,
        prompt: &str,
        default: Option<&str>,
    ) -> (r: Result<(), FormatError>)
        ensures
            final(f)@ == old(f)@ + plain::singleline_prompt_text(
                prompt@,
                option_view(default),
                self.prompt_character(),
            ),
    {
        plain::format_singleline_prompt(f, prompt, default, self.prompt_character);
        assert(self.renders(
            PromptEvent::SinglelinePrompt(prompt@, option_view(default)),
            plain::singleline_prompt_text(prompt@, option_view(default), self.prompt_character()),
        ));
        Ok(())
    }

    fn format_error(&self, f: &mut String, err: &str) -> (r: Result<(), FormatError>)
        ensures
            final(f)@ == old(f)@ + plain::error_text(err@),
    {
        plain::format_error(f, err);
        assert(self.renders(PromptEvent::Error(err@), plain::error_text(err@)));
        Ok(())
    }

    fn format_confirmation_prompt(
        &self,
        f: &mut String,
        prompt: &str,
        default: Option<bool>,
    ) -> (r: Result<(), FormatError>)
        ensures
            final(f)@ == old(f)@ + plain::confirmation_prompt_text(prompt@, default),
    {
        plain::format_confirmation_prompt(f, prompt, default);
        assert(self.renders(
            PromptEvent::ConfirmationPrompt(prompt@, default),
            plain::confirmation_prompt_text(prompt@, default),
        ));
        Ok(())
    }

    fn format_key_prompt(
        &self,
        f: &mut String,
        prompt: &str,
        default: Option<u8>,
        choices: &Vec<char>,
    ) -> (r: Result<(), FormatError>)
        ensures
            final(f)@ == old(f)@ + plain::key_prompt_text(prompt@, default, choices@),
    {
        plain::format_key_prompt(f, prompt, default, choices);
        assert(self.renders(
            PromptEvent::KeyPrompt(prompt@, default, choices@),
            plain::key_prompt_text(prompt@, default, choices@),
        ));
        Ok(())
    }

    fn format_confirmation_prompt_selection(
        &self,
        f: &mut String,
        prompt: &str,
        selection: bool,
    ) -> (r: Result<(), FormatError>)
        ensures
            final(f)@ == old(f)@ + plain::confirmation_selection_text(prompt@, selection),
    {
        plain::format_confirmation_prompt_selection(f, prompt, selection);
        assert(self.renders(
            PromptEvent::ConfirmationSelection(prompt@, selection),
            plain::confirmation_selection_text(prompt@, selection),
        ));
        Ok(())
    }

    fn format_single_prompt_selection(
        &self,
        f: &mut String,
        prompt: &str,
        sel: &str,
    ) -> (r: Result<(), FormatError>)
        ensures
            final(f)@ == old(f)@ + plain::single_selection_text(
                prompt@,
                sel@,
                self.prompt_character(),
            ),
    {
        plain::format_single_prompt_selection(f, prompt, sel, self.prompt_character);
        assert(self.renders(
            PromptEvent::SingleSelection(prompt@, sel@),
            plain::single_selection_text(prompt@, sel@, self.prompt_character()),
        ));
        Ok(())
    }

    fn format_multi_prompt_selection(
        &self,
        f: &mut String,
        prompt: &str,
        selections: &[&str],
    ) -> (r: Result<(), FormatError>)
        ensures
            final(f)@ == old(f)@ + plain::multi_selection_text(
                prompt@,
                views(selections@),
                self.prompt_character(),
            ),
    {
        plain::format_multi_prompt_selection(f, prompt, selections, self.prompt_character);
        assert(self.renders(
            PromptEvent::MultiSelection(prompt@, views(selections@)),
            plain::multi_selection_text(prompt@, views(selections@), self.prompt_character()),
        ));
        Ok(())
    }

    fn format_password_prompt_selection(
        &self,
        f: &mut String,
        prompt: &str,
    ) -> (r: Result<(), FormatError>)
        ensures
            final(f)@ == old(f)@ + plain::password_selection_text(prompt@, self.prompt_character()),
    {
        plain::format_password_prompt_selection(f, prompt, self.prompt_character);
        assert(self.renders(
            PromptEvent::PasswordSelection(prompt@),
            plain::password_selection_text(prompt@, self.prompt_character()),
        ));
        Ok(())
    }

    fn format_selection(
        &self,
        f: &mut String,
        text: &str,
        style: SelectionStyle,
    ) -> (r: Result<(), FormatError>)
        ensures
            final(f)@ == old(f)@ + plain::selection_text(text@, style),
    {
        plain::format_selection(f, text, style);
        assert(self.renders(
            PromptEvent::Selection(text@, style),
            plain::selection_text(text@, style),
        ));
        Ok(())
    }
}

/// Returns the default theme, which is the simple theme.
pub fn get_default_theme() -> (theme: &'static SimpleTheme)
    ensures
        *theme == SimpleTheme,
{
    &SimpleTheme
}

/// The simple theme is a function of its inputs: any two wordings that it
/// gives one event are the same text.
pub proof fn lemma_simple_theme_is_pure(event: PromptEvent, first: Seq<char>, second: Seq<char>)
    requires
        SimpleTheme.renders(event, first),
        SimpleTheme.renders(event, second),
    ensures
        first == second,
{
}

/// A theme with a custom prompt character is a function of its inputs: any
/// two wordings that it gives one event are the same text.
pub proof fn lemma_custom_theme_is_pure(
    theme: CustomPromptCharacterTheme,
    event: PromptEvent,
    first: Seq<char>,
    second: Seq<char>,
)
    requires
        theme.renders(event, first),
        theme.renders(event, second),
    ensures
        first == second,
{
}

/// With `:` as its prompt character, the custom theme words every event as
/// the simple theme does.
pub proof fn lemma_colon_theme_is_simple(
    theme: CustomPromptCharacterTheme,
    event: PromptEvent,
    out: Seq<char>,
)
    requires
        theme.prompt_character() == ':',
    ensures
        theme.renders(event, out) == SimpleTheme.renders(event, out),
{
}

/// A prompt character shows only where a prompt ends: errors, confirmation
/// and key prompts, yes/no answers and list items read the same under every
/// prompt character.
pub proof fn lemma_prompt_character_scope(event: PromptEvent, first: char, second: char)
    requires
        event is Error || event is ConfirmationPrompt || event is KeyPrompt
            || event is ConfirmationSelection || event is Selection,
    ensures
        plain_text(event, first) == plain_text(event, second),
{
}

/// A committed password is worded as the committed single value `[hidden]`:
/// eight characters whatever the password was, which no theme method is
/// given.
pub proof fn lemma_password_is_masked(prompt: Seq<char>, terminator: char)
    ensures
        plain_text(PromptEvent::PasswordSelection(prompt), terminator) == plain_text(
            PromptEvent::SingleSelection(prompt, plain::hidden_mask()),
            terminator,
        ),
        plain::hidden_mask().len() == 8,
{
    reveal_strlit("[hidden]");
}

/// The three defaults of a confirmation prompt read differently: `[Y/n]` for
/// yes, `[y/N]` for no and the bare prompt for none, so a wording tells the
/// default that it was made for.
pub proof fn lemma_confirmation_hint_tells_default(
    prompt: Seq<char>,
    first: Option<bool>,
    second: Option<bool>,
    terminator: char,
)
    requires
        plain_text(PromptEvent::ConfirmationPrompt(prompt, first), terminator) == plain_text(
            PromptEvent::ConfirmationPrompt(prompt, second),
            terminator,
        ),
    ensures
        first == second,
{
    reveal_strlit("[Y/n]");
    reveal_strlit("[y/N]");
    reveal_strlit(" ");
    let a = plain::confirmation_prompt_text(prompt, first);
    let b = plain::confirmation_prompt_text(prompt, second);
    assert(a == b);
    let n = prompt.len() as int;
    if first is Some {
        assert(a.len() == n + 7);
        assert(a[n + 2] == plain::confirmation_hint(first->0)[1]);
    } else {
        assert(a.len() == n);
    }
    if second is Some {
        assert(b.len() == n + 7);
        assert(b[n + 2] == plain::confirmation_hint(second->0)[1]);
    } else {
        assert(b.len() == n);
    }
}

} // verus!
