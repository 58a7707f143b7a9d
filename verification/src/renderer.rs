//! The renderer: a theme's wording in frames, and the count of the lines drawn.
//!
//! Drawing goes in two steps. A render method formats an event and measures
//! the text; it returns a [`Frame`] and changes nothing. Once the terminal has
//! taken the frame, [`TermThemeRenderer::commit`] counts its lines. Erasing
//! goes the same way: [`TermThemeRenderer::clear`] says how many lines are to
//! go, [`TermThemeRenderer::cleared`] forgets them. A step that fails on the
//! way leaves the counts untouched.

use vstd::prelude::*;
use crate::plain::SelectionStyle;
use crate::text::{count_line_breaks, line_breaks, option_view, views};
use crate::theme::{FormatError, PromptEvent, Theme};

verus! {

/// How a formatted text goes to the terminal and into the line counts.
#[derive(Debug, Clone, Copy, PartialEq, Eq)]
pub enum WriteStrategy {
    /// Written as it is, the cursor staying behind it: counts the line feeds
    /// of the text.
    Str,
    /// Written with a line terminator after it: counts one line more than
    /// the text has line feeds.
    Line,
    /// Written and counted as a line; where prompts reset the height, this
    /// write then closes the epoch: all lines counted so far become the
    /// height of the prompt.
    Prompt,
}

impl WriteStrategy {
    /// The terminal ends the text with a line terminator.
    pub open spec fn ends_line(self) -> bool {
        !(self is Str)
    }

    /// The number of lines that writing `text` this way adds.
    pub open spec fn lines(self, text: Seq<char>) -> nat {
        if self.ends_line() {
            line_breaks(text) + 1
        } else {
            line_breaks(text)
        }
    }
}

/// The line counts of a renderer.
pub struct LineCounts {
    /// The lines written since the last prompt boundary.
    pub height: nat,
    /// The lines that the last prompt took, as counted when it was written.
    pub prompt_height: nat,
    /// Whether writing a prompt moves the height into the prompt height.
    pub prompts_reset_height: bool,
}

impl LineCounts {
    /// The counts of a renderer that has drawn nothing.
    pub open spec fn fresh() -> LineCounts {
        LineCounts { height: 0, prompt_height: 0, prompts_reset_height: true }
    }

    /// The number of lines on the terminal that the renderer is to erase.
    pub open spec fn erasable(self) -> nat {
        self.height + self.prompt_height
    }

    /// The counts after `n` more lines of body.
    pub open spec fn add_lines(self, n: nat) -> LineCounts {
        LineCounts { height: self.height + n, ..self }
    }

    /// The counts after the whole height has become the prompt height.
    pub open spec fn roll_over(self) -> LineCounts {
        LineCounts { height: 0, prompt_height: self.height, ..self }
    }

    /// The counts after `text` was written by `strategy`: the text is counted
    /// into the height first; a prompt then rolls the height over where
    /// prompts reset it.
    pub open spec fn write(self, strategy: WriteStrategy, text: Seq<char>) -> LineCounts {
        let counted = self.add_lines(strategy.lines(text));
        if strategy is Prompt && self.prompts_reset_height {
            counted.roll_over()
        } else {
            counted
        }
    }

    /// The counts after everything was erased.
    pub open spec fn clear(self) -> LineCounts {
        LineCounts { height: 0, prompt_height: 0, ..self }
    }

    /// The counts after the body was erased and the prompt kept.
    pub open spec fn clear_preserve_prompt(self) -> LineCounts {
        LineCounts { height: 0, ..self }
    }
}

/// The number of `sizes` that are larger than `width`: the items that a
/// terminal of that width wraps onto a second row.
pub open spec fn wrapped_items(sizes: Seq<usize>, width: u16) -> nat
    decreases sizes.len(),
{
    if sizes.len() == 0 {
        0
    } else {
        wrapped_items(sizes.drop_last(), width) + if sizes.last() > width {
            1nat
        } else {
            0nat
        }
    }
}

/// The counts after the frames of `writes` were written one after the other.
pub open spec fn write_all(counts: LineCounts, writes: Seq<FrameView>) -> LineCounts
    decreases writes.len(),
{
    if writes.len() == 0 {
        counts
    } else {
        write_all(counts, writes.drop_last()).write(writes.last().strategy, writes.last().text)
    }
}

/// The number of lines that the frames of `writes` add, taken together.
pub open spec fn total_lines(writes: Seq<FrameView>) -> nat
    decreases writes.len(),
{
    if writes.len() == 0 {
        0
    } else {
        total_lines(writes.drop_last()) + writes.last().strategy.lines(writes.last().text)
    }
}

/// None of `writes` closes an epoch of a renderer with these counts: prompts
/// do not reset the height, or no frame is written as a prompt.
pub open spec fn none_rolls_over(counts: LineCounts, writes: Seq<FrameView>) -> bool {
    !counts.prompts_reset_height || forall|i: int|
        0 <= i < writes.len() ==> !((#[trigger] writes[i]).strategy is Prompt)
}

/// Counts the items that a terminal `width` columns wide wraps. An item's
/// size is compared with the width as a number: this is a proxy for the
/// width that the item takes on screen, not a measure of it.
pub fn count_wrapped_items(size_vec: &[usize], width: u16) -> (n: usize)
    ensures
        n == wrapped_items(size_vec@, width),
{
    let mut n: usize = 0;
    let mut i: usize = 0;
    while i < size_vec.len()
        invariant
            i <= size_vec.len(),
            n <= i,
            n == wrapped_items(size_vec@.take(i as int), width),
        decreases size_vec.len() - i,
    {
        proof {
            assert(size_vec@.take(i as int + 1).drop_last() == size_vec@.take(i as int));
        }
        if size_vec[i] > width as usize {
            n += 1;
        }
        i += 1;
    }
    proof {
        assert(size_vec@.take(size_vec@.len() as int) == size_vec@);
    }
    n
}

/// What a frame holds: the text and the way to write it.
pub struct FrameView {
    /// The formatted text.
    pub text: Seq<char>,
    /// How the text is to be written and counted.
    pub strategy: WriteStrategy,
}

/// A formatted text, measured and ready for the terminal.
pub struct Frame {
    text: String,
    strategy: WriteStrategy,
    breaks: usize,
}

impl View for Frame {
    type V = FrameView;

    closed spec fn view(&self) -> FrameView {
        FrameView { text: self.text@, strategy: self.strategy }
    }
}

impl Frame {
    #[verifier::type_invariant]
    spec fn measured(self) -> bool {
        self.breaks == line_breaks(self.text@)
    }

    /// The number of lines that this frame adds once written.
    pub open spec fn lines(&self) -> nat {
        self@.strategy.lines(self@.text)
    }

    /// Measures `text` and makes it a frame to be written by `strategy`.
    pub fn new(text: String, strategy: WriteStrategy) -> (frame: Frame)
        ensures
            frame@.text == text@,
            frame@.strategy == strategy,
    {
        let breaks = count_line_breaks(text.as_str());
        Frame { text, strategy, breaks }
    }

    /// The text to write.
    pub fn text(&self) -> (text: &str)
        ensures
            text@ == self@.text,
    {
        self.text.as_str()
    }

    /// The way to write the text.
    pub fn strategy(&self) -> (strategy: WriteStrategy)
        ensures
            strategy == self@.strategy,
    {
        self.strategy
    }

    /// Whether the terminal is to end the text with a line terminator.
    pub fn ends_line(&self) -> (b: bool)
        ensures
            b == self@.strategy.ends_line(),
    {
        match self.strategy {
            WriteStrategy::Str => false,
            _ => true,
        }
    }

    /// The number of line feeds in the text.
    pub fn line_breaks(&self) -> (n: usize)
        ensures
            n == line_breaks(self@.text),
    {
        proof {
            use_type_invariant(self);
        }
        self.breaks
    }
}

/// Renders a theme for a terminal and keeps the line counts.
pub struct TermThemeRenderer<'a, T: Theme + ?Sized> {
    theme: &'a T,
    height: usize,
    prompt_height: usize,
    prompts_reset_height: bool,
}

impl<'a, T: Theme + ?Sized> View for TermThemeRenderer<'a, T> {
    type V = LineCounts;

    closed spec fn view(&self) -> LineCounts {
        LineCounts {
            height: self.height as nat,
            prompt_height: self.prompt_height as nat,
            prompts_reset_height: self.prompts_reset_height,
        }
    }
}

impl<'a, T: Theme + ?Sized> TermThemeRenderer<'a, T> {
    #[verifier::type_invariant]
    spec fn countable(self) -> bool {
        self.height + self.prompt_height <= usize::MAX
    }

    /// The theme that words the events.
    pub closed spec fn theme(&self) -> &'a T {
        self.theme
    }

    /// `r` is what formatting `event` for `strategy` may give: a frame with
    /// a wording of the event by the theme, or the theme's failure; a theme
    /// that never fails gives a frame.
    pub open spec fn draws(
        &self,
        r: Result<Frame, FormatError>,
        event: PromptEvent,
        strategy: WriteStrategy,
    ) -> bool {
        &&& self.theme().infallible() ==> r is Ok
        &&& r matches Ok(frame) ==> frame@.strategy == strategy && self.theme().renders(
            event,
            frame@.text,
        )
    }

    /// Whether the lines of `frame` can be counted on top of those counted
    /// so far.
    pub open spec fn has_room_for(&self, frame: &Frame) -> bool {
        self@.write(frame@.strategy, frame@.text).erasable() <= usize::MAX
    }

    /// Creates a renderer that has drawn nothing and lets prompts reset the
    /// height.
    pub fn new(theme: &'a T) -> (renderer: Self)
        ensures
            renderer@ == LineCounts::fresh(),
            renderer.theme() == theme,
    {
        TermThemeRenderer { theme, height: 0, prompt_height: 0, prompts_reset_height: true }
    }

    /// Sets whether writing a prompt moves the height into the prompt
    /// height.
    pub fn set_prompts_reset_height(&mut self, val: bool)
        ensures
            final(self)@ == (LineCounts { prompts_reset_height: val, ..old(self)@ }),
            final(self).theme() == old(self).theme(),
    {
        proof {
            use_type_invariant(&*self);
        }
        self.prompts_reset_height = val;
    }

    /// The lines written since the last prompt boundary.
    pub fn height(&self) -> (n: usize)
        ensures
            n == self@.height,
    {
        self.height
    }

    /// The lines that the last prompt took.
    pub fn prompt_height(&self) -> (n: usize)
        ensures
            n == self@.prompt_height,
    {
        self.prompt_height
    }

    /// Whether one more line can be counted.
    pub fn can_add_line(&self) -> (b: bool)
        ensures
            b == (self@.erasable() < usize::MAX),
    {
        self.clear() < usize::MAX
    }

    /// Counts one line that was written past the renderer.
    pub fn add_line(&mut self)
        requires
            old(self)@.erasable() < usize::MAX,
        ensures
            final(self)@ == old(self)@.add_lines(1),
            final(self).theme() == old(self).theme(),
    {
        proof {
            use_type_invariant(&*self);
        }
        self.height += 1;
    }

    /// Whether writing `frame` closes an epoch.
    fn rolls_over(&self, frame: &Frame) -> (b: bool)
        ensures
            b == (frame@.strategy is Prompt && self@.prompts_reset_height),
    {
        self.prompts_reset_height && matches!(frame.strategy, WriteStrategy::Prompt)
    }

    /// Whether the lines of `frame` can be counted: the condition of
    /// `commit`.
    pub fn can_commit(&self, frame: &Frame) -> (b: bool)
        ensures
            b == self.has_room_for(frame),
    {
        proof {
            use_type_invariant(self);
            use_type_invariant(frame);
        }
        let kept: usize = if self.rolls_over(frame) {
            0
        } else {
            self.prompt_height
        };
        let room: usize = usize::MAX - self.height - kept;
        if frame.ends_line() {
            frame.breaks < room
        } else {
            frame.breaks <= room
        }
    }

    /// Counts the lines of a frame that the terminal has taken.
    pub fn commit(&mut self, frame: &Frame)
        requires
            old(self).has_room_for(frame),
        ensures
            final(self)@ == old(self)@.write(frame@.strategy, frame@.text),
            final(self).theme() == old(self).theme(),
    {
        proof {
            use_type_invariant(&*self);
            use_type_invariant(frame);
        }
        let rolls: bool = self.rolls_over(frame);
        let mut counted: usize = self.height + frame.breaks;
        if frame.ends_line() {
            counted += 1;
        }
        if rolls {
            self.height = 0;
            self.prompt_height = counted;
        } else {
            self.height = counted;
        }
    }

    /// The number of lines to erase so that nothing drawn is left: the body
    /// and the prompt. The renderer never counts more lines than this number
    /// can hold.
    pub fn clear(&self) -> (lines: usize)
        ensures
            lines == self@.erasable(),
    {
        proof {
            use_type_invariant(self);
        }
        self.height + self.prompt_height
    }

    /// Forgets all lines, after the terminal has erased them.
    pub fn cleared(&mut self)
        ensures
            final(self)@ == old(self)@.clear(),
            final(self).theme() == old(self).theme(),
    {
        proof {
            use_type_invariant(&*self);
        }
        self.height = 0;
        self.prompt_height = 0;
    }

    /// The number of rows to erase so that the body goes and the prompt
    /// stays, on a terminal `width` columns wide: the height, and one row
    /// more for each item of `size_vec` that is larger than `width`. `None`
    /// where that number does not fit.
    pub fn clear_preserve_prompt(&self, size_vec: &[usize], width: u16) -> (lines: Option<usize>)
        ensures
            match lines {
                Some(n) => n == self@.height + wrapped_items(size_vec@, width),
                None => self@.height + wrapped_items(size_vec@, width) > usize::MAX,
            },
    {
        let extra = count_wrapped_items(size_vec, width);
        self.height.checked_add(extra)
    }

    /// Forgets the body, after the terminal has erased it.
    pub fn cleared_preserve_prompt(&mut self)
        ensures
            final(self)@ == old(self)@.clear_preserve_prompt(),
            final(self).theme() == old(self).theme(),
    {
        proof {
            use_type_invariant(&*self);
        }
        self.height = 0;
    }

    /// Formats an error, to be written as a line.
    pub fn error(&self, err: &str) -> (r: Result<Frame, FormatError>)
        ensures
            self.draws(r, PromptEvent::Error(err@), WriteStrategy::Line),
    {
        let ghost event = PromptEvent::Error(err@);
        let mut buf = String::new();
        match self.theme.format_error(&mut buf, err) {
            Ok(()) => {
                proof {
                    lemma_sole_wording(self.theme, event, buf@);
                }
                Ok(Frame::new(buf, WriteStrategy::Line))
            },
            Err(e) => Err(e),
        }
    }

    /// Formats a question header, to be written as a prompt.
    pub fn prompt(&self, prompt: &str) -> (r: Result<Frame, FormatError>)
        ensures
            self.draws(r, PromptEvent::Prompt(prompt@), WriteStrategy::Prompt),
    {
        let ghost event = PromptEvent::Prompt(prompt@);
        let mut buf = String::new();
        match self.theme.format_prompt(&mut buf, prompt) {
            Ok(()) => {
                proof {
                    lemma_sole_wording(self.theme, event, buf@);
                }
                Ok(Frame::new(buf, WriteStrategy::Prompt))
            },
            Err(e) => Err(e),
        }
    }

    /// Formats an input prompt, to be written with the cursor staying on its
    /// line.
    pub fn input_prompt(
        &self,
        prompt: &str,
        default: Option<&str>,
    ) -> (r: Result<Frame, FormatError>)
        ensures
            self.draws(
                r,
                PromptEvent::SinglelinePrompt(prompt@, option_view(default)),
                WriteStrategy::Str,
            ),
    {
        let ghost event = PromptEvent::SinglelinePrompt(prompt@, option_view(default));
        let mut buf = String::new();
        match self.theme.format_singleline_prompt(&mut buf, prompt, default) {
            Ok(()) => {
                proof {
                    lemma_sole_wording(self.theme, event, buf@);
                }
                Ok(Frame::new(buf, WriteStrategy::Str))
            },
            Err(e) => Err(e),
        }
    }

    /// Formats a password prompt: a carriage return, so that the prompt
    /// overwrites what the terminal echoed, and the input prompt without a
    /// default. To be written with the cursor staying on its line.
    pub fn password_prompt(&self, prompt: &str) -> (r: Result<Frame, FormatError>)
        ensures
            self.theme().infallible() ==> r is Ok,
            r matches Ok(frame) ==> frame@.strategy == WriteStrategy::Str && exists|out: Seq<char>|
                #[trigger] self.theme().renders(PromptEvent::SinglelinePrompt(prompt@, None), out)
                    && frame@.text == seq!['\r'] + out,
    {
        let ghost event = PromptEvent::SinglelinePrompt(prompt@, None);
        let mut buf = String::new();
        buf.push('\r');
        assert(buf@ == seq!['\r']);
        match self.theme.format_singleline_prompt(&mut buf, prompt, None) {
            Ok(()) => {
                proof {
                    let out = choose|out: Seq<char>| #[trigger]
                        self.theme.renders(
                            PromptEvent::SinglelinePrompt(prompt@, option_view(None)),
                            out,
                        ) && buf@ == seq!['\r'] + out;
                    assert(self.theme().renders(event, out));
                }
                Ok(Frame::new(buf, WriteStrategy::Str))
            },
            Err(e) => Err(e),
        }
    }

    /// Formats a confirmation prompt, to be written with the cursor staying on
    /// its line.
    pub fn confirmation_prompt(
        &self,
        prompt: &str,
        default: Option<bool>,
    ) -> (r: Result<Frame, FormatError>)
        ensures
            self.draws(r, PromptEvent::ConfirmationPrompt(prompt@, default), WriteStrategy::Str),
    {
        let ghost event = PromptEvent::ConfirmationPrompt(prompt@, default);
        let mut buf = String::new();
        match self.theme.format_confirmation_prompt(&mut buf, prompt, default) {
            Ok(()) => {
                proof {
                    lemma_sole_wording(self.theme, event, buf@);
                }
                Ok(Frame::new(buf, WriteStrategy::Str))
            },
            Err(e) => Err(e),
        }
    }

    /// Formats a key prompt, to be written with the cursor staying on its line.
    pub fn key_prompt(
        &self,
        prompt: &str,
        default: Option<u8>,
        choices: &Vec<char>,
    ) -> (r: Result<Frame, FormatError>)
        ensures
            self.draws(r, PromptEvent::KeyPrompt(prompt@, default, choices@), WriteStrategy::Str),
    {
        let ghost event = PromptEvent::KeyPrompt(prompt@, default, choices@);
        let mut buf = String::new();
        match self.theme.format_key_prompt(&mut buf, prompt, default, choices) {
            Ok(()) => {
                proof {
                    lemma_sole_wording(self.theme, event, buf@);
                }
                Ok(Frame::new(buf, WriteStrategy::Str))
            },
            Err(e) => Err(e),
        }
    }

    /// Formats a committed yes/no answer, to be written as a prompt.
    pub fn confirmation_prompt_selection(
        &self,
        prompt: &str,
        sel: bool,
    ) -> (r: Result<Frame, FormatError>)
        ensures
            self.draws(r, PromptEvent::ConfirmationSelection(prompt@, sel), WriteStrategy::Prompt),
    {
        let ghost event = PromptEvent::ConfirmationSelection(prompt@, sel);
        let mut buf = String::new();
        match self.theme.format_confirmation_prompt_selection(&mut buf, prompt, sel) {
            Ok(()) => {
                proof {
                    lemma_sole_wording(self.theme, event, buf@);
                }
                Ok(Frame::new(buf, WriteStrategy::Prompt))
            },
            Err(e) => Err(e),
        }
    }

    /// Formats the key that was chosen as a committed single value, to be
    /// written as a prompt.
    pub fn key_prompt_selection(&self, prompt: &str, sel: char) -> (r: Result<Frame, FormatError>)
        ensures
            self.draws(r, PromptEvent::SingleSelection(prompt@, seq![sel]), WriteStrategy::Prompt),
    {
        let mut key = String::new();
        key.push(sel);
        assert(key@ == seq![sel]);
        self.single_prompt_selection(prompt, key.as_str())
    }

    /// Formats a committed single value, to be written as a prompt.
    pub fn single_prompt_selection(
        &self,
        prompt: &str,
        sel: &str,
    ) -> (r: Result<Frame, FormatError>)
        ensures
            self.draws(r, PromptEvent::SingleSelection(prompt@, sel@), WriteStrategy::Prompt),
    {
        let ghost event = PromptEvent::SingleSelection(prompt@, sel@);
        let mut buf = String::new();
        match self.theme.format_single_prompt_selection(&mut buf, prompt, sel) {
            Ok(()) => {
                proof {
                    lemma_sole_wording(self.theme, event, buf@);
                }
                Ok(Frame::new(buf, WriteStrategy::Prompt))
            },
            Err(e) => Err(e),
        }
    }

    /// Formats committed values, to be written as a prompt.
    pub fn multi_prompt_selection(
        &self,
        prompt: &str,
        selections: &[&str],
    ) -> (r: Result<Frame, FormatError>)
        ensures
            self.draws(
                r,
                PromptEvent::MultiSelection(prompt@, views(selections@)),
                WriteStrategy::Prompt,
            ),
    {
        let ghost event = PromptEvent::MultiSelection(prompt@, views(selections@));
        let mut buf = String::new();
        match self.theme.format_multi_prompt_selection(&mut buf, prompt, selections) {
            Ok(()) => {
                proof {
                    lemma_sole_wording(self.theme, event, buf@);
                }
                Ok(Frame::new(buf, WriteStrategy::Prompt))
            },
            Err(e) => Err(e),
        }
    }

    /// Formats a committed password, to be written as a prompt.
    pub fn password_prompt_selection(&self, prompt: &str) -> (r: Result<Frame, FormatError>)
        ensures
            self.draws(r, PromptEvent::PasswordSelection(prompt@), WriteStrategy::Prompt),
    {
        let ghost event = PromptEvent::PasswordSelection(prompt@);
        let mut buf = String::new();
        match self.theme.format_password_prompt_selection(&mut buf, prompt) {
            Ok(()) => {
                proof {
                    lemma_sole_wording(self.theme, event, buf@);
                }
                Ok(Frame::new(buf, WriteStrategy::Prompt))
            },
            Err(e) => Err(e),
        }
    }

    /// Formats one list item, to be written as a line.
    pub fn selection(&self, text: &str, style: SelectionStyle) -> (r: Result<Frame, FormatError>)
        ensures
            self.draws(r, PromptEvent::Selection(text@, style), WriteStrategy::Line),
    {
        let ghost event = PromptEvent::Selection(text@, style);
        let mut buf = String::new();
        match self.theme.format_selection(&mut buf, text, style) {
            Ok(()) => {
                proof {
                    lemma_sole_wording(self.theme, event, buf@);
                }
                Ok(Frame::new(buf, WriteStrategy::Line))
            },
            Err(e) => Err(e),
        }
    }
}

/// A sink that was empty holds exactly the wording that it took.
pub proof fn lemma_sole_wording<T: Theme + ?Sized>(theme: &T, event: PromptEvent, sink: Seq<char>)
    requires
        exists|out: Seq<char>| #[trigger]
            theme.renders(event, out) && sink == Seq::<char>::empty() + out,
    ensures
        theme.renders(event, sink),
{
    let out = choose|out: Seq<char>| #[trigger]
        theme.renders(event, out) && sink == Seq::<char>::empty() + out;
    assert(Seq::<char>::empty() + out == out);
}

/// Whatever was written before, clearing asks the terminal for the height
/// and the prompt height as they stand, taken together, and leaves both at
/// zero.
pub proof fn lemma_clear_erases_what_was_drawn(start: LineCounts, writes: Seq<FrameView>)
    ensures
        ({
            let drawn = write_all(start, writes);
            &&& drawn.erasable() == drawn.height + drawn.prompt_height
            &&& drawn.clear().height == 0
            &&& drawn.clear().prompt_height == 0
            &&& drawn.clear().erasable() == 0
            &&& drawn.clear().prompts_reset_height == start.prompts_reset_height
        }),
    decreases writes.len(),
{
    if writes.len() > 0 {
        lemma_clear_erases_what_was_drawn(start, writes.drop_last());
    }
}

/// As long as no write closes an epoch, the lines to erase are those that
/// were there before and those that were written since.
pub proof fn lemma_lines_accumulate(start: LineCounts, writes: Seq<FrameView>)
    requires
        none_rolls_over(start, writes),
    ensures
        write_all(start, writes).erasable() == start.erasable() + total_lines(writes),
        write_all(start, writes).prompt_height == start.prompt_height,
        write_all(start, writes).prompts_reset_height == start.prompts_reset_height,
    decreases writes.len(),
{
    if writes.len() > 0 {
        let before = writes.drop_last();
        assert forall|i: int| 0 <= i < before.len() implies !((#[trigger] before[i]).strategy
            is Prompt) || !start.prompts_reset_height by {
            assert(before[i] == writes[i]);
        }
        lemma_lines_accumulate(start, before);
        assert(writes.last() == writes[writes.len() - 1]);
    }
}

/// Where prompts reset the height, a prompt starts a new epoch: the height
/// counted so far and the lines of the prompt become the prompt height, the
/// height starts again at zero, and the prompt height of the epoch before is
/// given up.
pub proof fn lemma_prompt_rolls_height_over(counts: LineCounts, text: Seq<char>)
    requires
        counts.prompts_reset_height,
    ensures
        counts.write(WriteStrategy::Prompt, text).height == 0,
        counts.write(WriteStrategy::Prompt, text).prompt_height == counts.height + line_breaks(text)
            + 1,
{
}

} // verus!
