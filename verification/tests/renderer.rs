use console::Style;
use term_theme::{
    count_line_breaks, count_wrapped_items, ColoredTheme, CustomPromptCharacterTheme, FormatError,
    Frame, SelectionStyle, SimpleTheme, TermThemeRenderer, Theme, WriteStrategy,
};

#[test]
fn line_breaks_are_counted() {
    assert_eq!(count_line_breaks(""), 0);
    assert_eq!(count_line_breaks("one line"), 0);
    assert_eq!(count_line_breaks("a\nb"), 1);
    assert_eq!(count_line_breaks("\n\n\n"), 3);
    assert_eq!(count_line_breaks("é\n❯\n"), 2);
    assert_eq!(count_line_breaks("a\r\nb\r"), 1);
}

#[test]
fn wrapped_items_are_counted() {
    assert_eq!(count_wrapped_items(&[10, 200], 80), 1);
    assert_eq!(count_wrapped_items(&[], 80), 0);
    assert_eq!(count_wrapped_items(&[80, 81, 79], 80), 1);
    assert_eq!(count_wrapped_items(&[1, 1, 1], 0), 3);
    assert_eq!(count_wrapped_items(&[0, 0], 0), 0);
    assert_eq!(count_wrapped_items(&[usize::MAX, 70000], u16::MAX), 2);
}

#[test]
fn a_frame_keeps_text_and_strategy() {
    let frame = Frame::new(String::from("a\nb\n"), WriteStrategy::Line);
    assert_eq!(frame.text(), "a\nb\n");
    assert_eq!(frame.strategy(), WriteStrategy::Line);
    assert_eq!(frame.line_breaks(), 2);
    assert!(frame.ends_line());
    assert!(Frame::new(String::new(), WriteStrategy::Prompt).ends_line());
    assert!(!Frame::new(String::new(), WriteStrategy::Str).ends_line());
}

#[test]
fn a_new_renderer_has_drawn_nothing() {
    let theme = SimpleTheme;
    let renderer = TermThemeRenderer::new(&theme);
    assert_eq!(renderer.height(), 0);
    assert_eq!(renderer.prompt_height(), 0);
    assert_eq!(renderer.clear(), 0);
}

#[test]
fn add_line_counts_one_line() {
    let theme = SimpleTheme;
    let mut renderer = TermThemeRenderer::new(&theme);
    assert!(renderer.can_add_line());
    renderer.add_line();
    assert_eq!(renderer.height(), 1);
    renderer.add_line();
    assert_eq!(renderer.height(), 2);
    assert_eq!(renderer.prompt_height(), 0);
}

#[test]
fn render_methods_choose_their_strategy() {
    let theme = SimpleTheme;
    let renderer = TermThemeRenderer::new(&theme);
    assert_eq!(renderer.error("bad").unwrap().strategy(), WriteStrategy::Line);
    assert_eq!(renderer.prompt("Pick").unwrap().strategy(), WriteStrategy::Prompt);
    assert_eq!(renderer.input_prompt("Name", None).unwrap().strategy(), WriteStrategy::Str);
    assert_eq!(renderer.password_prompt("Password").unwrap().strategy(), WriteStrategy::Str);
    assert_eq!(renderer.confirmation_prompt("Go", None).unwrap().strategy(), WriteStrategy::Str);
    assert_eq!(
        renderer.key_prompt("Go", None, &vec!['y', 'n']).unwrap().strategy(),
        WriteStrategy::Str
    );
    assert_eq!(
        renderer.confirmation_prompt_selection("Go", true).unwrap().strategy(),
        WriteStrategy::Prompt
    );
    assert_eq!(renderer.key_prompt_selection("Go", 'y').unwrap().strategy(), WriteStrategy::Prompt);
    assert_eq!(
        renderer.single_prompt_selection("Colour", "red").unwrap().strategy(),
        WriteStrategy::Prompt
    );
    assert_eq!(
        renderer.multi_prompt_selection("Colours", &["red"]).unwrap().strategy(),
        WriteStrategy::Prompt
    );
    assert_eq!(
        renderer.password_prompt_selection("Password").unwrap().strategy(),
        WriteStrategy::Prompt
    );
    assert_eq!(
        renderer.selection("item", SelectionStyle::MenuSelected).unwrap().strategy(),
        WriteStrategy::Line
    );
    // Formatting alone counts nothing.
    assert_eq!(renderer.height(), 0);
    assert_eq!(renderer.prompt_height(), 0);
}

#[test]
fn render_methods_word_events_by_the_theme() {
    let theme = SimpleTheme;
    let renderer = TermThemeRenderer::new(&theme);
    assert_eq!(renderer.error("bad").unwrap().text(), "error: bad");
    assert_eq!(renderer.prompt("Pick").unwrap().text(), "Pick:");
    assert_eq!(renderer.input_prompt("Name", Some("Bob")).unwrap().text(), "Name [Bob]: ");
    assert_eq!(renderer.password_prompt("Password").unwrap().text(), "\rPassword: ");
    assert_eq!(renderer.confirmation_prompt("Go", Some(true)).unwrap().text(), "Go [Y/n] ");
    assert_eq!(
        renderer.key_prompt("Go", Some(1), &vec!['y', 'n', 'p']).unwrap().text(),
        "Go [y/N/p] "
    );
    assert_eq!(renderer.confirmation_prompt_selection("Go", false).unwrap().text(), "Go no");
    assert_eq!(renderer.key_prompt_selection("Go", 'p').unwrap().text(), "Go: p");
    assert_eq!(renderer.single_prompt_selection("Colour", "red").unwrap().text(), "Colour: red");
    assert_eq!(
        renderer.multi_prompt_selection("Colours", &["red", "blue"]).unwrap().text(),
        "Colours: red, blue"
    );
    assert_eq!(
        renderer.password_prompt_selection("Password").unwrap().text(),
        "Password: [hidden]"
    );
    assert_eq!(
        renderer.selection("item", SelectionStyle::CheckboxCheckedSelected).unwrap().text(),
        "> [x] item"
    );

    let custom = CustomPromptCharacterTheme::new('>');
    let renderer = TermThemeRenderer::new(&custom);
    assert_eq!(renderer.password_prompt("Password").unwrap().text(), "\rPassword> ");
    assert_eq!(renderer.key_prompt_selection("Go", 'p').unwrap().text(), "Go> p");
}

#[test]
fn a_renderer_takes_a_theme_behind_a_trait_object() {
    let theme = ColoredTheme::default();
    let handle: &dyn Theme = &theme;
    let mut renderer: TermThemeRenderer<dyn Theme> = TermThemeRenderer::new(handle);
    let frame = renderer.selection("item", SelectionStyle::MenuSelected).unwrap();
    renderer.commit(&frame);
    assert_eq!(renderer.height(), 1);
}

#[test]
fn a_line_counts_one_more_than_its_line_breaks() {
    let theme = SimpleTheme;
    let mut renderer = TermThemeRenderer::new(&theme);
    let frame = renderer.error("bad").unwrap();
    assert!(renderer.can_commit(&frame));
    renderer.commit(&frame);
    assert_eq!(renderer.height(), 1);
    let frame = renderer.error("first\nsecond\nthird").unwrap();
    renderer.commit(&frame);
    assert_eq!(renderer.height(), 4);
    assert_eq!(renderer.prompt_height(), 0);
}

#[test]
fn a_str_counts_its_line_breaks_only() {
    let theme = SimpleTheme;
    let mut renderer = TermThemeRenderer::new(&theme);
    let frame = renderer.input_prompt("Name", None).unwrap();
    renderer.commit(&frame);
    assert_eq!(renderer.height(), 0);
    let frame = renderer.input_prompt("Your\nname", Some("Bob")).unwrap();
    renderer.commit(&frame);
    assert_eq!(renderer.height(), 1);
    assert_eq!(renderer.prompt_height(), 0);
}

#[test]
fn a_prompt_rolls_the_height_over() {
    let theme = SimpleTheme;
    let mut renderer = TermThemeRenderer::new(&theme);
    renderer.set_prompts_reset_height(true);
    renderer.add_line();
    renderer.add_line();
    let frame = renderer.prompt("Name").unwrap();
    assert_eq!(frame.text(), "Name:");
    renderer.commit(&frame);
    assert_eq!(renderer.height(), 0);
    assert_eq!(renderer.prompt_height(), 3);
}

#[test]
fn a_prompt_counts_as_a_line_where_prompts_do_not_reset() {
    let theme = SimpleTheme;
    let mut renderer = TermThemeRenderer::new(&theme);
    renderer.set_prompts_reset_height(false);
    renderer.add_line();
    renderer.add_line();
    let frame = renderer.prompt("Name").unwrap();
    renderer.commit(&frame);
    assert_eq!(renderer.height(), 3);
    assert_eq!(renderer.prompt_height(), 0);
}

#[test]
fn a_second_prompt_replaces_the_prompt_height() {
    let theme = SimpleTheme;
    let mut renderer = TermThemeRenderer::new(&theme);
    let frame = renderer.prompt("One\nTwo").unwrap();
    renderer.commit(&frame);
    assert_eq!(renderer.prompt_height(), 2);
    let frame = renderer.selection("item", SelectionStyle::MenuSelected).unwrap();
    renderer.commit(&frame);
    assert_eq!(renderer.height(), 1);
    let frame = renderer.single_prompt_selection("Pick", "item").unwrap();
    renderer.commit(&frame);
    assert_eq!(renderer.height(), 0);
    assert_eq!(renderer.prompt_height(), 2);
}

#[test]
fn a_str_never_rolls_the_height_over() {
    let theme = SimpleTheme;
    let mut renderer = TermThemeRenderer::new(&theme);
    renderer.add_line();
    let frame = renderer.password_prompt("Pass\nword").unwrap();
    renderer.commit(&frame);
    assert_eq!(renderer.height(), 2);
    assert_eq!(renderer.prompt_height(), 0);
}

#[test]
fn clear_asks_for_body_and_prompt_and_forgets_both() {
    let theme = SimpleTheme;
    let mut renderer = TermThemeRenderer::new(&theme);
    let frame = renderer.prompt("Pick").unwrap();
    renderer.commit(&frame);
    for item in ["a", "b", "c"] {
        let frame = renderer.selection(item, SelectionStyle::MenuUnselected).unwrap();
        renderer.commit(&frame);
    }
    let frame = renderer.error("bad\nworse").unwrap();
    renderer.commit(&frame);
    assert_eq!(renderer.height(), 5);
    assert_eq!(renderer.prompt_height(), 1);
    assert_eq!(renderer.clear(), 6);
    // Asking changes nothing.
    assert_eq!(renderer.height(), 5);
    renderer.cleared();
    assert_eq!(renderer.height(), 0);
    assert_eq!(renderer.prompt_height(), 0);
    assert_eq!(renderer.clear(), 0);
}

#[test]
fn clear_preserve_prompt_adds_a_row_for_each_wrapped_item() {
    let theme = SimpleTheme;
    let mut renderer = TermThemeRenderer::new(&theme);
    let frame = renderer.prompt("Pick").unwrap();
    renderer.commit(&frame);
    renderer.add_line();
    renderer.add_line();
    assert_eq!(renderer.clear_preserve_prompt(&[10, 200], 80), Some(3));
    assert_eq!(renderer.clear_preserve_prompt(&[10, 20], 80), Some(2));
    assert_eq!(renderer.clear_preserve_prompt(&[], 80), Some(2));
    assert_eq!(renderer.clear_preserve_prompt(&[81, 200, 80], 80), Some(4));
    renderer.cleared_preserve_prompt();
    assert_eq!(renderer.height(), 0);
    assert_eq!(renderer.prompt_height(), 1);
}

#[test]
fn a_failed_step_leaves_the_counts() {
    let theme = SimpleTheme;
    let mut renderer = TermThemeRenderer::new(&theme);
    renderer.add_line();
    // A frame that the terminal never took is simply dropped.
    let frame = renderer.prompt("Pick").unwrap();
    drop(frame);
    // So is the answer to a clear that the terminal refused.
    let lines = renderer.clear();
    assert_eq!(lines, 1);
    assert_eq!(renderer.height(), 1);
    assert_eq!(renderer.prompt_height(), 0);
}

struct Refusing;

impl Theme for Refusing {
    fn format_prompt(&self, _: &mut String, _: &str) -> Result<(), FormatError> {
        Err(FormatError)
    }

    fn format_singleline_prompt(
        &self,
        _: &mut String,
        _: &str,
        _: Option<&str>,
    ) -> Result<(), FormatError> {
        Err(FormatError)
    }

    fn format_error(&self, f: &mut String, err: &str) -> Result<(), FormatError> {
        f.push_str(err);
        Err(FormatError)
    }

    fn format_confirmation_prompt(
        &self,
        _: &mut String,
        _: &str,
        _: Option<bool>,
    ) -> Result<(), FormatError> {
        Err(FormatError)
    }

    fn format_key_prompt(
        &self,
        _: &mut String,
        _: &str,
        _: Option<u8>,
        _: &Vec<char>,
    ) -> Result<(), FormatError> {
        Err(FormatError)
    }

    fn format_confirmation_prompt_selection(
        &self,
        _: &mut String,
        _: &str,
        _: bool,
    ) -> Result<(), FormatError> {
        Err(FormatError)
    }

    fn format_single_prompt_selection(
        &self,
        _: &mut String,
        _: &str,
        _: &str,
    ) -> Result<(), FormatError> {
        Err(FormatError)
    }

    fn format_multi_prompt_selection(
        &self,
        _: &mut String,
        _: &str,
        _: &[&str],
    ) -> Result<(), FormatError> {
        Err(FormatError)
    }

    fn format_password_prompt_selection(&self, _: &mut String, _: &str) -> Result<(), FormatError> {
        Err(FormatError)
    }

    fn format_selection(
        &self,
        f: &mut String,
        text: &str,
        _: SelectionStyle,
    ) -> Result<(), FormatError> {
        f.push_str("- ");
        f.push_str(text);
        Ok(())
    }
}

#[test]
fn a_theme_that_fails_gives_no_frame() {
    let theme = Refusing;
    let mut renderer = TermThemeRenderer::new(&theme);
    renderer.add_line();
    assert_eq!(renderer.error("bad").err(), Some(FormatError));
    assert_eq!(renderer.prompt("Pick").err(), Some(FormatError));
    assert_eq!(renderer.input_prompt("Name", None).err(), Some(FormatError));
    assert_eq!(renderer.password_prompt("Password").err(), Some(FormatError));
    assert_eq!(renderer.confirmation_prompt("Go", None).err(), Some(FormatError));
    assert_eq!(renderer.key_prompt("Go", None, &vec!['y']).err(), Some(FormatError));
    assert_eq!(renderer.confirmation_prompt_selection("Go", true).err(), Some(FormatError));
    assert_eq!(renderer.key_prompt_selection("Go", 'y').err(), Some(FormatError));
    assert_eq!(renderer.single_prompt_selection("Go", "y").err(), Some(FormatError));
    assert_eq!(renderer.multi_prompt_selection("Go", &["y"]).err(), Some(FormatError));
    assert_eq!(renderer.password_prompt_selection("Go").err(), Some(FormatError));
    assert_eq!(renderer.height(), 1);
    assert_eq!(renderer.prompt_height(), 0);
    // The wording of a theme of the caller's own is framed like any other.
    let frame = renderer.selection("item", SelectionStyle::MenuSelected).unwrap();
    assert_eq!(frame.text(), "- item");
    renderer.commit(&frame);
    assert_eq!(renderer.height(), 2);
}

#[test]
fn styling_leaves_the_line_count_alone() {
    let theme = ColoredTheme {
        defaults_style: Style::new().yellow().bold().force_styling(true),
        prompts_style: Style::new().bold().force_styling(true),
        prefixes_style: Style::new().cyan().force_styling(true),
        values_style: Style::new().green().force_styling(true),
        errors_style: Style::new().red().force_styling(true),
        selected_style: Style::new().cyan().bold().force_styling(true),
        unselected_style: Style::new().force_styling(true),
        inline_selections: true,
        is_sort: true,
    };
    let mut renderer = TermThemeRenderer::new(&theme);
    let frame = renderer.prompt("Pick\none").unwrap();
    renderer.commit(&frame);
    let frame = renderer.error("bad\nworse").unwrap();
    renderer.commit(&frame);
    let frame = renderer.multi_prompt_selection("Pick", &["a\nb", "c"]).unwrap();
    assert_eq!(frame.line_breaks(), 1);
    assert_eq!(renderer.height(), 2);
    assert_eq!(renderer.prompt_height(), 2);
    assert_eq!(renderer.clear(), 4);
}

#[test]
fn counting_stops_short_of_overflow() {
    let theme = SimpleTheme;
    let mut renderer = TermThemeRenderer::new(&theme);
    renderer.add_line();
    assert_eq!(renderer.clear_preserve_prompt(&[usize::MAX], 80), Some(2));
    let frame = renderer.error("bad").unwrap();
    assert!(renderer.can_commit(&frame));
    assert!(renderer.can_add_line());
}
