use console::{strip_ansi_codes, Style};
use term_theme::{
    get_default_theme, key_choices_text, ColoredTheme, ColorfulTheme, CustomPromptCharacterTheme,
    SelectionStyle, SimpleTheme, Theme,
};

fn plain_style() -> Style {
    Style::new().force_styling(false)
}

fn colorful_without_styling() -> ColorfulTheme {
    ColorfulTheme {
        defaults_style: plain_style(),
        error_style: plain_style(),
        indicator_style: plain_style(),
        inactive_style: plain_style(),
        active_style: plain_style(),
        yes_style: plain_style(),
        no_style: plain_style(),
        values_style: plain_style(),
    }
}

fn colored_without_styling() -> ColoredTheme {
    ColoredTheme {
        defaults_style: plain_style(),
        prompts_style: plain_style(),
        prefixes_style: plain_style(),
        values_style: plain_style(),
        errors_style: plain_style(),
        selected_style: plain_style(),
        unselected_style: plain_style(),
        inline_selections: true,
        is_sort: true,
    }
}

const ALL_STYLES: [SelectionStyle; 6] = [
    SelectionStyle::CheckboxUncheckedSelected,
    SelectionStyle::CheckboxUncheckedUnselected,
    SelectionStyle::CheckboxCheckedSelected,
    SelectionStyle::CheckboxCheckedUnselected,
    SelectionStyle::MenuSelected,
    SelectionStyle::MenuUnselected,
];

#[test]
fn key_choices_uppercase_the_default_only() {
    let choices = vec!['y', 'n', 'p'];
    assert_eq!(key_choices_text(Some(1), &choices), "y/N/p");
    assert_eq!(key_choices_text(Some(0), &choices), "Y/n/p");
    assert_eq!(key_choices_text(Some(2), &choices), "y/n/P");
}

#[test]
fn key_choices_without_default_stay_as_they_are() {
    let choices = vec!['y', 'n', 'p'];
    assert_eq!(key_choices_text(None, &choices), "y/n/p");
}

#[test]
fn key_choices_edge_cases() {
    assert_eq!(key_choices_text(Some(0), &Vec::new()), "");
    assert_eq!(key_choices_text(None, &Vec::new()), "");
    assert_eq!(key_choices_text(Some(0), &vec!['q']), "Q");
    assert_eq!(key_choices_text(None, &vec!['q']), "q");
    // A default past the last choice marks nothing.
    assert_eq!(key_choices_text(Some(7), &vec!['a', 'b']), "a/b");
    // Only ASCII letters have an upper case here.
    assert_eq!(key_choices_text(Some(0), &vec!['é', '1']), "é/1");
    assert_eq!(key_choices_text(Some(1), &vec!['é', '1']), "é/1");
    assert_eq!(key_choices_text(Some(0), &vec!['Z', 'z']), "Z/z");
    assert_eq!(key_choices_text(Some(1), &vec!['Z', 'z']), "Z/Z");
}

#[test]
fn key_choices_without_default_mark_no_late_choice() {
    let choices: Vec<char> = std::iter::repeat('a').take(120).collect();
    let keys = key_choices_text(None, &choices);
    assert_eq!(keys.len(), 239);
    assert!(!keys.contains('A'));
    let marked = key_choices_text(Some(100), &choices);
    assert_eq!(marked.chars().nth(200), Some('A'));
    assert_eq!(marked.chars().filter(|c| *c == 'A').count(), 1);
}

#[test]
fn trait_helper_renders_key_choices() {
    let choices = vec!['y', 'n', 'p'];
    assert_eq!(SimpleTheme._format_key_prompt(Some(1), &choices), "y/N/p");
    assert_eq!(colored_without_styling()._format_key_prompt(None, &choices), "y/n/p");
}

#[test]
fn simple_theme_prompts() {
    let theme = SimpleTheme;
    let mut f = String::new();
    theme.format_prompt(&mut f, "Pick one").unwrap();
    assert_eq!(f, "Pick one:");

    let mut f = String::new();
    theme.format_singleline_prompt(&mut f, "Name", Some("Bob")).unwrap();
    assert_eq!(f, "Name [Bob]: ");

    let mut f = String::new();
    theme.format_singleline_prompt(&mut f, "Name", None).unwrap();
    assert_eq!(f, "Name: ");

    let mut f = String::new();
    theme.format_error(&mut f, "not a number").unwrap();
    assert_eq!(f, "error: not a number");
}

#[test]
fn simple_theme_appends_to_the_sink() {
    let theme = SimpleTheme;
    let mut f = String::from("> ");
    theme.format_prompt(&mut f, "Pick").unwrap();
    theme.format_error(&mut f, "no").unwrap();
    assert_eq!(f, "> Pick:error: no");
}

#[test]
fn simple_theme_confirmation_hints() {
    let theme = SimpleTheme;
    let mut f = String::new();
    theme.format_confirmation_prompt(&mut f, "Continue?", Some(true)).unwrap();
    assert_eq!(f, "Continue? [Y/n] ");

    let mut f = String::new();
    theme.format_confirmation_prompt(&mut f, "Continue?", Some(false)).unwrap();
    assert_eq!(f, "Continue? [y/N] ");

    let mut f = String::new();
    theme.format_confirmation_prompt(&mut f, "Continue?", None).unwrap();
    assert_eq!(f, "Continue?");
}

#[test]
fn simple_theme_key_prompt() {
    let theme = SimpleTheme;
    let mut f = String::new();
    theme.format_key_prompt(&mut f, "Continue?", Some(1), &vec!['y', 'n', 'p']).unwrap();
    assert_eq!(f, "Continue? [y/N/p] ");

    let mut f = String::new();
    theme.format_key_prompt(&mut f, "Continue?", None, &vec!['y', 'n', 'p']).unwrap();
    assert_eq!(f, "Continue? [y/n/p] ");
}

#[test]
fn simple_theme_selections() {
    let theme = SimpleTheme;
    let mut f = String::new();
    theme.format_confirmation_prompt_selection(&mut f, "Continue?", true).unwrap();
    assert_eq!(f, "Continue? yes");

    let mut f = String::new();
    theme.format_confirmation_prompt_selection(&mut f, "Continue?", false).unwrap();
    assert_eq!(f, "Continue? no");

    let mut f = String::new();
    theme.format_single_prompt_selection(&mut f, "Colour", "red").unwrap();
    assert_eq!(f, "Colour: red");

    let mut f = String::new();
    theme.format_multi_prompt_selection(&mut f, "Colours", &["red", "blue", "green"]).unwrap();
    assert_eq!(f, "Colours: red, blue, green");

    let mut f = String::new();
    theme.format_multi_prompt_selection(&mut f, "Colours", &["red"]).unwrap();
    assert_eq!(f, "Colours: red");

    let mut f = String::new();
    theme.format_multi_prompt_selection(&mut f, "Colours", &[]).unwrap();
    assert_eq!(f, "Colours: ");
}

#[test]
fn simple_theme_list_items() {
    let theme = SimpleTheme;
    let expected = ["> [ ] item", "  [ ] item", "> [x] item", "  [x] item", "> item", "  item"];
    for (style, want) in ALL_STYLES.iter().zip(expected.iter()) {
        let mut f = String::new();
        theme.format_selection(&mut f, "item", *style).unwrap();
        assert_eq!(&f, want);
    }
}

#[test]
fn password_selection_shows_a_mask() {
    let mut f = String::new();
    SimpleTheme.format_password_prompt_selection(&mut f, "Password").unwrap();
    assert_eq!(f, "Password: [hidden]");

    let mut f = String::new();
    let custom = CustomPromptCharacterTheme::new('>');
    custom.format_password_prompt_selection(&mut f, "Password").unwrap();
    assert_eq!(f, "Password> [hidden]");

    let mut f = String::new();
    colorful_without_styling().format_password_prompt_selection(&mut f, "Password").unwrap();
    assert_eq!(f, "Password: [hidden]");

    let mut f = String::new();
    colored_without_styling().format_password_prompt_selection(&mut f, "Password").unwrap();
    assert_eq!(f, "✔ Password · ********");
}

#[test]
fn custom_prompt_character_theme() {
    let theme = CustomPromptCharacterTheme::new('?');
    let mut f = String::new();
    theme.format_prompt(&mut f, "Pick one").unwrap();
    assert_eq!(f, "Pick one?");

    let mut f = String::new();
    theme.format_singleline_prompt(&mut f, "Name", Some("Bob")).unwrap();
    assert_eq!(f, "Name [Bob]? ");

    let mut f = String::new();
    theme.format_singleline_prompt(&mut f, "Name", None).unwrap();
    assert_eq!(f, "Name? ");

    let mut f = String::new();
    theme.format_single_prompt_selection(&mut f, "Colour", "red").unwrap();
    assert_eq!(f, "Colour? red");

    let mut f = String::new();
    theme.format_multi_prompt_selection(&mut f, "Colours", &["red", "blue"]).unwrap();
    assert_eq!(f, "Colours? red, blue");
}

#[test]
fn custom_prompt_character_theme_keeps_the_other_wordings() {
    let theme = CustomPromptCharacterTheme::new('?');
    let mut f = String::new();
    theme.format_error(&mut f, "bad").unwrap();
    assert_eq!(f, "error: bad");

    let mut f = String::new();
    theme.format_confirmation_prompt(&mut f, "Sure", Some(false)).unwrap();
    assert_eq!(f, "Sure [y/N] ");

    let mut f = String::new();
    theme.format_key_prompt(&mut f, "Sure", Some(0), &vec!['y', 'n']).unwrap();
    assert_eq!(f, "Sure [Y/n] ");

    let mut f = String::new();
    theme.format_confirmation_prompt_selection(&mut f, "Sure", true).unwrap();
    assert_eq!(f, "Sure yes");

    let mut f = String::new();
    theme.format_selection(&mut f, "item", SelectionStyle::MenuSelected).unwrap();
    assert_eq!(f, "> item");
}

#[test]
fn custom_prompt_character_defaults_to_a_colon() {
    let theme = CustomPromptCharacterTheme::default();
    let simple = SimpleTheme;
    let mut a = String::new();
    let mut b = String::new();
    theme.format_singleline_prompt(&mut a, "Name", Some("Bob")).unwrap();
    simple.format_singleline_prompt(&mut b, "Name", Some("Bob")).unwrap();
    assert_eq!(a, "Name [Bob]: ");
    assert_eq!(a, b);
}

#[test]
fn default_theme_is_the_simple_theme() {
    let theme = get_default_theme();
    let mut f = String::new();
    theme.format_prompt(&mut f, "Pick").unwrap();
    assert_eq!(f, "Pick:");
}

#[test]
fn formatting_twice_gives_the_same_text() {
    let themes: [&dyn Theme; 4] = [
        &SimpleTheme,
        &CustomPromptCharacterTheme::new('#'),
        &colorful_without_styling(),
        &colored_without_styling(),
    ];
    for theme in themes.iter() {
        let mut first = String::new();
        let mut second = String::new();
        theme.format_multi_prompt_selection(&mut first, "Pick", &["a", "b"]).unwrap();
        theme.format_multi_prompt_selection(&mut second, "Pick", &["a", "b"]).unwrap();
        assert_eq!(first, second);
        let mut first = String::new();
        let mut second = String::new();
        theme.format_key_prompt(&mut first, "Go", Some(1), &vec!['y', 'n']).unwrap();
        theme.format_key_prompt(&mut second, "Go", Some(1), &vec!['y', 'n']).unwrap();
        assert_eq!(first, second);
    }
}

#[test]
fn colorful_theme_wording() {
    let theme = colorful_without_styling();
    let mut f = String::new();
    theme.format_prompt(&mut f, "Pick").unwrap();
    assert_eq!(f, "Pick:");

    let mut f = String::new();
    theme.format_singleline_prompt(&mut f, "Name", Some("Bob")).unwrap();
    assert_eq!(f, "Name [Bob]: ");

    let mut f = String::new();
    theme.format_singleline_prompt(&mut f, "Name", None).unwrap();
    assert_eq!(f, "Name: ");

    let mut f = String::new();
    theme.format_error(&mut f, "bad").unwrap();
    assert_eq!(f, "error: bad");

    let mut f = String::new();
    theme.format_key_prompt(&mut f, "Go", Some(1), &vec!['y', 'n', 'p']).unwrap();
    assert_eq!(f, "Go [y/N/p] ");

    let mut f = String::new();
    theme.format_confirmation_prompt_selection(&mut f, "Go", true).unwrap();
    assert_eq!(f, "Go yes");

    let mut f = String::new();
    theme.format_confirmation_prompt_selection(&mut f, "Go", false).unwrap();
    assert_eq!(f, "Go no");

    let mut f = String::new();
    theme.format_single_prompt_selection(&mut f, "Colour", "red").unwrap();
    assert_eq!(f, "Colour: red");

    let mut f = String::new();
    theme.format_multi_prompt_selection(&mut f, "Colours", &["red", "blue"]).unwrap();
    assert_eq!(f, "Colours: red, blue");

    let mut f = String::new();
    theme.format_multi_prompt_selection(&mut f, "Colours", &[]).unwrap();
    assert_eq!(f, "Colours: ");
}

#[test]
fn colorful_theme_confirmation_hints() {
    let theme = colorful_without_styling();
    let mut f = String::new();
    theme.format_confirmation_prompt(&mut f, "Go", Some(true)).unwrap();
    assert_eq!(f, "Go [Y/n] ");

    let mut f = String::new();
    theme.format_confirmation_prompt(&mut f, "Go", Some(false)).unwrap();
    assert_eq!(f, "Go [y/N] ");

    let mut f = String::new();
    theme.format_confirmation_prompt(&mut f, "Go", None).unwrap();
    assert_eq!(f, "Go");
}

#[test]
fn colorful_theme_list_items() {
    let theme = colorful_without_styling();
    let expected = ["> [ ] item", "  [ ] item", "> [x] item", "  [x] item", "> item", "  item"];
    for (style, want) in ALL_STYLES.iter().zip(expected.iter()) {
        let mut f = String::new();
        theme.format_selection(&mut f, "item", *style).unwrap();
        assert_eq!(&f, want);
    }
}

#[test]
fn colorful_theme_styles_its_parts() {
    let theme = ColorfulTheme {
        defaults_style: Style::new().dim().force_styling(true),
        error_style: Style::new().red().force_styling(true),
        indicator_style: Style::new().cyan().bold().force_styling(true),
        inactive_style: Style::new().dim().force_styling(true),
        active_style: Style::new().force_styling(true),
        yes_style: Style::new().green().force_styling(true),
        no_style: Style::new().red().force_styling(true),
        values_style: Style::new().cyan().force_styling(true),
    };
    let mut f = String::new();
    theme.format_error(&mut f, "bad").unwrap();
    assert_eq!(f, "\u{1b}[31merror\u{1b}[0m: bad");

    let mut f = String::new();
    theme.format_singleline_prompt(&mut f, "Name", Some("Bob")).unwrap();
    assert_eq!(f, "Name [\u{1b}[2mBob\u{1b}[0m]: ");

    let mut f = String::new();
    theme.format_confirmation_prompt(&mut f, "Go", Some(true)).unwrap();
    assert_eq!(f, "Go \u{1b}[2m[Y/n]\u{1b}[0m ");

    let mut f = String::new();
    theme.format_confirmation_prompt_selection(&mut f, "Go", true).unwrap();
    assert_eq!(f, "Go \u{1b}[32myes\u{1b}[0m");

    let mut f = String::new();
    theme.format_confirmation_prompt_selection(&mut f, "Go", false).unwrap();
    assert_eq!(f, "Go \u{1b}[31mno\u{1b}[0m");

    let mut f = String::new();
    theme.format_multi_prompt_selection(&mut f, "Colours", &["red", "blue"]).unwrap();
    assert_eq!(f, "Colours: \u{1b}[36mred\u{1b}[0m, \u{1b}[36mblue\u{1b}[0m");

    let mut f = String::new();
    theme.format_password_prompt_selection(&mut f, "Password").unwrap();
    assert_eq!(f, "Password: \u{1b}[36m[hidden]\u{1b}[0m");

    let mut f = String::new();
    theme.format_selection(&mut f, "item", SelectionStyle::CheckboxCheckedSelected).unwrap();
    assert_eq!(f, "\u{1b}[36m\u{1b}[1m>\u{1b}[0m [\u{1b}[36m\u{1b}[1mx\u{1b}[0m] item");

    let mut f = String::new();
    theme.format_selection(&mut f, "item", SelectionStyle::CheckboxCheckedUnselected).unwrap();
    assert_eq!(f, "  [\u{1b}[36m\u{1b}[1mx\u{1b}[0m] \u{1b}[2mitem\u{1b}[0m");

    let mut f = String::new();
    theme.format_selection(&mut f, "item", SelectionStyle::MenuUnselected).unwrap();
    assert_eq!(f, "  \u{1b}[2mitem\u{1b}[0m");
}

#[test]
fn default_colorful_theme_reads_as_the_plain_wording() {
    let theme = ColorfulTheme::default();
    let mut f = String::new();
    theme.format_error(&mut f, "bad").unwrap();
    assert_eq!(strip_ansi_codes(&f), "error: bad");

    let mut f = String::new();
    theme.format_selection(&mut f, "item", SelectionStyle::CheckboxCheckedSelected).unwrap();
    assert_eq!(strip_ansi_codes(&f), "> [x] item");
}

#[test]
fn colored_theme_wording() {
    let theme = colored_without_styling();
    let mut f = String::new();
    theme.format_error(&mut f, "bad").unwrap();
    assert_eq!(f, "✘ bad");

    let mut f = String::new();
    theme.format_prompt(&mut f, "Pick").unwrap();
    assert_eq!(f, "? Pick ›");

    let mut f = String::new();
    theme.format_singleline_prompt(&mut f, "Name", Some("Bob")).unwrap();
    assert_eq!(f, "? Name (Bob) › ");

    let mut f = String::new();
    theme.format_singleline_prompt(&mut f, "Name", None).unwrap();
    assert_eq!(f, "? Name › ");

    let mut f = String::new();
    theme.format_single_prompt_selection(&mut f, "Colour", "red").unwrap();
    assert_eq!(f, "✔ Colour · red");

    let mut f = String::new();
    theme.format_key_prompt(&mut f, "Go", Some(1), &vec!['y', 'n', 'p']).unwrap();
    assert_eq!(f, "? Go (y/N/p) › ");

    let mut f = String::new();
    theme.format_key_prompt(&mut f, "Go", None, &vec!['y', 'n', 'p']).unwrap();
    assert_eq!(f, "? Go (y/n/p) › ");

    let mut f = String::new();
    theme.format_confirmation_prompt_selection(&mut f, "Go", true).unwrap();
    assert_eq!(f, "✔ Go · true");

    let mut f = String::new();
    theme.format_confirmation_prompt_selection(&mut f, "Go", false).unwrap();
    assert_eq!(f, "✔ Go · false");
}

#[test]
fn colored_theme_confirmation_hints() {
    let theme = colored_without_styling();
    let mut f = String::new();
    theme.format_confirmation_prompt(&mut f, "Go", Some(true)).unwrap();
    assert_eq!(f, "? Go (Y/n) › true ");

    let mut f = String::new();
    theme.format_confirmation_prompt(&mut f, "Go", Some(false)).unwrap();
    assert_eq!(f, "? Go (y/N) › false ");

    let mut f = String::new();
    theme.format_confirmation_prompt(&mut f, "Go", None).unwrap();
    assert_eq!(f, "? Go  ›  ");
}

#[test]
fn colored_theme_list_items() {
    let sorting = colored_without_styling();
    let expected = ["  item", "  item", "❯ item", "✔ item", "❯ item", "  item"];
    for (style, want) in ALL_STYLES.iter().zip(expected.iter()) {
        let mut f = String::new();
        sorting.format_selection(&mut f, "item", *style).unwrap();
        assert_eq!(&f, want);
    }
    let checking = colored_without_styling().set_sort(false);
    let expected = ["✔ item", "✔ item", "✔ item", "✔ item", "❯ item", "  item"];
    for (style, want) in ALL_STYLES.iter().zip(expected.iter()) {
        let mut f = String::new();
        checking.format_selection(&mut f, "item", *style).unwrap();
        assert_eq!(&f, want);
    }
}

#[test]
fn colored_theme_multi_selection_inline() {
    let theme = colored_without_styling().inline_selections(true);
    let mut f = String::new();
    theme.format_multi_prompt_selection(&mut f, "Colours", &["red", "blue"]).unwrap();
    assert_eq!(f, "✔ Colours · red, blue");

    let mut f = String::new();
    theme.format_multi_prompt_selection(&mut f, "Colours", &["red"]).unwrap();
    assert_eq!(f, "✔ Colours · red");

    let mut f = String::new();
    theme.format_multi_prompt_selection(&mut f, "Colours", &[]).unwrap();
    assert_eq!(f, "✔ Colours ·");
}

#[test]
fn colored_theme_multi_selection_not_inline() {
    let theme = colored_without_styling().inline_selections(false);
    let mut f = String::new();
    theme.format_multi_prompt_selection(&mut f, "Colours", &["red", "blue"]).unwrap();
    assert_eq!(f, "✔ Colours ·");
    assert!(!f.contains("red"));
    assert!(!f.contains("blue"));
}

#[test]
fn colored_theme_builders_set_one_switch() {
    let theme = ColoredTheme::default();
    assert!(theme.inline_selections);
    assert!(theme.is_sort);
    let theme = theme.inline_selections(false);
    assert!(!theme.inline_selections);
    assert!(theme.is_sort);
    let theme = theme.set_sort(false);
    assert!(!theme.inline_selections);
    assert!(!theme.is_sort);
    assert_eq!(theme.values_style, Style::new().green());
    assert_eq!(theme.defaults_style, Style::new().yellow().bold());
}

#[test]
fn default_styles_of_the_colorful_theme() {
    let theme = ColorfulTheme::default();
    assert_eq!(theme.defaults_style, Style::new().dim());
    assert_eq!(theme.error_style, Style::new().red());
    assert_eq!(theme.indicator_style, Style::new().cyan().bold());
    assert_eq!(theme.inactive_style, Style::new().dim());
    assert_eq!(theme.active_style, Style::new());
    assert_eq!(theme.yes_style, Style::new().green());
    assert_eq!(theme.no_style, Style::new().green());
    assert_eq!(theme.values_style, Style::new().cyan());
}

#[test]
fn default_styles_of_the_colored_theme() {
    let theme = ColoredTheme::default();
    assert_eq!(theme.defaults_style, Style::new().yellow().bold());
    assert_eq!(theme.prompts_style, Style::new().bold());
    assert_eq!(theme.prefixes_style, Style::new().cyan());
    assert_eq!(theme.values_style, Style::new().green());
    assert_eq!(theme.errors_style, Style::new().red());
    assert_eq!(theme.selected_style, Style::new().cyan().bold());
    assert_eq!(theme.unselected_style, Style::new());
}

#[test]
fn colored_theme_styles_its_parts() {
    let theme = ColoredTheme {
        defaults_style: Style::new().yellow().bold().force_styling(true),
        prompts_style: Style::new().bold().force_styling(true),
        prefixes_style: Style::new().cyan().force_styling(true),
        values_style: Style::new().green().force_styling(true),
        errors_style: Style::new().red().force_styling(true),
        selected_style: Style::new().cyan().bold().force_styling(true),
        unselected_style: Style::new().force_styling(true),
        inline_selections: true,
        is_sort: false,
    };
    let mut f = String::new();
    theme.format_error(&mut f, "bad").unwrap();
    assert_eq!(f, "\u{1b}[31m✘\u{1b}[0m \u{1b}[31mbad\u{1b}[0m");

    let mut f = String::new();
    theme.format_prompt(&mut f, "Pick").unwrap();
    assert_eq!(f, "\u{1b}[36m?\u{1b}[0m \u{1b}[1mPick\u{1b}[0m \u{1b}[33m\u{1b}[1m›\u{1b}[0m");

    let mut f = String::new();
    theme.format_selection(&mut f, "item", SelectionStyle::MenuUnselected).unwrap();
    assert_eq!(f, "\u{1b}[33m\u{1b}[1m \u{1b}[0m item");

    let mut f = String::new();
    theme.format_multi_prompt_selection(&mut f, "Colours", &["red", "blue"]).unwrap();
    let header = "\u{1b}[32m✔\u{1b}[0m \u{1b}[1mColours\u{1b}[0m \u{1b}[33m\u{1b}[1m·\u{1b}[0m";
    let values = "\u{1b}[32mred\u{1b}[0m, \u{1b}[32mblue\u{1b}[0m";
    assert_eq!(f, format!("{} {}", header, values));
}

#[test]
fn styling_adds_no_line() {
    let theme = ColoredTheme {
        defaults_style: Style::new().yellow().bold().force_styling(true),
        prompts_style: Style::new().bold().force_styling(true),
        prefixes_style: Style::new().cyan().force_styling(true),
        values_style: Style::new().green().force_styling(true),
        errors_style: Style::new().red().force_styling(true),
        selected_style: Style::new().cyan().bold().force_styling(true),
        unselected_style: Style::new().force_styling(true),
        inline_selections: true,
        is_sort: true,
    };
    let mut f = String::new();
    theme.format_error(&mut f, "first\nsecond").unwrap();
    assert_eq!(f.matches('\n').count(), 1);
    assert_eq!(strip_ansi_codes(&f), "✘ first\nsecond");
}
