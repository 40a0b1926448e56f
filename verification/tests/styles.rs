use interactive_list::styles::get_color_from_word;
use interactive_list::styles::get_styles_from_yaml;
use interactive_list::styles::parse_yaml_style;
use interactive_list::styles::StyleColor;
use interactive_list::styles::StyleFields;
use interactive_list::styles::TextStyle;
use crossterm::style::style;
use crossterm::style::Color;
use crossterm::style::Stylize;

fn empty_fields() -> StyleFields {
    StyleFields {
        text: None,
        color: None,
        background: None,
        highlighted_background: None,
        highlighted_color: None,
    }
}

#[test]
fn get_console_string_works() {
    let test_string = "12345";
    let mut my_text_style = TextStyle {
        text: String::from("doesnt matter"),
        color: None,
        background: None,
        highlighted_background: None,
        highlighted_color: None,
    };

    // if there are no highlighted colors, it should
    // return string as is.
    assert_eq!(
        my_text_style.get_console_string(test_string, true),
        String::from(test_string)
    );

    // if there are no regular colors, it should return
    // string as is.
    assert_eq!(
        my_text_style.get_console_string(test_string, false),
        String::from(test_string)
    );

    // if there are colors, it should use them.
    my_text_style.color = Some(StyleColor::Red);
    my_text_style.background = Some(StyleColor::Yellow);
    assert_ne!(
        my_text_style.get_console_string(test_string, false),
        String::from(test_string)
    );
    // same for highlighted settings
    my_text_style.highlighted_background = Some(StyleColor::Red);
    my_text_style.highlighted_color = Some(StyleColor::Black);
    assert_ne!(
        my_text_style.get_console_string(test_string, true),
        String::from(test_string)
    );

    // if it uses colors, it should end with a color reset.
    let color_reset = format!("{}", style("").on(Color::Reset).with(Color::Reset));
    let my_console_str = my_text_style.get_console_string(test_string, false);
    let my_console_str_highlighted = my_text_style.get_console_string(test_string, true);
    assert_eq!(
        my_console_str_highlighted.contains(color_reset.as_str()),
        true,
    );
    assert_eq!(my_console_str.contains(color_reset.as_str()), true,);
}

#[test]
fn console_string_uses_the_named_colors() {
    // the colored output differs from the plain text and also differs
    // between two different color choices, so the colors are really applied
    let style_red = TextStyle {
        text: String::new(),
        color: Some(StyleColor::Red),
        background: None,
        highlighted_background: None,
        highlighted_color: None,
    };
    let style_blue = TextStyle {
        text: String::new(),
        color: Some(StyleColor::Blue),
        background: None,
        highlighted_background: None,
        highlighted_color: None,
    };
    let red = style_red.get_console_string("hi", false);
    let blue = style_blue.get_console_string("hi", false);
    assert_ne!(red, String::from("hi"));
    assert_ne!(red, blue);
    assert!(red.contains("hi"));
}

#[test]
fn get_color_from_word_maps_the_words() {
    assert_eq!(get_color_from_word("black"), StyleColor::Black);
    assert_eq!(get_color_from_word("red"), StyleColor::Red);
    assert_eq!(get_color_from_word("dark_red"), StyleColor::DarkRed);
    assert_eq!(get_color_from_word("green"), StyleColor::Green);
    assert_eq!(get_color_from_word("dark_green"), StyleColor::DarkGreen);
    assert_eq!(get_color_from_word("yellow"), StyleColor::Yellow);
    assert_eq!(get_color_from_word("dark_yellow"), StyleColor::DarkYellow);
    assert_eq!(get_color_from_word("blue"), StyleColor::Blue);
    assert_eq!(get_color_from_word("dark_blue"), StyleColor::DarkBlue);
    assert_eq!(get_color_from_word("magenta"), StyleColor::Magenta);
    assert_eq!(get_color_from_word("dark_magenta"), StyleColor::DarkMagenta);
    assert_eq!(get_color_from_word("cyan"), StyleColor::Cyan);
    assert_eq!(get_color_from_word("dark_cyan"), StyleColor::DarkCyan);
    assert_eq!(get_color_from_word("gray"), StyleColor::Grey);
    assert_eq!(get_color_from_word("grey"), StyleColor::Grey);
    assert_eq!(get_color_from_word("white"), StyleColor::White);
    assert_eq!(get_color_from_word("dark_white"), StyleColor::Black);
    assert_eq!(get_color_from_word("reset"), StyleColor::Reset);
    assert_eq!(get_color_from_word("no_such_color"), StyleColor::Reset);
}

#[test]
fn parse_yaml_style_fills_the_defaults() {
    let parsed = parse_yaml_style(&empty_fields());
    assert_eq!(parsed.text, String::new());
    assert_eq!(parsed.color, Some(StyleColor::Reset));
    assert_eq!(parsed.background, Some(StyleColor::Reset));
    assert_eq!(parsed.highlighted_background, Some(StyleColor::Reset));
    assert_eq!(parsed.highlighted_color, Some(StyleColor::Reset));
}

#[test]
fn parse_yaml_style_reads_the_fields() {
    let mut fields = empty_fields();
    fields.text = Some(String::from("> "));
    fields.color = Some(String::from("red"));
    fields.highlighted_background = Some(String::from("dark_blue"));
    let parsed = parse_yaml_style(&fields);
    assert_eq!(parsed.text, String::from("> "));
    assert_eq!(parsed.color, Some(StyleColor::Red));
    assert_eq!(parsed.background, Some(StyleColor::Reset));
    assert_eq!(parsed.highlighted_background, Some(StyleColor::DarkBlue));
    assert_eq!(parsed.highlighted_color, Some(StyleColor::Reset));
}

#[test]
fn get_styles_from_yaml_defaults_when_nothing_is_defined() {
    let entries: Vec<(String, StyleFields)> = Vec::new();
    let (prefix, question, delimiter, answer) = get_styles_from_yaml(&entries);
    assert_eq!(prefix.text, String::new());
    assert_eq!(question.text, String::new());
    assert_eq!(delimiter.text, String::from(": "));
    assert_eq!(answer.text, String::new());
    assert_eq!(prefix.color, None);
    assert_eq!(question.highlighted_color, None);
    assert_eq!(delimiter.background, None);
    assert_eq!(answer.highlighted_background, None);
}

#[test]
fn get_styles_from_yaml_takes_the_last_definition() {
    let mut first = empty_fields();
    first.color = Some(String::from("red"));
    let mut second = empty_fields();
    second.color = Some(String::from("blue"));
    second.text = Some(String::from("? "));
    let mut other = empty_fields();
    other.text = Some(String::from("ignored"));
    let entries = vec![
        (String::from("question"), first),
        (String::from("unknown"), other),
        (String::from("question"), second),
    ];
    let (prefix, question, delimiter, answer) = get_styles_from_yaml(&entries);
    assert_eq!(question.color, Some(StyleColor::Blue));
    assert_eq!(question.text, String::from("? "));
    // the unknown name changed nothing
    assert_eq!(prefix.text, String::new());
    assert_eq!(delimiter.text, String::from(": "));
    assert_eq!(answer.color, None);
}
