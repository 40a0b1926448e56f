use vstd::prelude::*;
use crate::text::str_eq;
use crossterm::style::{style, Color, Stylize};

verus! {

/// One of the terminal colors a style descriptor can name, plus `Reset`,
/// which stands for the terminal's default color.
#[derive(Clone, Copy, Debug, PartialEq, Eq, Structural)]
pub enum StyleColor {
    Reset,
    Black,
    DarkGrey,
    Red,
    DarkRed,
    Green,
    DarkGreen,
    Yellow,
    DarkYellow,
    Blue,
    DarkBlue,
    Magenta,
    DarkMagenta,
    Cyan,
    DarkCyan,
    White,
    Grey,
}

impl StyleColor {
    /// The color's canonical lower-case name, as the terminal backend spells it.
    pub open spec fn spec_name(self) -> Seq<char> {
        match self {
            StyleColor::Reset => "reset"@,
            StyleColor::Black => "black"@,
            StyleColor::DarkGrey => "dark_grey"@,
            StyleColor::Red => "red"@,
            StyleColor::DarkRed => "dark_red"@,
            StyleColor::Green => "green"@,
            StyleColor::DarkGreen => "dark_green"@,
            StyleColor::Yellow => "yellow"@,
            StyleColor::DarkYellow => "dark_yellow"@,
            StyleColor::Blue => "blue"@,
            StyleColor::DarkBlue => "dark_blue"@,
            StyleColor::Magenta => "magenta"@,
            StyleColor::DarkMagenta => "dark_magenta"@,
            StyleColor::Cyan => "cyan"@,
            StyleColor::DarkCyan => "dark_cyan"@,
            StyleColor::White => "white"@,
            StyleColor::Grey => "grey"@,
        }
    }

    /// The canonical name of the color.
    pub fn name(&self) -> (r: &str)
        ensures
            r@ == self.spec_name(),
    {
        match self {
            StyleColor::Reset => "reset",
            StyleColor::Black => "black",
            StyleColor::DarkGrey => "dark_grey",
            StyleColor::Red => "red",
            StyleColor::DarkRed => "dark_red",
            StyleColor::Green => "green",
            StyleColor::DarkGreen => "dark_green",
            StyleColor::Yellow => "yellow",
            StyleColor::DarkYellow => "dark_yellow",
            StyleColor::Blue => "blue",
            StyleColor::DarkBlue => "dark_blue",
            StyleColor::Magenta => "magenta",
            StyleColor::DarkMagenta => "dark_magenta",
            StyleColor::Cyan => "cyan",
            StyleColor::DarkCyan => "dark_cyan",
            StyleColor::White => "white",
            StyleColor::Grey => "grey",
        }
    }
}

/// Relies on crossterm's `style`, `Stylize::with`/`Stylize::on` and
/// `Color::try_from` to write the display text for `txt` under a foreground
/// and a background color name, with a color-reset marker appended. Nothing
/// is promised of the result: what crossterm writes for the colors depends
/// on its process-wide color-output switch, which the `NO_COLOR` environment
/// variable seeds and `crossterm::style::force_color_output` can flip at any
/// time, and on Windows consoles without ANSI support the display path
/// bypasses the formatter altogether. (`unwrap_or` never fires for the names
/// `StyleColor::name` produces; `Color::try_from` accepts exactly those.)
#[verifier::external_body]
fn styled_fg_bg(txt: &str, fg: &str, bg: &str) -> String {
    let f = Color::try_from(fg).unwrap_or(Color::Reset);
    let b = Color::try_from(bg).unwrap_or(Color::Reset);
    format!("{}{}", style(txt).with(f).on(b), style("").on(Color::Reset).with(Color::Reset))
}

/// Relies on crossterm's `style`, `Stylize::on` and `Color::try_from`, as
/// `styled_fg_bg` does, with only a background color applied; nothing is
/// promised of the result, for the same reasons.
#[verifier::external_body]
fn styled_bg(txt: &str, bg: &str) -> String {
    let b = Color::try_from(bg).unwrap_or(Color::Reset);
    format!("{}{}", style(txt).on(b), style("").on(Color::Reset).with(Color::Reset))
}

/// Relies on crossterm's `style`, `Stylize::with` and `Color::try_from`, as
/// `styled_fg_bg` does, with only a foreground color applied; nothing is
/// promised of the result, for the same reasons.
#[verifier::external_body]
fn styled_fg(txt: &str, fg: &str) -> String {
    let f = Color::try_from(fg).unwrap_or(Color::Reset);
    format!("{}{}", style(txt).with(f), style("").on(Color::Reset).with(Color::Reset))
}

/// A style descriptor: an optional fixed text of its own (used by the prefix
/// and the delimiter) and the colors to use in the regular and in the
/// highlighted rendering.
#[derive(Debug, Clone)]
pub struct TextStyle {
    pub text: String,
    pub background: Option<StyleColor>,
    pub color: Option<StyleColor>,
    pub highlighted_color: Option<StyleColor>,
    pub highlighted_background: Option<StyleColor>,
}

impl TextStyle {
    /// Whether a style applies any color at all when rendered plainly or
    /// highlighted, as `is_highlighted` chooses.
    pub open spec fn spec_uses_colors(self, is_highlighted: bool) -> bool {
        let use_background = if is_highlighted {
            self.highlighted_background
        } else {
            self.background
        };
        let use_color = if is_highlighted {
            self.highlighted_color
        } else {
            self.color
        };
        use_background is Some || use_color is Some
    }

    /// What is known of a rendering `out` of `txt` under this style: with no
    /// color chosen it is the text itself; with colors it is whatever the
    /// terminal backend wrote, of which nothing is promised (its output
    /// depends on a process-wide color switch, not on the arguments alone).
    pub open spec fn console_string_ok(self, txt: Seq<char>, is_highlighted: bool, out: Seq<char>) -> bool {
        !self.spec_uses_colors(is_highlighted) ==> out == txt
    }

    /// Renders `txt` under this style: the regular colors when
    /// `is_highlighted` is false, the highlighted ones when it is true, and
    /// the text unchanged when the chosen colors are absent.
    pub fn get_console_string(&self, txt: &str, is_highlighted: bool) -> (r: String)
        ensures
            self.console_string_ok(txt@, is_highlighted, r@),
            !self.spec_uses_colors(is_highlighted) ==> r@ == txt@,
    {
        let use_background = if is_highlighted {
            self.highlighted_background
        } else {
            self.background
        };
        let use_color = if is_highlighted {
            self.highlighted_color
        } else {
            self.color
        };
        match (use_background, use_color) {
            (Some(bc), Some(tc)) => styled_fg_bg(txt, tc.name(), bc.name()),
            (Some(bc), None) => styled_bg(txt, bc.name()),
            (None, Some(tc)) => styled_fg(txt, tc.name()),
            (None, None) => txt.to_owned(),
        }
    }

    /// A fresh descriptor with the same fields.
    pub fn duplicate(&self) -> (r: TextStyle)
        ensures
            r == *self,
    {
        TextStyle {
            text: self.text.clone(),
            background: self.background,
            color: self.color,
            highlighted_color: self.highlighted_color,
            highlighted_background: self.highlighted_background,
        }
    }
}

/// The color a style word names: the recognized words map to their color,
/// `dark_white` to black, and anything else to the default color.
pub open spec fn spec_color_from_word(w: Seq<char>) -> StyleColor {
    if w == "black"@ {
        StyleColor::Black
    } else if w == "red"@ {
        StyleColor::Red
    } else if w == "dark_red"@ {
        StyleColor::DarkRed
    } else if w == "green"@ {
        StyleColor::Green
    } else if w == "dark_green"@ {
        StyleColor::DarkGreen
    } else if w == "yellow"@ {
        StyleColor::Yellow
    } else if w == "dark_yellow"@ {
        StyleColor::DarkYellow
    } else if w == "blue"@ {
        StyleColor::Blue
    } else if w == "dark_blue"@ {
        StyleColor::DarkBlue
    } else if w == "magenta"@ {
        StyleColor::Magenta
    } else if w == "dark_magenta"@ {
        StyleColor::DarkMagenta
    } else if w == "cyan"@ {
        StyleColor::Cyan
    } else if w == "dark_cyan"@ {
        StyleColor::DarkCyan
    } else if w == "gray"@ {
        StyleColor::Grey
    } else if w == "grey"@ {
        StyleColor::Grey
    } else if w == "white"@ {
        StyleColor::White
    } else if w == "dark_white"@ {
        StyleColor::Black
    } else {
        StyleColor::Reset
    }
}

/// Maps a color word from a style definition to the color it names.
pub fn get_color_from_word(word: &str) -> (c: StyleColor)
    ensures
        c == spec_color_from_word(word@),
{
    if str_eq(word, "black") {
        StyleColor::Black
    } else if str_eq(word, "red") {
        StyleColor::Red
    } else if str_eq(word, "dark_red") {
        StyleColor::DarkRed
    } else if str_eq(word, "green") {
        StyleColor::Green
    } else if str_eq(word, "dark_green") {
        StyleColor::DarkGreen
    } else if str_eq(word, "yellow") {
        StyleColor::Yellow
    } else if str_eq(word, "dark_yellow") {
        StyleColor::DarkYellow
    } else if str_eq(word, "blue") {
        StyleColor::Blue
    } else if str_eq(word, "dark_blue") {
        StyleColor::DarkBlue
    } else if str_eq(word, "magenta") {
        StyleColor::Magenta
    } else if str_eq(word, "dark_magenta") {
        StyleColor::DarkMagenta
    } else if str_eq(word, "cyan") {
        StyleColor::Cyan
    } else if str_eq(word, "dark_cyan") {
        StyleColor::DarkCyan
    } else if str_eq(word, "gray") {
        StyleColor::Grey
    } else if str_eq(word, "grey") {
        StyleColor::Grey
    } else if str_eq(word, "white") {
        StyleColor::White
    } else if str_eq(word, "dark_white") {
        StyleColor::Black
    } else {
        StyleColor::Reset
    }
}

/// The plain values a style definition can carry: the optional string found
/// under each of the five known keys of one style mapping. The caller reads
/// them out of its configuration before handing them to the library.
#[derive(Debug, Clone)]
pub struct StyleFields {
    pub text: Option<String>,
    pub color: Option<String>,
    pub background: Option<String>,
    pub highlighted_background: Option<String>,
    pub highlighted_color: Option<String>,
}

/// How a parsed style relates to the fields it was parsed from: absent text
/// becomes empty, and each absent color word becomes the default color.
pub open spec fn style_from_fields(s: TextStyle, f: StyleFields) -> bool {
    &&& s.text@ == (if f.text is Some {
        f.text->0@
    } else {
        Seq::<char>::empty()
    })
    &&& s.color == Some(
        if f.color is Some {
            spec_color_from_word(f.color->0@)
        } else {
            StyleColor::Reset
        },
    )
    &&& s.background == Some(
        if f.background is Some {
            spec_color_from_word(f.background->0@)
        } else {
            StyleColor::Reset
        },
    )
    &&& s.highlighted_background == Some(
        if f.highlighted_background is Some {
            spec_color_from_word(f.highlighted_background->0@)
        } else {
            StyleColor::Reset
        },
    )
    &&& s.highlighted_color == Some(
        if f.highlighted_color is Some {
            spec_color_from_word(f.highlighted_color->0@)
        } else {
            StyleColor::Reset
        },
    )
}

/// Builds one style descriptor from the fields of one style definition.
pub fn parse_yaml_style(fields: &StyleFields) -> (r: TextStyle)
    ensures
        style_from_fields(r, *fields),
{
    let text = match &fields.text {
        Some(t) => t.clone(),
        None => String::new(),
    };
    let color = match &fields.color {
        Some(c) => get_color_from_word(c.as_str()),
        None => StyleColor::Reset,
    };
    let background = match &fields.background {
        Some(c) => get_color_from_word(c.as_str()),
        None => StyleColor::Reset,
    };
    let highlighted_background = match &fields.highlighted_background {
        Some(c) => get_color_from_word(c.as_str()),
        None => StyleColor::Reset,
    };
    let highlighted_color = match &fields.highlighted_color {
        Some(c) => get_color_from_word(c.as_str()),
        None => StyleColor::Reset,
    };
    TextStyle {
        text,
        color: Some(color),
        background: Some(background),
        highlighted_background: Some(highlighted_background),
        highlighted_color: Some(highlighted_color),
    }
}

/// A style that no definition overrode: its fixed text and no colors at all.
pub open spec fn spec_default_style(s: TextStyle, text: Seq<char>) -> bool {
    &&& s.text@ == text
    &&& s.color is None
    &&& s.background is None
    &&& s.highlighted_background is None
    &&& s.highlighted_color is None
}

/// The fields of the last style definition stored under `key`, if any; a
/// later definition of the same style overrides an earlier one.
pub open spec fn last_style_entry(entries: Seq<(String, StyleFields)>, key: Seq<char>) -> Option<
    StyleFields,
>
    decreases entries.len(),
{
    if entries.len() == 0 {
        Option::None
    } else if entries.last().0@ == key {
        Option::Some(entries.last().1)
    } else {
        last_style_entry(entries.drop_last(), key)
    }
}

/// The style that `get_styles_from_yaml` yields for `key`: parsed from the
/// last definition under that key, or the default with `default_text`.
pub open spec fn chosen_style(
    s: TextStyle,
    entries: Seq<(String, StyleFields)>,
    key: Seq<char>,
    default_text: Seq<char>,
) -> bool {
    match last_style_entry(entries, key) {
        Option::Some(f) => style_from_fields(s, f),
        Option::None => spec_default_style(s, default_text),
    }
}

/// Builds the four style descriptors (prefix, question, delimiter, answer)
/// from the named style definitions of a configuration, taken in order; an
/// unknown name is ignored and the delimiter's default text is ": ".
pub fn get_styles_from_yaml(entries: &Vec<(String, StyleFields)>) -> (r: (
    TextStyle,
    TextStyle,
    TextStyle,
    TextStyle,
))
    ensures
        chosen_style(r.0, entries@, "prefix"@, Seq::<char>::empty()),
        chosen_style(r.1, entries@, "question"@, Seq::<char>::empty()),
        chosen_style(r.2, entries@, "delimiter"@, ": "@),
        chosen_style(r.3, entries@, "answer"@, Seq::<char>::empty()),
{
    let mut prefix_style = TextStyle {
        text: String::new(),
        color: None,
        background: None,
        highlighted_background: None,
        highlighted_color: None,
    };
    let mut question_style = TextStyle {
        text: String::new(),
        color: None,
        background: None,
        highlighted_background: None,
        highlighted_color: None,
    };
    let mut delimiter_style = TextStyle {
        text: ": ".to_owned(),
        color: None,
        background: None,
        highlighted_background: None,
        highlighted_color: None,
    };
    let mut answer_style = TextStyle {
        text: String::new(),
        color: None,
        background: None,
        highlighted_background: None,
        highlighted_color: None,
    };
    let mut i: usize = 0;
    while i < entries.len()
        invariant
            i <= entries.len(),
            chosen_style(prefix_style, entries@.take(i as int), "prefix"@, Seq::<char>::empty()),
            chosen_style(
                question_style,
                entries@.take(i as int),
                "question"@,
                Seq::<char>::empty(),
            ),
            chosen_style(delimiter_style, entries@.take(i as int), "delimiter"@, ": "@),
            chosen_style(answer_style, entries@.take(i as int), "answer"@, Seq::<char>::empty()),
        decreases entries.len() - i,
    {
        let pair = &entries[i];
        proof {
            reveal_strlit("prefix");
            reveal_strlit("question");
            reveal_strlit("delimiter");
            reveal_strlit("answer");
            assert("prefix"@.len() == 6);
            assert("question"@.len() == 8);
            assert("delimiter"@.len() == 9);
            assert("answer"@.len() == 6);
            assert("answer"@[0] == 'a');
            assert(entries@.take(i + 1).drop_last() =~= entries@.take(i as int));
            assert(entries@.take(i + 1).last() == entries@[i as int]);
        }
        if str_eq(pair.0.as_str(), "prefix") {
            prefix_style = parse_yaml_style(&pair.1);
        } else if str_eq(pair.0.as_str(), "delimiter") {
            delimiter_style = parse_yaml_style(&pair.1);
        } else if str_eq(pair.0.as_str(), "question") {
            question_style = parse_yaml_style(&pair.1);
        } else if str_eq(pair.0.as_str(), "answer") {
            answer_style = parse_yaml_style(&pair.1);
        }
        i = i + 1;
    }
    proof {
        assert(entries@.take(entries@.len() as int) =~= entries@);
    }
    (prefix_style, question_style, delimiter_style, answer_style)
}

} // verus!
