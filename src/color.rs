use vstd::prelude::*;

verus! {

/// Declares lscolors::Color, the color of a style, to Verus with its variants
/// as the crate defines them.
#[verifier::external_type_specification]
pub struct ExLsColor(lscolors::Color);

/// Declares lscolors::FontStyle, the emphasis flags of a style, with its
/// public fields.
#[verifier::external_type_specification]
pub struct ExFontStyle(lscolors::FontStyle);

/// Declares lscolors::Style, the colors and emphasis the color configuration
/// gives a path, with its public fields.
#[verifier::external_type_specification]
pub struct ExStyle(lscolors::Style);

/// Declares termcolor::Color, the colors the terminal layer can write, with
/// its variants as the crate defines them.
#[verifier::external_type_specification]
pub struct ExTermColor(termcolor::Color);

/// The terminal-facing form of a style: what a `termcolor::ColorSpec` is built
/// from when the listing is printed.
#[derive(Clone, Copy, Debug, PartialEq, Eq)]
pub struct TermColorSpec {
    pub fg: Option<termcolor::Color>,
    pub bg: Option<termcolor::Color>,
    pub bold: bool,
    pub italic: bool,
    pub underline: bool,
}

/// The palette index that stands for a bright named color in an 8-bit palette.
pub open spec fn bright_index(c: lscolors::Color) -> Option<u8> {
    match c {
        lscolors::Color::BrightBlack => Some(8u8),
        lscolors::Color::BrightRed => Some(9u8),
        lscolors::Color::BrightGreen => Some(10u8),
        lscolors::Color::BrightYellow => Some(11u8),
        lscolors::Color::BrightBlue => Some(12u8),
        lscolors::Color::BrightMagenta => Some(13u8),
        lscolors::Color::BrightCyan => Some(14u8),
        lscolors::Color::BrightWhite => Some(15u8),
        _ => None,
    }
}

/// The terminal color that a style color is shown with.
pub open spec fn term_color_of(c: lscolors::Color) -> termcolor::Color {
    match c {
        lscolors::Color::RGB(r, g, b) => termcolor::Color::Rgb(r, g, b),
        lscolors::Color::Fixed(n) => termcolor::Color::Ansi256(n),
        lscolors::Color::Black => termcolor::Color::Black,
        lscolors::Color::Red => termcolor::Color::Red,
        lscolors::Color::Green => termcolor::Color::Green,
        lscolors::Color::Yellow => termcolor::Color::Yellow,
        lscolors::Color::Blue => termcolor::Color::Blue,
        lscolors::Color::Magenta => termcolor::Color::Magenta,
        lscolors::Color::Cyan => termcolor::Color::Cyan,
        lscolors::Color::White => termcolor::Color::White,
        _ => termcolor::Color::Ansi256(bright_index(c).unwrap()),
    }
}

pub open spec fn opt_term_color_of(c: Option<lscolors::Color>) -> Option<termcolor::Color> {
    match c {
        Some(c) => Some(term_color_of(c)),
        None => None,
    }
}

/// The terminal spec of a style: both colors converted, the three font
/// flags copied.
pub open spec fn color_spec_of(s: lscolors::Style) -> TermColorSpec {
    TermColorSpec {
        fg: opt_term_color_of(s.foreground),
        bg: opt_term_color_of(s.background),
        bold: s.font_style.bold,
        italic: s.font_style.italic,
        underline: s.font_style.underline,
    }
}

/// The spec that index labels are shown with: red text, nothing else.
pub open spec fn accent_spec() -> TermColorSpec {
    TermColorSpec {
        fg: Some(termcolor::Color::Red),
        bg: None,
        bold: false,
        italic: false,
        underline: false,
    }
}

/// Converts a style color; bright colors, which the terminal layer has no
/// name for, become their 8-bit palette index.
pub fn convert_color(color: &lscolors::Color) -> (r: termcolor::Color)
    ensures
        r == term_color_of(*color),
{
    match color {
        lscolors::Color::RGB(r, g, b) => termcolor::Color::Rgb(*r, *g, *b),
        lscolors::Color::Fixed(n) => termcolor::Color::Ansi256(*n),
        lscolors::Color::Black => termcolor::Color::Black,
        lscolors::Color::Red => termcolor::Color::Red,
        lscolors::Color::Green => termcolor::Color::Green,
        lscolors::Color::Yellow => termcolor::Color::Yellow,
        lscolors::Color::Blue => termcolor::Color::Blue,
        lscolors::Color::Magenta => termcolor::Color::Magenta,
        lscolors::Color::Cyan => termcolor::Color::Cyan,
        lscolors::Color::White => termcolor::Color::White,
        lscolors::Color::BrightBlack => termcolor::Color::Ansi256(8),
        lscolors::Color::BrightRed => termcolor::Color::Ansi256(9),
        lscolors::Color::BrightGreen => termcolor::Color::Ansi256(10),
        lscolors::Color::BrightYellow => termcolor::Color::Ansi256(11),
        lscolors::Color::BrightBlue => termcolor::Color::Ansi256(12),
        lscolors::Color::BrightMagenta => termcolor::Color::Ansi256(13),
        lscolors::Color::BrightCyan => termcolor::Color::Ansi256(14),
        lscolors::Color::BrightWhite => termcolor::Color::Ansi256(15),
    }
}

fn convert_opt_color(color: &Option<lscolors::Color>) -> (r: Option<termcolor::Color>)
    ensures
        r == opt_term_color_of(*color),
{
    match color {
        Some(c) => Some(convert_color(c)),
        None => None,
    }
}

/// Converts a whole style into the spec the terminal layer understands.
pub fn convert_to_color_spec(style: &lscolors::Style) -> (r: TermColorSpec)
    ensures
        r == color_spec_of(*style),
{
    TermColorSpec {
        fg: convert_opt_color(&style.foreground),
        bg: convert_opt_color(&style.background),
        bold: style.font_style.bold,
        italic: style.font_style.italic,
        underline: style.font_style.underline,
    }
}

/// Converts a style that may be absent; no style means no spec.
pub fn convert_optional_style(style: Option<&lscolors::Style>) -> (r: Option<TermColorSpec>)
    ensures
        r == match style {
            Some(s) => Some(color_spec_of(*s)),
            None => None::<TermColorSpec>,
        },
{
    match style {
        Some(s) => Some(convert_to_color_spec(s)),
        None => None,
    }
}

/// The spec of index labels.
pub fn accent_color_spec() -> (r: TermColorSpec)
    ensures
        r == accent_spec(),
{
    TermColorSpec { fg: Some(termcolor::Color::Red), bg: None, bold: false, italic: false, underline: false }
}

/// Conversion is a function of the style alone: equal styles give equal
/// specs.
pub proof fn lemma_conversion_deterministic(a: lscolors::Style, b: lscolors::Style)
    requires
        a == b,
    ensures
        color_spec_of(a) == color_spec_of(b),
{
}

/// Each bright named color becomes palette index 8 to 15 in order, and each
/// standard named color becomes the terminal color of the same name.
pub proof fn lemma_named_colors()
    ensures
        term_color_of(lscolors::Color::BrightBlack) == termcolor::Color::Ansi256(8),
        term_color_of(lscolors::Color::BrightRed) == termcolor::Color::Ansi256(9),
        term_color_of(lscolors::Color::BrightGreen) == termcolor::Color::Ansi256(10),
        term_color_of(lscolors::Color::BrightYellow) == termcolor::Color::Ansi256(11),
        term_color_of(lscolors::Color::BrightBlue) == termcolor::Color::Ansi256(12),
        term_color_of(lscolors::Color::BrightMagenta) == termcolor::Color::Ansi256(13),
        term_color_of(lscolors::Color::BrightCyan) == termcolor::Color::Ansi256(14),
        term_color_of(lscolors::Color::BrightWhite) == termcolor::Color::Ansi256(15),
        term_color_of(lscolors::Color::Black) == termcolor::Color::Black,
        term_color_of(lscolors::Color::Red) == termcolor::Color::Red,
        term_color_of(lscolors::Color::Green) == termcolor::Color::Green,
        term_color_of(lscolors::Color::Yellow) == termcolor::Color::Yellow,
        term_color_of(lscolors::Color::Blue) == termcolor::Color::Blue,
        term_color_of(lscolors::Color::Magenta) == termcolor::Color::Magenta,
        term_color_of(lscolors::Color::Cyan) == termcolor::Color::Cyan,
        term_color_of(lscolors::Color::White) == termcolor::Color::White,
{
}

} // verus!
