//! The markup around highlighted source code: colours as CSS, numbered and
//! striped lines, and the frame of a code block.

use vstd::prelude::*;
use vstd::string::StringExecFns;

verus! {

/// The theme that is used when none is asked for.
pub const DEFAULT_THEME: &'static str = "base16-ocean.dark";

/// By how much every second line is darker than the background.
pub const STRIPE_DEGREE: u8 = 5;

/// A colour with an alpha channel.
#[derive(Clone, Copy, Debug, PartialEq, Eq)]
pub struct Color {
    pub r: u8,
    pub g: u8,
    pub b: u8,
    pub a: u8,
}

/// The colours of a theme that the markup depends on.
#[derive(Clone, Copy, Debug)]
pub struct ThemeColors {
    pub gutter_foreground: Option<Color>,
    pub foreground: Option<Color>,
    pub background: Option<Color>,
}

/// The character for a digit.
pub open spec fn digit(d: nat) -> char {
    if d == 0 {
        '0'
    } else if d == 1 {
        '1'
    } else if d == 2 {
        '2'
    } else if d == 3 {
        '3'
    } else if d == 4 {
        '4'
    } else if d == 5 {
        '5'
    } else if d == 6 {
        '6'
    } else if d == 7 {
        '7'
    } else if d == 8 {
        '8'
    } else {
        '9'
    }
}

/// A number in decimal, without leading zeros.
pub open spec fn decimal(n: nat) -> Seq<char>
    decreases n,
{
    if n < 10 {
        seq![digit(n)]
    } else {
        decimal(n / 10).push(digit(n % 10))
    }
}

/// A channel darkened by `degree`, but not below zero.
pub open spec fn darkened(channel: u8, degree: u8) -> nat {
    if channel >= degree {
        (channel - degree) as nat
    } else {
        0
    }
}

/// A colour in CSS notation, its first three channels darkened by `degree`.
pub open spec fn spec_accentuate(color: Color, degree: u8) -> Seq<char> {
    "rgba("@ + decimal(darkened(color.r, degree)) + ", "@ + decimal(darkened(color.g, degree))
        + ", "@ + decimal(darkened(color.b, degree)) + ", "@ + decimal(color.a as nat) + ")"@
}

/// The colour of the line numbers: the gutter's, else the text's, else black.
pub open spec fn spec_numbering(colors: ThemeColors) -> Color {
    match colors.gutter_foreground {
        Some(color) => color,
        None => match colors.foreground {
            Some(color) => color,
            None => Color { r: 0, g: 0, b: 0, a: 255 },
        },
    }
}

/// The style sheet that colours the line numbers.
pub open spec fn spec_numbering_style(color: Color) -> Seq<char> {
    "<style type=\"text/css\">pre code::before { color: "@ + spec_accentuate(color, 0)
        + "; }</style>"@
}

/// The attribute that sets every second line apart, if the theme has a
/// background to set it apart from.
pub open spec fn spec_stripe(colors: ThemeColors) -> Seq<char> {
    match colors.background {
        Some(color) => "style=\"background-color: "@ + spec_accentuate(color, STRIPE_DEGREE)
            + ";\""@,
        None => Seq::empty(),
    }
}

/// One line of code in its element. Lines are counted from zero, and every
/// second one, starting with the second, carries the stripe.
pub open spec fn spec_row(index: int, stripe: Seq<char>, html: Seq<char>) -> Seq<char> {
    if index % 2 == 1 {
        "<code "@ + stripe + ">"@ + html + "</code>"@
    } else {
        "<code>"@ + html + "</code>"@
    }
}

/// The first `count` lines, each in its element, one after the other.
pub open spec fn spec_rows(stripe: Seq<char>, lines: Seq<String>, count: int) -> Seq<char>
    decreases count,
{
    if count <= 0 {
        Seq::empty()
    } else {
        spec_rows(stripe, lines, count - 1) + spec_row(count - 1, stripe, lines[count - 1]@)
    }
}

/// A whole snippet: what opens it, the style of the line numbers, the lines,
/// and what closes it.
pub open spec fn spec_snippet(head: Seq<char>, colors: ThemeColors, lines: Seq<String>) -> Seq<
    char,
> {
    head + spec_numbering_style(spec_numbering(colors)) + spec_rows(
        spec_stripe(colors),
        lines,
        lines.len() as int,
    ) + "</pre>\n"@
}

fn digit_text(d: u8) -> (text: &'static str)
    requires
        d < 10,
    ensures
        text@ == seq![digit(d as nat)],
{
    proof {
        reveal_strlit("0");
        reveal_strlit("1");
        reveal_strlit("2");
        reveal_strlit("3");
        reveal_strlit("4");
        reveal_strlit("5");
        reveal_strlit("6");
        reveal_strlit("7");
        reveal_strlit("8");
        reveal_strlit("9");
    }
    let text = match d {
        0 => "0",
        1 => "1",
        2 => "2",
        3 => "3",
        4 => "4",
        5 => "5",
        6 => "6",
        7 => "7",
        8 => "8",
        _ => "9",
    };
    assert(text@ =~= seq![digit(d as nat)]);
    text
}

/// Appends `n` in decimal to `text`.
fn append_decimal(text: &mut String, n: u8)
    ensures
        final(text)@ == old(text)@ + decimal(n as nat),
{
    let ghost before = text@;
    if n >= 100 {
        text.append(digit_text(n / 100));
        text.append(digit_text((n / 10) % 10));
        text.append(digit_text(n % 10));
        proof {
            let n = n as nat;
            assert(decimal(n / 10 / 10) =~= seq![digit(n / 100)]);
            assert(decimal(n / 10) =~= seq![digit(n / 100), digit((n / 10) % 10)]);
            assert(decimal(n) =~= seq![digit(n / 100), digit((n / 10) % 10), digit(n % 10)]);
            assert(text@ =~= before + decimal(n));
        }
    } else if n >= 10 {
        text.append(digit_text(n / 10));
        text.append(digit_text(n % 10));
        proof {
            let n = n as nat;
            assert(decimal(n / 10) =~= seq![digit(n / 10)]);
            assert(decimal(n) =~= seq![digit(n / 10), digit(n % 10)]);
            assert(text@ =~= before + decimal(n));
        }
    } else {
        text.append(digit_text(n));
        assert(text@ =~= before + decimal(n as nat));
    }
}

fn darken(channel: u8, degree: u8) -> (out: u8)
    ensures
        out == darkened(channel, degree),
{
    if channel >= degree {
        channel - degree
    } else {
        0
    }
}

/// Writes `color` in CSS notation, its red, green and blue darkened by
/// `degree`.
pub fn accentuate(color: Color, degree: u8) -> (text: String)
    ensures
        text@ == spec_accentuate(color, degree),
{
    let mut text = String::from_str("rgba(");
    append_decimal(&mut text, darken(color.r, degree));
    text.append(", ");
    append_decimal(&mut text, darken(color.g, degree));
    text.append(", ");
    append_decimal(&mut text, darken(color.b, degree));
    text.append(", ");
    append_decimal(&mut text, color.a);
    text.append(")");
    text
}

/// The colour in which the line numbers are shown.
pub fn numbering(colors: &ThemeColors) -> (color: Color)
    ensures
        color == spec_numbering(*colors),
{
    match colors.gutter_foreground {
        Some(color) => color,
        None => match colors.foreground {
            Some(color) => color,
            None => Color { r: 0, g: 0, b: 0, a: 255 },
        },
    }
}

/// The attribute that every second line carries.
pub fn stripe(colors: &ThemeColors) -> (text: String)
    ensures
        text@ == spec_stripe(*colors),
{
    match colors.background {
        Some(color) => {
            let shade = accentuate(color, STRIPE_DEGREE);
            let mut text = String::from_str("style=\"background-color: ");
            text.append(shade.as_str());
            text.append(";\"");
            text
        },
        None => String::new(),
    }
}

/// Puts a snippet together from what opens it and from its lines, each
/// already highlighted.
pub fn syntax_highlighter(head: String, colors: &ThemeColors, lines: &Vec<String>) -> (output:
    String)
    ensures
        output@ == spec_snippet(head@, *colors, lines@),
{
    let mut output = head;
    let shade = accentuate(numbering(colors), 0);
    output.append("<style type=\"text/css\">pre code::before { color: ");
    output.append(shade.as_str());
    output.append("; }</style>");
    let extras = stripe(colors);
    let ghost start = output@;
    let mut alternate = false;
    let mut i: usize = 0;
    assert(output@ =~= start + spec_rows(extras@, lines@, 0));
    while i < lines.len()
        invariant
            i <= lines.len(),
            alternate == (i % 2 == 1),
            output@ == start + spec_rows(extras@, lines@, i as int),
        decreases lines.len() - i,
    {
        let ghost before = output@;
        if alternate {
            output.append("<code ");
            output.append(extras.as_str());
            output.append(">");
        } else {
            output.append("<code>");
        }
        alternate = !alternate;
        output.append(lines[i].as_str());
        output.append("</code>");
        assert(output@ =~= before + spec_row(i as int, extras@, lines@[i as int]@));
        i += 1;
        assert(output@ =~= start + spec_rows(extras@, lines@, i as int));
    }
    output.append("</pre>\n");
    assert(output@ =~= spec_snippet(head@, *colors, lines@));
    output
}

/// What a request for highlighting comes down to.
#[derive(Debug)]
pub struct Highlighting {
    /// The name of the theme to use.
    pub theme: String,
    /// The file to highlight.
    pub file: String,
}

/// The detail of the error for a request that names no file.
pub open spec fn missing_file() -> Seq<char> {
    "missing file or text parameter"@
}

/// Settles a request for highlighting: the theme is the one asked for, or
/// else the default, and the file has to be named.
pub fn highlight(theme: Option<String>, file: Option<String>) -> (out: Result<
    Highlighting,
    String,
>)
    ensures
        match out {
            Ok(request) => {
                &&& file == Some(request.file)
                &&& request.theme@ == match theme {
                    Some(name) => name@,
                    None => DEFAULT_THEME@,
                }
            },
            Err(reason) => file is None && reason@ == missing_file(),
        },
{
    let theme = match theme {
        Some(name) => name,
        None => String::from_str(DEFAULT_THEME),
    };
    match file {
        Some(file) => Ok(Highlighting { theme, file }),
        None => Err(String::from_str("missing file or text parameter")),
    }
}

/// The text of the error for a file that could not be highlighted.
pub fn highlight_failure(file: &str, reason: &str) -> (text: String)
    ensures
        text@ == "failed to generate syntax highlighting for "@ + file@ + ": "@ + reason@,
{
    let mut text = String::from_str("failed to generate syntax highlighting for ");
    text.append(file);
    text.append(": ");
    text.append(reason);
    text
}

/// The detail of the error for a code block without a source.
pub open spec fn missing_input() -> Seq<char> {
    "missing input to codeblock function"@
}

/// Frames `source` as a code block. A value that is no text has no source.
pub fn codeblock(source: Option<&str>) -> (out: Result<String, String>)
    ensures
        match out {
            Ok(html) => source matches Some(text) && html@ == "<div class=\"codeblock\">"@ + text@
                + "</div>"@,
            Err(reason) => source is None && reason@ == missing_input(),
        },
{
    match source {
        Some(text) => {
            let mut html = String::from_str("<div class=\"codeblock\">");
            html.append(text);
            html.append("</div>");
            Ok(html)
        },
        None => Err(String::from_str("missing input to codeblock function")),
    }
}

} // verus!
