use blog::highlighter::{
    accentuate, codeblock, highlight, highlight_failure, numbering, stripe, syntax_highlighter,
    Color, ThemeColors, DEFAULT_THEME,
};

fn color(r: u8, g: u8, b: u8, a: u8) -> Color {
    Color { r, g, b, a }
}

#[test]
fn accentuate_darkens_three_channels() {
    assert_eq!(accentuate(color(43, 48, 59, 255), 5), "rgba(38, 43, 54, 255)");
}

#[test]
fn accentuate_stops_at_zero() {
    assert_eq!(accentuate(color(3, 5, 6, 0), 5), "rgba(0, 0, 1, 0)");
}

#[test]
fn accentuate_by_nothing_keeps_the_colour() {
    assert_eq!(accentuate(color(0, 9, 10, 99), 0), "rgba(0, 9, 10, 99)");
    assert_eq!(accentuate(color(100, 199, 200, 255), 0), "rgba(100, 199, 200, 255)");
}

#[test]
fn accentuate_by_everything_leaves_only_alpha() {
    assert_eq!(accentuate(color(255, 128, 0, 7), 255), "rgba(0, 0, 0, 7)");
}

#[test]
fn numbering_prefers_the_gutter() {
    let gutter = color(1, 2, 3, 4);
    let text = color(5, 6, 7, 8);
    let all = ThemeColors { gutter_foreground: Some(gutter), foreground: Some(text), background: None };
    assert_eq!(numbering(&all), gutter);
    let no_gutter = ThemeColors { gutter_foreground: None, foreground: Some(text), background: None };
    assert_eq!(numbering(&no_gutter), text);
    let none = ThemeColors { gutter_foreground: None, foreground: None, background: None };
    assert_eq!(numbering(&none), color(0, 0, 0, 255));
}

#[test]
fn stripe_is_a_darker_background() {
    let colors = ThemeColors {
        gutter_foreground: None,
        foreground: None,
        background: Some(color(43, 48, 59, 255)),
    };
    assert_eq!(stripe(&colors), "style=\"background-color: rgba(38, 43, 54, 255);\"");
    let plain = ThemeColors { gutter_foreground: None, foreground: None, background: None };
    assert_eq!(stripe(&plain), "");
}

#[test]
fn snippet_stripes_every_second_line() {
    let colors = ThemeColors {
        gutter_foreground: Some(color(101, 115, 126, 255)),
        foreground: Some(color(192, 197, 206, 255)),
        background: Some(color(43, 48, 59, 255)),
    };
    let lines = vec!["<span>a</span>".to_string(), "<span>b</span>".to_string(), "c".to_string()];
    let html = syntax_highlighter("<pre>\n".to_string(), &colors, &lines);
    assert_eq!(
        html,
        "<pre>\n<style type=\"text/css\">pre code::before { color: rgba(101, 115, 126, 255); }</style>\
<code><span>a</span></code>\
<code style=\"background-color: rgba(38, 43, 54, 255);\"><span>b</span></code>\
<code>c</code></pre>\n"
    );
}

#[test]
fn snippet_without_lines_or_colours() {
    let colors = ThemeColors { gutter_foreground: None, foreground: None, background: None };
    let html = syntax_highlighter(String::new(), &colors, &Vec::new());
    assert_eq!(
        html,
        "<style type=\"text/css\">pre code::before { color: rgba(0, 0, 0, 255); }</style></pre>\n"
    );
}

#[test]
fn snippet_without_background_keeps_the_empty_attribute() {
    let colors = ThemeColors { gutter_foreground: None, foreground: None, background: None };
    let lines = vec!["x".to_string(), "y".to_string()];
    let html = syntax_highlighter("<pre>".to_string(), &colors, &lines);
    assert_eq!(
        html,
        "<pre><style type=\"text/css\">pre code::before { color: rgba(0, 0, 0, 255); }</style>\
<code>x</code><code >y</code></pre>\n"
    );
}

#[test]
fn highlight_uses_the_default_theme() {
    assert_eq!(DEFAULT_THEME, "base16-ocean.dark");
    let request = highlight(None, Some("main.rs".to_string())).unwrap();
    assert_eq!(request.theme, "base16-ocean.dark");
    assert_eq!(request.file, "main.rs");
}

#[test]
fn highlight_uses_the_chosen_theme() {
    let request = highlight(Some("Solarized (dark)".to_string()), Some("a.py".to_string())).unwrap();
    assert_eq!(request.theme, "Solarized (dark)");
    assert_eq!(request.file, "a.py");
}

#[test]
fn highlight_needs_a_file() {
    assert_eq!(highlight(None, None).unwrap_err(), "missing file or text parameter");
    assert_eq!(
        highlight(Some("x".to_string()), None).unwrap_err(),
        "missing file or text parameter"
    );
}

#[test]
fn highlight_failure_names_file_and_reason() {
    assert_eq!(
        highlight_failure("a.rs", "not found"),
        "failed to generate syntax highlighting for a.rs: not found"
    );
}

#[test]
fn codeblock_frames_its_source() {
    assert_eq!(codeblock(Some("<pre>x</pre>")).unwrap(), "<div class=\"codeblock\"><pre>x</pre></div>");
    assert_eq!(codeblock(Some("")).unwrap(), "<div class=\"codeblock\"></div>");
}

#[test]
fn codeblock_needs_a_source() {
    assert_eq!(codeblock(None).unwrap_err(), "missing input to codeblock function");
}
