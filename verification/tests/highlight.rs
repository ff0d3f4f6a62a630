use tui_slides::highlight::{
    into_span, joined, line_outcome, line_spans, shown_spans, CodeLine, CodeStyles,
    HighlightError, Rgb, Rgba, Segment, StyledSpan, CODE_SYNTAX, CODE_THEME, FONT_BOLD, FONT_ITALIC, FONT_UNDERLINE, MODIFIER_BOLD,
    MODIFIER_ITALIC, MODIFIER_UNDERLINED,
};

const RED: Rgba = Rgba { r: 255, g: 0, b: 0, a: 255 };
const CLEAR: Rgba = Rgba { r: 0, g: 0, b: 0, a: 0 };

fn run(text: &str, font_style: u8) -> Segment {
    Segment { text: text.to_string(), foreground: RED, background: CLEAR, font_style }
}

fn shown(text: &str, modifier: u16) -> StyledSpan {
    let red = Some(Rgb { r: 255, g: 0, b: 0 });
    StyledSpan { text: text.to_string(), fg: red, bg: None, underline_color: red, modifier }
}

fn texts(spans: &[StyledSpan]) -> String {
    spans.iter().map(|span| span.text.as_str()).collect()
}

fn lines_of(code: &[&str]) -> Vec<String> {
    code.iter().map(|line| line.to_string()).collect()
}

#[test]
fn bits_of_styles_and_modifiers() {
    assert_eq!((FONT_BOLD, FONT_UNDERLINE, FONT_ITALIC), (1, 2, 4));
    assert_eq!((MODIFIER_BOLD, MODIFIER_ITALIC, MODIFIER_UNDERLINED), (1, 4, 8));
    assert_eq!(CODE_SYNTAX, "rs");
    assert_eq!(CODE_THEME, "base16-ocean.dark");
}

#[test]
fn run_keeps_its_text_and_colours() {
    assert_eq!(into_span(&run("hello", FONT_BOLD)), Some(shown("hello", MODIFIER_BOLD)));
    assert_eq!(into_span(&run("", 0)), Some(shown("", 0)));
}

#[test]
fn transparent_colour_is_no_colour() {
    let segment = Segment {
        text: "x".to_string(),
        foreground: Rgba { r: 1, g: 2, b: 3, a: 0 },
        background: Rgba { r: 4, g: 5, b: 6, a: 1 },
        font_style: 0,
    };
    assert_eq!(
        into_span(&segment),
        Some(StyledSpan {
            text: "x".to_string(),
            fg: None,
            bg: Some(Rgb { r: 4, g: 5, b: 6 }),
            underline_color: None,
            modifier: 0,
        })
    );
}

#[test]
fn underline_has_the_colour_of_the_text() {
    let segment = Segment {
        text: "x".to_string(),
        foreground: Rgba { r: 10, g: 20, b: 30, a: 255 },
        background: Rgba { r: 40, g: 50, b: 60, a: 128 },
        font_style: FONT_UNDERLINE,
    };
    assert_eq!(
        into_span(&segment),
        Some(StyledSpan {
            text: "x".to_string(),
            fg: Some(Rgb { r: 10, g: 20, b: 30 }),
            bg: Some(Rgb { r: 40, g: 50, b: 60 }),
            underline_color: Some(Rgb { r: 10, g: 20, b: 30 }),
            modifier: MODIFIER_UNDERLINED,
        })
    );
}

#[test]
fn every_font_style_has_its_modifiers() {
    let expected: [u16; 8] = [0, 1, 8, 9, 4, 5, 12, 13];
    for font_style in 0..8u8 {
        assert_eq!(
            into_span(&run("x", font_style)),
            Some(shown("x", expected[font_style as usize]))
        );
    }
}

#[test]
fn bits_that_are_no_font_style_give_no_span() {
    assert_eq!(into_span(&run("x", 8)), None);
    assert_eq!(into_span(&run("x", 9)), None);
    assert_eq!(into_span(&run("x", u8::MAX)), None);
    for font_style in 8..=u8::MAX {
        assert_eq!(into_span(&run("x", font_style)), None);
    }
}

#[test]
fn every_run_of_a_line_is_shown() {
    let segments = vec![run("a", 0), run("c", 7), run("e", 2)];
    assert_eq!(line_spans(&segments), Some(vec![shown("a", 0), shown("c", 13), shown("e", 8)]));
    assert_eq!(line_spans(&Vec::new()), Some(Vec::new()));
}

#[test]
fn a_run_that_cannot_be_shown_fails_the_line() {
    assert_eq!(line_spans(&vec![run("a", 0), run("b", 8), run("c", 7)]), None);
    assert_eq!(line_spans(&vec![run("b", 8)]), None);
    assert_eq!(line_spans(&vec![run("a", 0), run("d", 200)]), None);
}

#[test]
fn text_of_runs_is_put_together_in_order() {
    assert_eq!(joined(&Vec::new()), "");
    assert_eq!(joined(&vec![shown("fn", 1)]), "fn");
    assert_eq!(joined(&vec![shown("fn", 1), shown(" ", 0), shown("", 0), shown("f()", 4)]), "fn f()");
}

#[test]
fn runs_show_a_line_only_if_they_make_it_up() {
    let segments = vec![run("let", 1), run(" x", 0)];
    assert_eq!(shown_spans("let x", &segments), Some(vec![shown("let", 1), shown(" x", 0)]));
    assert_eq!(shown_spans("let x;", &segments), None);
    assert_eq!(shown_spans("let", &segments), None);
    assert_eq!(shown_spans("x let", &segments), None);
    assert_eq!(shown_spans("", &Vec::new()), Some(Vec::new()));
    assert_eq!(shown_spans("a", &Vec::new()), None);
    assert_eq!(shown_spans("let x", &vec![run("let", 1), run(" x", 8)]), None);
}

#[test]
fn failed_line_is_named() {
    assert_eq!(
        line_outcome(3, "ab", Err(syntect::Error::Fmt(std::fmt::Error))),
        Err(HighlightError::Line { index: 3 })
    );
    assert_eq!(
        line_outcome(3, "ab", Ok(vec![run("a", 1), run("b", 16)])),
        Err(HighlightError::Line { index: 3 })
    );
    assert_eq!(
        line_outcome(4, "abc", Ok(vec![run("a", 1), run("b", 2)])),
        Err(HighlightError::Line { index: 4 })
    );
    assert_eq!(
        line_outcome(3, "ab", Ok(vec![run("a", 1), run("b", 2)])),
        Ok(vec![shown("a", 1), shown("b", 8)])
    );
}

#[test]
fn unknown_extension_has_no_syntax() {
    let styles = CodeStyles::load();
    assert_eq!(
        styles.highlight_lines("no-such-extension", CODE_THEME, lines_of(&["x"])),
        Err(HighlightError::NoSyntax)
    );
}

#[test]
fn unknown_theme_is_no_theme() {
    let styles = CodeStyles::load();
    assert_eq!(
        styles.highlight_lines(CODE_SYNTAX, "no-such-theme", lines_of(&["x"])),
        Err(HighlightError::NoTheme)
    );
}

#[test]
fn no_lines_give_no_lines() {
    let styles = CodeStyles::load();
    assert_eq!(styles.highlight_code(Vec::new()), Ok(Vec::new()));
    assert_eq!(styles.highlight_lines(CODE_SYNTAX, CODE_THEME, Vec::new()), Ok(Vec::new()));
}

#[test]
fn code_keeps_its_lines_and_its_text() {
    let styles = CodeStyles::load();
    let code = lines_of(&["fn main() {", "    let answer = 42; // why", "", "}"]);
    let styled = styles.highlight_code(code.clone()).unwrap();
    assert_eq!(styled.len(), code.len());
    for (line, shown) in code.iter().zip(&styled) {
        assert_eq!(&shown.text, line);
        assert_eq!(&texts(&shown.spans), line);
        for span in &shown.spans {
            assert_eq!(span.underline_color, span.fg);
            assert!(!span.text.is_empty());
        }
    }
    assert_eq!(styled[2], CodeLine { text: String::new(), spans: Vec::new() });
}

#[test]
fn words_of_the_language_are_coloured_apart() {
    let styles = CodeStyles::load();
    let styled = styles.highlight_code(lines_of(&["fn main() {}"])).unwrap();
    let keyword = styled[0].spans.iter().find(|span| span.text == "fn").unwrap();
    let name = styled[0].spans.iter().find(|span| span.text == "main").unwrap();
    assert!(keyword.fg.is_some());
    assert!(name.fg.is_some());
    assert_ne!(keyword.fg, name.fg);
}

#[test]
fn highlighting_goes_on_from_line_to_line() {
    let styles = CodeStyles::load();
    let open = styles.highlight_code(lines_of(&["/* a", "fn */"])).unwrap();
    let plain = styles.highlight_code(lines_of(&["fn x() {}"])).unwrap();
    let inside = open[1].spans.iter().find(|span| span.text.contains("fn")).unwrap();
    let keyword = plain[0].spans.iter().find(|span| span.text == "fn").unwrap();
    assert_ne!(inside.fg, keyword.fg);
}

#[test]
fn spans_are_those_of_syntect_tui() {
    let colours = [RED, CLEAR, Rgba { r: 9, g: 8, b: 7, a: 1 }, Rgba { r: 0, g: 0, b: 0, a: 255 }];
    for font_style in 0..8u8 {
        for foreground in colours {
            for background in colours {
                let segment =
                    Segment { text: "text".to_string(), foreground, background, font_style };
                let themed = |c: Rgba| syntect::highlighting::Color { r: c.r, g: c.g, b: c.b, a: c.a };
                let style = syntect::highlighting::Style {
                    foreground: themed(foreground),
                    background: themed(background),
                    font_style: syntect::highlighting::FontStyle::from_bits(font_style).unwrap(),
                };
                let theirs = syntect_tui::into_span((style, "text")).unwrap();
                let ours = into_span(&segment).unwrap();
                let cell = |c: Option<Rgb>| c.map(|c| ratatui::style::Color::Rgb(c.r, c.g, c.b));
                assert_eq!(theirs.content, ours.text);
                assert_eq!(theirs.style.fg, cell(ours.fg));
                assert_eq!(theirs.style.bg, cell(ours.bg));
                assert_eq!(theirs.style.underline_color, cell(ours.underline_color));
                assert_eq!(theirs.style.add_modifier.bits(), ours.modifier);
                assert!(theirs.style.sub_modifier.is_empty());
            }
        }
    }
}

#[test]
fn themes_that_come_with_syntect_are_known() {
    let styles = CodeStyles::load();
    let names = [
        "base16-ocean.dark",
        "base16-eighties.dark",
        "base16-mocha.dark",
        "base16-ocean.light",
        "InspiredGitHub",
        "Solarized (dark)",
        "Solarized (light)",
    ];
    for name in names {
        let styled = styles.highlight_lines(CODE_SYNTAX, name, lines_of(&["fn main() {}"]));
        assert_eq!(styled.unwrap()[0].text, "fn main() {}");
    }
    assert!(names.contains(&CODE_THEME));
}
