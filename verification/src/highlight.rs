//! Syntax highlighting of source text.
//!
//! `syntect` cuts each line into runs and colours them after a theme. Each
//! run is then given the style in which a terminal shows it. A line counts
//! as highlighted only if every run of it can be shown and the runs put
//! together are the line; otherwise the line is reported as failed.

use crate::syntax::{
    find_grammar, find_theme, highlight_line, highlighted_runs, load_syntaxes, load_themes,
    start_highlighter, syntax_extensions, terminal_colour, terminal_modifiers, theme_names,
};
use vstd::string::StringExecFns;
use crate::text::strings_view;
use vstd::prelude::*;

verus! {

/// File extension of the grammar by which the code on a slide is highlighted.
pub const CODE_SYNTAX: &'static str = "rs";

/// Name of the colour theme by which the code on a slide is highlighted.
pub const CODE_THEME: &'static str = "base16-ocean.dark";

/// Bit of a theme's font style that asks for bold text.
pub const FONT_BOLD: u8 = 1;

/// Bit of a theme's font style that asks for underlined text.
pub const FONT_UNDERLINE: u8 = 2;

/// Bit of a theme's font style that asks for italic text.
pub const FONT_ITALIC: u8 = 4;

/// Bit of a terminal's text modifiers for bold text.
pub const MODIFIER_BOLD: u16 = 1;

/// Bit of a terminal's text modifiers for italic text.
pub const MODIFIER_ITALIC: u16 = 4;

/// Bit of a terminal's text modifiers for underlined text.
pub const MODIFIER_UNDERLINED: u16 = 8;

/// A colour of a theme: red, green, blue and opacity.
#[derive(Debug, PartialEq, Eq, Structural, Clone, Copy)]
pub struct Rgba {
    pub r: u8,
    pub g: u8,
    pub b: u8,
    pub a: u8,
}

/// A colour of a terminal cell.
#[derive(Debug, PartialEq, Eq, Structural, Clone, Copy)]
pub struct Rgb {
    pub r: u8,
    pub g: u8,
    pub b: u8,
}

/// One run of a line, styled as the theme says.
#[derive(Debug, PartialEq, Eq, Clone)]
pub struct Segment {
    pub text: String,
    pub foreground: Rgba,
    pub background: Rgba,
    pub font_style: u8,
}

/// One run of a line, styled as the terminal shows it.
#[derive(Debug, PartialEq, Eq, Clone)]
pub struct StyledSpan {
    pub text: String,
    pub fg: Option<Rgb>,
    pub bg: Option<Rgb>,
    pub underline_color: Option<Rgb>,
    pub modifier: u16,
}

/// One line of source text and the styled runs that show it.
#[derive(Debug, PartialEq, Eq, Clone)]
pub struct CodeLine {
    pub text: String,
    pub spans: Vec<StyledSpan>,
}

/// Why a text could not be highlighted.
#[derive(Debug, PartialEq, Eq, Structural, Clone, Copy)]
pub enum HighlightError {
    /// No grammar is known for the file extension.
    NoSyntax,
    /// No theme of that name is known.
    NoTheme,
    /// The line at this position could not be highlighted: `syntect` failed
    /// on it, or cut it into a run that a terminal cannot show, or into runs
    /// that do not make up the line.
    Line { index: usize },
}

/// Mathematical value of a [`Segment`].
pub struct SegmentView {
    pub text: Seq<char>,
    pub foreground: Rgba,
    pub background: Rgba,
    pub font_style: u8,
}

impl View for Segment {
    type V = SegmentView;

    open spec fn view(&self) -> SegmentView {
        SegmentView {
            text: self.text@,
            foreground: self.foreground,
            background: self.background,
            font_style: self.font_style,
        }
    }
}

/// Mathematical value of a [`StyledSpan`].
pub struct SpanView {
    pub text: Seq<char>,
    pub fg: Option<Rgb>,
    pub bg: Option<Rgb>,
    pub underline_color: Option<Rgb>,
    pub modifier: u16,
}

impl View for StyledSpan {
    type V = SpanView;

    open spec fn view(&self) -> SpanView {
        SpanView {
            text: self.text@,
            fg: self.fg,
            bg: self.bg,
            underline_color: self.underline_color,
            modifier: self.modifier,
        }
    }
}

/// Mathematical value of a [`CodeLine`].
pub struct CodeLineView {
    pub text: Seq<char>,
    pub spans: Seq<SpanView>,
}

impl View for CodeLine {
    type V = CodeLineView;

    open spec fn view(&self) -> CodeLineView {
        CodeLineView { text: self.text@, spans: spans_view(self.spans@) }
    }
}

/// The mathematical values of a list of highlighted lines.
pub open spec fn lines_view(lines: Seq<CodeLine>) -> Seq<CodeLineView> {
    Seq::new(lines.len(), |i: int| lines[i]@)
}

/// The mathematical value of what highlighting a text came to.
pub open spec fn outcome_view(r: Result<Vec<CodeLine>, HighlightError>) -> Result<
    Seq<CodeLineView>,
    HighlightError,
> {
    match r {
        Ok(lines) => Ok(lines_view(lines@)),
        Err(e) => Err(e),
    }
}

/// The mathematical values of a list of runs.
pub open spec fn segments_view(segments: Seq<Segment>) -> Seq<SegmentView> {
    Seq::new(segments.len(), |i: int| segments[i]@)
}

/// The mathematical values of a list of styled runs.
pub open spec fn spans_view(spans: Seq<StyledSpan>) -> Seq<SpanView> {
    Seq::new(spans.len(), |i: int| spans[i]@)
}

/// The name of a theme that comes with `syntect`.
pub open spec fn default_theme(name: Seq<char>) -> bool {
    ||| name == "base16-ocean.dark"@
    ||| name == "base16-eighties.dark"@
    ||| name == "base16-mocha.dark"@
    ||| name == "base16-ocean.light"@
    ||| name == "InspiredGitHub"@
    ||| name == "Solarized (dark)"@
    ||| name == "Solarized (light)"@
}

/// The colour in which a terminal shows a colour of a theme: the same red,
/// green and blue, or no colour where the theme's colour is fully transparent.
pub open spec fn colour_of(colour: Rgba) -> Option<Rgb> {
    if colour.a > 0 {
        Some(Rgb { r: colour.r, g: colour.g, b: colour.b })
    } else {
        None
    }
}

/// The bit `bit` is set in `bits`; `bit` is a power of two.
pub open spec fn has_bit(bits: u8, bit: u8) -> bool {
    (bits / bit) % 2 == 1
}

/// The text modifiers with which a terminal shows a font style of a theme.
/// Bits other than bold, underline and italic make no font style.
pub open spec fn modifier_of(font_style: u8) -> Option<u16> {
    if font_style <= FONT_BOLD + FONT_UNDERLINE + FONT_ITALIC {
        Some(
            ((if has_bit(font_style, FONT_BOLD) {
                MODIFIER_BOLD
            } else {
                0
            }) + (if has_bit(font_style, FONT_ITALIC) {
                MODIFIER_ITALIC
            } else {
                0
            }) + (if has_bit(font_style, FONT_UNDERLINE) {
                MODIFIER_UNDERLINED
            } else {
                0
            })) as u16,
        )
    } else {
        None
    }
}

/// The run as the terminal shows it: the same text, the colours of the
/// theme, an underline in the colour of the text, and the text modifiers of
/// the font style. A run with no font style is not shown.
pub open spec fn span_of(segment: SegmentView) -> Option<SpanView> {
    match modifier_of(segment.font_style) {
        Some(modifier) => Some(
            SpanView {
                text: segment.text,
                fg: colour_of(segment.foreground),
                bg: colour_of(segment.background),
                underline_color: colour_of(segment.foreground),
                modifier,
            },
        ),
        None => None,
    }
}

/// The first `n` runs as the terminal shows them, in order; nothing where
/// one of them cannot be shown.
pub open spec fn spans_of(segments: Seq<SegmentView>, n: int) -> Option<Seq<SpanView>>
    decreases n,
{
    if n <= 0 {
        Some(Seq::empty())
    } else {
        match (spans_of(segments, n - 1), span_of(segments[n - 1])) {
            (Some(before), Some(span)) => Some(before.push(span)),
            _ => None,
        }
    }
}

/// The text of the runs, one after the other.
pub open spec fn joined_text(spans: Seq<SpanView>) -> Seq<char>
    decreases spans.len(),
{
    if spans.len() == 0 {
        Seq::empty()
    } else {
        joined_text(spans.drop_last()) + spans.last().text
    }
}

/// The styled runs that show `line`, where it was cut into `runs`: every run
/// as the terminal shows it. There are none where a run cannot be shown, or
/// where the runs put together are not the line: highlighting changes how a
/// line looks and never what it says.
pub open spec fn shown_line(line: Seq<char>, runs: Seq<SegmentView>) -> Option<Seq<SpanView>> {
    match spans_of(runs, runs.len() as int) {
        Some(spans) => if joined_text(spans) == line {
            Some(spans)
        } else {
            None
        },
        None => None,
    }
}

/// A styled run that [`span_of`] can give: its underline has the colour of
/// its text, and its modifiers are among bold, italic and underlined.
pub open spec fn terminal_span(span: SpanView) -> bool {
    &&& span.underline_color == span.fg
    &&& span.modifier <= MODIFIER_BOLD + MODIFIER_ITALIC + MODIFIER_UNDERLINED
    &&& (span.modifier / 2) % 2 == 0
}

/// The line is shown as it is: its styled runs put together are its text,
/// and each is a run as the terminal shows it.
pub open spec fn faithful_line(line: CodeLineView) -> bool {
    &&& joined_text(line.spans) == line.text
    &&& forall|j: int| 0 <= j < line.spans.len() ==> terminal_span(#[trigger] line.spans[j])
}

/// Where all runs can be shown there are as many styled runs as runs, each
/// is the styled run of its run, and each is a run as the terminal shows it.
pub proof fn lemma_spans_of(segments: Seq<SegmentView>, n: int)
    requires
        0 <= n <= segments.len(),
        spans_of(segments, n) is Some,
    ensures
        spans_of(segments, n)->0.len() == n,
        forall|j: int|
            0 <= j < n ==> span_of(segments[j]) == Some(#[trigger] spans_of(segments, n)->0[j]),
        forall|j: int| 0 <= j < n ==> terminal_span(#[trigger] spans_of(segments, n)->0[j]),
    decreases n,
{
    if n > 0 {
        lemma_spans_of(segments, n - 1);
    }
}

/// Where one of the first runs cannot be shown, taking more runs does not help.
pub proof fn lemma_spans_of_none(segments: Seq<SegmentView>, m: int, n: int)
    requires
        m <= n,
        spans_of(segments, m) is None,
    ensures
        spans_of(segments, n) is None,
    decreases n,
{
    if m < n {
        lemma_spans_of_none(segments, m, n - 1);
    }
}

/// The run as the terminal shows it, if it is shown.
pub fn into_span(segment: &Segment) -> (r: Option<StyledSpan>)
    ensures
        match r {
            Some(span) => span_of(segment@) == Some(span@),
            None => span_of(segment@) is None,
        },
{
    match terminal_modifiers(segment.font_style) {
        Some(modifier) => {
            let fg = terminal_colour(segment.foreground);
            Some(
                StyledSpan {
                    text: segment.text.clone(),
                    fg,
                    bg: terminal_colour(segment.background),
                    underline_color: fg,
                    modifier,
                },
            )
        },
        None => None,
    }
}

/// The runs of a line as the terminal shows them; nothing where one of them
/// cannot be shown.
pub fn line_spans(segments: &Vec<Segment>) -> (r: Option<Vec<StyledSpan>>)
    ensures
        match r {
            Some(spans) => spans_of(segments_view(segments@), segments@.len() as int) == Some(
                spans_view(spans@),
            ),
            None => spans_of(segments_view(segments@), segments@.len() as int) is None,
        },
{
    let mut spans: Vec<StyledSpan> = Vec::new();
    let mut i: usize = 0;
    while i < segments.len()
        invariant
            i <= segments@.len(),
            spans_of(segments_view(segments@), i as int) == Some(spans_view(spans@)),
        decreases segments@.len() - i,
    {
        let ghost before = spans_view(spans@);
        match into_span(&segments[i]) {
            Some(span) => {
                let ghost span_view = span@;
                spans.push(span);
                assert(spans_view(spans@) == before.push(span_view));
            },
            None => {
                proof {
                    lemma_spans_of_none(
                        segments_view(segments@),
                        i + 1,
                        segments@.len() as int,
                    );
                }
                return None;
            },
        }
        i = i + 1;
    }
    Some(spans)
}

/// The text of the styled runs, one after the other.
pub fn joined(spans: &Vec<StyledSpan>) -> (text: String)
    ensures
        text@ == joined_text(spans_view(spans@)),
{
    let mut text = String::new();
    let mut i: usize = 0;
    assert(spans_view(spans@).take(0) == Seq::<SpanView>::empty());
    while i < spans.len()
        invariant
            i <= spans@.len(),
            text@ == joined_text(spans_view(spans@).take(i as int)),
        decreases spans@.len() - i,
    {
        proof {
            let upto = spans_view(spans@).take(i + 1);
            assert(upto.drop_last() == spans_view(spans@).take(i as int));
            assert(upto.last() == spans@[i as int]@);
        }
        text.append(spans[i].text.as_str());
        i = i + 1;
    }
    assert(spans_view(spans@).take(i as int) == spans_view(spans@));
    text
}

/// The styled runs that show `line`, where it was cut into `segments`.
pub fn shown_spans(line: &str, segments: &Vec<Segment>) -> (r: Option<Vec<StyledSpan>>)
    ensures
        match r {
            Some(spans) => shown_line(line@, segments_view(segments@)) == Some(spans_view(spans@)),
            None => shown_line(line@, segments_view(segments@)) is None,
        },
{
    match line_spans(segments) {
        Some(spans) => {
            let text = joined(&spans);
            let whole = line.to_owned();
            if text == whole {
                Some(spans)
            } else {
                None
            }
        },
        None => None,
    }
}

/// What highlighting `line`, the line at `index`, came to: the styled runs
/// that show it, or the error that names the line.
pub fn line_outcome(index: usize, line: &str, outcome: Result<Vec<Segment>, syntect::Error>) -> (r:
    Result<Vec<StyledSpan>, HighlightError>)
    ensures
        match outcome {
            Ok(segments) => match shown_line(line@, segments_view(segments@)) {
                Some(spans) => r matches Ok(shown) && spans_view(shown@) == spans,
                None => r == Err::<Vec<StyledSpan>, HighlightError>(
                    HighlightError::Line { index },
                ),
            },
            Err(_) => r == Err::<Vec<StyledSpan>, HighlightError>(HighlightError::Line { index }),
        },
{
    match outcome {
        Ok(segments) => match shown_spans(line, &segments) {
            Some(spans) => Ok(spans),
            None => Err(HighlightError::Line { index }),
        },
        Err(_) => Err(HighlightError::Line { index }),
    }
}

/// The grammars and themes by which text is highlighted.
pub struct CodeStyles {
    syntaxes: syntect::parsing::SyntaxSet,
    themes: syntect::highlighting::ThemeSet,
}

impl CodeStyles {
    /// There is a grammar for the file extension.
    pub closed spec fn knows_syntax(self, extension: Seq<char>) -> bool {
        syntax_extensions(self.syntaxes).contains(extension)
    }

    /// There is a theme of that name.
    pub closed spec fn knows_theme(self, name: Seq<char>) -> bool {
        theme_names(self.themes).contains(name)
    }

    /// The runs that `syntect` cuts the last of `lines` into, after the lines
    /// before it, by the grammar for `extension` and the theme called
    /// `theme`; nothing where it fails on that line.
    pub closed spec fn runs(self, extension: Seq<char>, theme: Seq<char>, lines: Seq<Seq<char>>)
        -> Option<Seq<SegmentView>> {
        highlighted_runs(self.syntaxes, extension, self.themes, theme, lines)
    }

    /// The styled runs that show the line at `k`; nothing where that line
    /// cannot be highlighted.
    pub open spec fn line_spans(
        self,
        extension: Seq<char>,
        theme: Seq<char>,
        lines: Seq<Seq<char>>,
        k: int,
    ) -> Option<Seq<SpanView>> {
        match self.runs(extension, theme, lines.take(k + 1)) {
            Some(runs) => shown_line(lines[k], runs),
            None => None,
        }
    }

    /// The first `n` lines highlighted, or the error that names the first of
    /// them that cannot be highlighted.
    pub open spec fn styled_upto(
        self,
        extension: Seq<char>,
        theme: Seq<char>,
        lines: Seq<Seq<char>>,
        n: int,
    ) -> Result<Seq<CodeLineView>, HighlightError>
        decreases n,
    {
        if n <= 0 {
            Ok(Seq::empty())
        } else {
            match self.styled_upto(extension, theme, lines, n - 1) {
                Ok(before) => match self.line_spans(extension, theme, lines, n - 1) {
                    Some(spans) => Ok(before.push(CodeLineView { text: lines[n - 1], spans })),
                    None => Err(HighlightError::Line { index: (n - 1) as usize }),
                },
                Err(e) => Err(e),
            }
        }
    }

    /// What highlighting a text comes to. Without a grammar for the
    /// extension it is an error, and with one, without a theme of that name.
    /// With both, every line is highlighted in order, each after the lines
    /// before it, and the first line that cannot be highlighted is the error.
    pub open spec fn highlight_result(
        self,
        extension: Seq<char>,
        theme: Seq<char>,
        lines: Seq<Seq<char>>,
    ) -> Result<Seq<CodeLineView>, HighlightError> {
        if !self.knows_syntax(extension) {
            Err(HighlightError::NoSyntax)
        } else if !self.knows_theme(theme) {
            Err(HighlightError::NoTheme)
        } else {
            self.styled_upto(extension, theme, lines, lines.len() as int)
        }
    }

    /// Once a line cannot be highlighted, the error stays the same however
    /// many lines follow.
    pub proof fn lemma_failure_stays(
        self,
        extension: Seq<char>,
        theme: Seq<char>,
        lines: Seq<Seq<char>>,
        m: int,
        n: int,
    )
        requires
            m <= n,
            self.styled_upto(extension, theme, lines, m) is Err,
        ensures
            self.styled_upto(extension, theme, lines, n) == self.styled_upto(
                extension,
                theme,
                lines,
                m,
            ),
        decreases n,
    {
        if m < n {
            self.lemma_failure_stays(extension, theme, lines, m, n - 1);
        }
    }

    /// Highlighting keeps the text: where the first `n` lines are
    /// highlighted, there are `n` of them, each has the text of its line,
    /// its styled runs put together are that text, and each of them is a run
    /// as the terminal shows it. An error names one of the lines.
    pub proof fn lemma_styled_upto(
        self,
        extension: Seq<char>,
        theme: Seq<char>,
        lines: Seq<Seq<char>>,
        n: int,
    )
        requires
            0 <= n <= lines.len(),
        ensures
            match self.styled_upto(extension, theme, lines, n) {
                Ok(styled) => {
                    &&& styled.len() == n
                    &&& forall|k: int|
                        0 <= k < n ==> (#[trigger] styled[k]).text == lines[k] && faithful_line(
                            styled[k],
                        )
                },
                Err(HighlightError::Line { index }) => index < n,
                Err(_) => false,
            },
        decreases n,
    {
        if n > 0 {
            self.lemma_styled_upto(extension, theme, lines, n - 1);
            match self.styled_upto(extension, theme, lines, n - 1) {
                Ok(before) => {
                    match self.runs(extension, theme, lines.take(n)) {
                        Some(runs) => {
                            if spans_of(runs, runs.len() as int) is Some {
                                lemma_spans_of(runs, runs.len() as int);
                            }
                        },
                        None => {},
                    }
                },
                Err(_) => {},
            }
        }
    }

    /// The grammars and themes that come with `syntect`. The grammar and the
    /// theme for the code on a slide are among them, and so is every other
    /// theme that comes with it.
    pub fn load() -> (styles: Self)
        ensures
            styles.knows_syntax(CODE_SYNTAX@),
            styles.knows_theme(CODE_THEME@),
            forall|name: Seq<char>| default_theme(name) ==> #[trigger] styles.knows_theme(name),
    {
        CodeStyles { syntaxes: load_syntaxes(), themes: load_themes() }
    }

    /// Highlights a text, line by line and in order, by the grammar for the
    /// file extension `extension` and the theme called `theme`.
    ///
    /// Without a grammar for the extension nothing is highlighted, nor
    /// without a theme of that name. Otherwise every line comes back with
    /// its text and the styled runs that show it, unless a line cannot be
    /// highlighted: then the error names the first such line.
    pub fn highlight_lines(&self, extension: &str, theme: &str, lines: Vec<String>) -> (r: Result<
        Vec<CodeLine>,
        HighlightError,
    >)
        ensures
            outcome_view(r) == self.highlight_result(extension@, theme@, strings_view(lines@)),
            r matches Ok(styled) ==> styled@.len() == lines@.len() && forall|k: int|
                0 <= k < styled@.len() ==> (#[trigger] styled@[k])@.text == lines@[k]@
                    && faithful_line(styled@[k]@),
    {
        let ghost texts = strings_view(lines@);
        let grammar = match find_grammar(&self.syntaxes, extension) {
            Some(grammar) => grammar,
            None => {
                return Err(HighlightError::NoSyntax);
            },
        };
        let colours = match find_theme(&self.themes, theme) {
            Some(colours) => colours,
            None => {
                return Err(HighlightError::NoTheme);
            },
        };
        let mut highlighter = start_highlighter(&grammar, &colours);
        let mut styled: Vec<CodeLine> = Vec::new();
        let total = lines.len();
        let mut i: usize = 0;
        assert(texts.take(0) == Seq::<Seq<char>>::empty());
        for text in it: lines
            invariant
                it.seq() == lines@,
                i == it.index(),
                total == lines@.len(),
                texts == strings_view(lines@),
                self.knows_syntax(extension@),
                self.knows_theme(theme@),
                highlighter.syntaxes() == self.syntaxes,
                highlighter.extension() == extension@,
                highlighter.themes() == self.themes,
                highlighter.theme() == theme@,
                highlighter.fed() == texts.take(i as int),
                self.styled_upto(extension@, theme@, texts, i as int) is Ok,
                self.styled_upto(extension@, theme@, texts, i as int)->Ok_0 == lines_view(styled@),
        {
            let ghost before = lines_view(styled@);
            assert(text == lines@[i as int]);
            assert(texts.take(i as int).push(text@) == texts.take(i + 1));
            assert(texts[i as int] == text@);
            let outcome = highlight_line(&mut highlighter, text.as_str());
            match line_outcome(i, text.as_str(), outcome) {
                Ok(spans) => {
                    let line = CodeLine { text, spans };
                    let ghost line_view = line@;
                    styled.push(line);
                    assert(lines_view(styled@) == before.push(line_view));
                },
                Err(e) => {
                    proof {
                        self.lemma_failure_stays(extension@, theme@, texts, i + 1, total as int);
                    }
                    return Err(e);
                },
            }
            i = i + 1;
        }
        proof {
            self.lemma_styled_upto(extension@, theme@, texts, total as int);
            assert forall|k: int| 0 <= k < styled@.len() implies (#[trigger] styled@[k])@.text
                == lines@[k]@ && faithful_line(styled@[k]@) by {
                assert(lines_view(styled@)[k] == styled@[k]@);
            }
        }
        Ok(styled)
    }

    /// Highlights the code of a slide, by the grammar for [`CODE_SYNTAX`] and
    /// the theme [`CODE_THEME`].
    pub fn highlight_code(&self, lines: Vec<String>) -> (r: Result<Vec<CodeLine>, HighlightError>)
        ensures
            outcome_view(r) == self.highlight_result(
                CODE_SYNTAX@,
                CODE_THEME@,
                strings_view(lines@),
            ),
            r matches Ok(styled) ==> styled@.len() == lines@.len() && forall|k: int|
                0 <= k < styled@.len() ==> (#[trigger] styled@[k])@.text == lines@[k]@
                    && faithful_line(styled@[k]@),
    {
        self.highlight_lines(CODE_SYNTAX, CODE_THEME, lines)
    }
}

} // verus!
