//! The calls into `syntect` and `syntect_tui`.
//!
//! A grammar is kept together with the syntax set it was found in, and a
//! highlighter together with the syntax set of its grammar: `syntect` asks
//! that a line is parsed with the very set that the grammar came from. These
//! values are built here and nowhere else. Each also records, for the
//! proofs alone, what it was looked up by and which lines it was given, so
//! that the runs of a line can be named by what they depend on.

use crate::highlight::{
    colour_of, default_theme, modifier_of, segments_view, Rgb, Rgba, Segment, SegmentView,
};
use syntect::highlighting::{Color, FontStyle};
use vstd::prelude::*;

verus! {

/// The grammars that `syntect` knows.
#[verifier::external_type_specification]
#[verifier::external_body]
pub struct ExSyntaxSet(syntect::parsing::SyntaxSet);

/// The colour themes that `syntect` knows.
#[verifier::external_type_specification]
#[verifier::external_body]
pub struct ExThemeSet(syntect::highlighting::ThemeSet);

/// One grammar of a syntax set.
#[verifier::external_type_specification]
#[verifier::external_body]
pub struct ExSyntaxReference(syntect::parsing::SyntaxReference);

/// One colour theme.
#[verifier::external_type_specification]
#[verifier::external_body]
pub struct ExTheme(syntect::highlighting::Theme);

/// The state of `syntect` between two lines of one text.
#[verifier::external_type_specification]
#[verifier::external_body]
pub struct ExHighlightLines<'a>(syntect::easy::HighlightLines<'a>);

/// Why `syntect` could not highlight a line.
#[verifier::external_type_specification]
#[verifier::external_body]
pub struct ExSyntectError(syntect::Error);

/// The file extensions for which a syntax set has a grammar: the strings that
/// `SyntaxSet::find_syntax_by_extension` finds a grammar for.
pub uninterp spec fn syntax_extensions(syntaxes: syntect::parsing::SyntaxSet) -> Set<Seq<char>>;

/// The names of the themes of a theme set: the keys of `ThemeSet::themes`.
pub uninterp spec fn theme_names(themes: syntect::highlighting::ThemeSet) -> Set<Seq<char>>;

/// What `HighlightLines::highlight_line` gives for the last of `lines`, after
/// it was given the lines before it in their order, by the grammar that
/// `syntaxes` has for `extension` and the theme that `themes` has under the
/// name `theme`: the runs that it cuts the line into, or nothing where it
/// fails.
pub uninterp spec fn highlighted_runs(
    syntaxes: syntect::parsing::SyntaxSet,
    extension: Seq<char>,
    themes: syntect::highlighting::ThemeSet,
    theme: Seq<char>,
    lines: Seq<Seq<char>>,
) -> Option<Seq<SegmentView>>;

/// A grammar, the syntax set it was found in and the extension it was
/// found under.
pub(crate) struct Grammar<'a> {
    syntaxes: &'a syntect::parsing::SyntaxSet,
    syntax: &'a syntect::parsing::SyntaxReference,
    extension: Ghost<Seq<char>>,
}

/// A theme, the theme set it was found in and the name it was found under.
pub(crate) struct Colours<'a> {
    themes: &'a syntect::highlighting::ThemeSet,
    theme: &'a syntect::highlighting::Theme,
    name: Ghost<Seq<char>>,
}

/// A highlighter, the syntax set of its grammar, and what it was made from
/// and given so far.
pub(crate) struct LineHighlighter<'a> {
    syntaxes: &'a syntect::parsing::SyntaxSet,
    lines: syntect::easy::HighlightLines<'a>,
    extension: Ghost<Seq<char>>,
    themes: Ghost<syntect::highlighting::ThemeSet>,
    theme: Ghost<Seq<char>>,
    fed: Ghost<Seq<Seq<char>>>,
}

impl<'a> Grammar<'a> {
    /// The syntax set that the grammar was found in.
    pub(crate) closed spec fn syntaxes(self) -> syntect::parsing::SyntaxSet {
        *self.syntaxes
    }

    /// The extension that the grammar was found under.
    pub(crate) closed spec fn extension(self) -> Seq<char> {
        self.extension@
    }
}

impl<'a> Colours<'a> {
    /// The theme set that the theme was found in.
    pub(crate) closed spec fn themes(self) -> syntect::highlighting::ThemeSet {
        *self.themes
    }

    /// The name that the theme was found under.
    pub(crate) closed spec fn name(self) -> Seq<char> {
        self.name@
    }
}

impl<'a> LineHighlighter<'a> {
    /// The syntax set of the grammar.
    pub(crate) closed spec fn syntaxes(self) -> syntect::parsing::SyntaxSet {
        *self.syntaxes
    }

    /// The extension that the grammar was found under.
    pub(crate) closed spec fn extension(self) -> Seq<char> {
        self.extension@
    }

    /// The theme set of the theme.
    pub(crate) closed spec fn themes(self) -> syntect::highlighting::ThemeSet {
        self.themes@
    }

    /// The name that the theme was found under.
    pub(crate) closed spec fn theme(self) -> Seq<char> {
        self.theme@
    }

    /// The lines given so far, in their order.
    pub(crate) closed spec fn fed(self) -> Seq<Seq<char>> {
        self.fed@
    }

    /// `other` is this highlighter after it was given `line`.
    pub(crate) open spec fn fed_with(self, other: Self, line: Seq<char>) -> bool {
        &&& other.syntaxes() == self.syntaxes()
        &&& other.extension() == self.extension()
        &&& other.themes() == self.themes()
        &&& other.theme() == self.theme()
        &&& other.fed() == self.fed().push(line)
    }
}

/// The grammars that come with `syntect`, for lines that end in a line
/// feed: `SyntaxSet::load_defaults_newlines`. The documentation of
/// `HighlightLines` looks the extension `rs` up in such a set.
#[verifier::external_body]
pub(crate) fn load_syntaxes() -> (r: syntect::parsing::SyntaxSet)
    ensures
        syntax_extensions(r).contains("rs"@),
{
    syntect::parsing::SyntaxSet::load_defaults_newlines()
}

/// The themes that come with `syntect`: `ThemeSet::load_defaults`, whose
/// documentation lists the names of the themes that the set holds.
#[verifier::external_body]
pub(crate) fn load_themes() -> (r: syntect::highlighting::ThemeSet)
    ensures
        forall|name: Seq<char>| default_theme(name) ==> #[trigger] theme_names(r).contains(name),
{
    syntect::highlighting::ThemeSet::load_defaults()
}

/// Looks a grammar up by a file extension with
/// `SyntaxSet::find_syntax_by_extension`.
#[verifier::external_body]
pub(crate) fn find_grammar<'a>(
    syntaxes: &'a syntect::parsing::SyntaxSet,
    extension: &str,
) -> (r: Option<Grammar<'a>>)
    ensures
        r is Some <==> syntax_extensions(*syntaxes).contains(extension@),
        r matches Some(grammar) ==> grammar.syntaxes() == *syntaxes && grammar.extension()
            == extension@,
{
    let found = syntaxes.find_syntax_by_extension(extension);
    found.map(|syntax| Grammar { syntaxes, syntax, extension: Ghost(extension@) })
}

/// Looks a theme up by its name in the map `ThemeSet::themes`.
#[verifier::external_body]
pub(crate) fn find_theme<'a>(themes: &'a syntect::highlighting::ThemeSet, name: &str) -> (r: Option<
    Colours<'a>,
>)
    ensures
        r is Some <==> theme_names(*themes).contains(name@),
        r matches Some(colours) ==> colours.themes() == *themes && colours.name() == name@,
{
    themes.themes.get(name).map(|theme| Colours { themes, theme, name: Ghost(name@) })
}

/// Starts a text with `HighlightLines::new`: no line was given yet.
#[verifier::external_body]
pub(crate) fn start_highlighter<'a>(grammar: &Grammar<'a>, colours: &Colours<'a>) -> (r:
    LineHighlighter<'a>)
    ensures
        r.syntaxes() == grammar.syntaxes(),
        r.extension() == grammar.extension(),
        r.themes() == colours.themes(),
        r.theme() == colours.name(),
        r.fed() == Seq::<Seq<char>>::empty(),
{
    LineHighlighter {
        syntaxes: grammar.syntaxes,
        lines: syntect::easy::HighlightLines::new(grammar.syntax, colours.theme),
        extension: Ghost(grammar.extension@),
        themes: Ghost(*colours.themes),
        theme: Ghost(colours.name@),
        fed: Ghost(Seq::empty()),
    }
}

/// Highlights the next line of the text with `HighlightLines::highlight_line`
/// and hands its runs out as plain values. What comes back is what the
/// grammar and the theme give for this line after the lines before it; how
/// they cut and colour a line is not stated.
#[verifier::external_body]
pub(crate) fn highlight_line(highlighter: &mut LineHighlighter<'_>, line: &str) -> (r: Result<
    Vec<Segment>,
    syntect::Error,
>)
    ensures
        old(highlighter).fed_with(*final(highlighter), line@),
        match r {
            Ok(runs) => highlighted_runs(
                old(highlighter).syntaxes(),
                old(highlighter).extension(),
                old(highlighter).themes(),
                old(highlighter).theme(),
                old(highlighter).fed().push(line@),
            ) == Some(segments_view(runs@)),
            Err(_) => highlighted_runs(
                old(highlighter).syntaxes(),
                old(highlighter).extension(),
                old(highlighter).themes(),
                old(highlighter).theme(),
                old(highlighter).fed().push(line@),
            ) is None,
        },
{
    highlighter.fed = Ghost(highlighter.fed@.push(line@));
    let runs = highlighter.lines.highlight_line(line, highlighter.syntaxes)?;
    Ok(runs.into_iter().map(|(style, text)| {
        let (f, b) = (style.foreground, style.background);
        Segment {
            text: text.to_string(),
            foreground: Rgba { r: f.r, g: f.g, b: f.b, a: f.a },
            background: Rgba { r: b.r, g: b.g, b: b.b, a: b.a },
            font_style: style.font_style.bits(),
        }
    }).collect())
}

/// The colour of a terminal cell for a colour of a theme, by
/// `syntect_tui::translate_colour`: the red, green and blue of the colour,
/// or no colour where it is fully transparent.
#[verifier::external_body]
pub(crate) fn terminal_colour(colour: Rgba) -> (r: Option<Rgb>)
    ensures
        r == colour_of(colour),
{
    let themed = Color { r: colour.r, g: colour.g, b: colour.b, a: colour.a };
    match syntect_tui::translate_colour(themed) {
        Some(ratatui::style::Color::Rgb(r, g, b)) => Some(Rgb { r, g, b }),
        _ => None,
    }
}

/// The bits of the terminal's text modifiers for the bits of a theme's font
/// style, by `syntect_tui::translate_font_style`: bold stays bold, italic
/// stays italic, underline becomes underlined. Bits that are no font style
/// give nothing.
#[verifier::external_body]
pub(crate) fn terminal_modifiers(font_style: u8) -> (r: Option<u16>)
    ensures
        r == modifier_of(font_style),
{
    let style = FontStyle::from_bits(font_style)?;
    syntect_tui::translate_font_style(style).ok().map(|modifier| modifier.bits())
}

} // verus!
