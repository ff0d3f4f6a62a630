//! The deck as it is loaded, and the drawables that a slide is turned into.

use crate::highlight::{lines_view, CodeLine, CodeLineView, HighlightError};
use crate::layout::Rect;
use vstd::prelude::*;

verus! {

/// The kind of one entry of a slide's content.
#[derive(Debug, PartialEq, Eq, Structural, Clone, Copy)]
pub enum SlideContentType {
    Paragraph,
    BigText,
    Line,
    Image,
    Block,
    Sparkline,
    CodeHighlight,
}

/// One entry of a slide's content, as the deck declares it.
///
/// `rect` is relative to the slide's content box; without it the entry fills
/// the box. `data` is read for a `Sparkline` only. For an `Image`, `content`
/// is the path of the picture, relative to the deck's own directory.
#[derive(Debug, PartialEq, Eq, Clone)]
pub struct ContentJson {
    pub type_: SlideContentType,
    pub content: Option<String>,
    pub rect: Option<Rect>,
    pub data: Option<Vec<u64>>,
    pub color: Option<String>,
}

/// One slide: an optional title and the content in paint order.
#[derive(Debug, PartialEq, Eq, Clone)]
pub struct SlideJson {
    pub title: Option<String>,
    pub content: Vec<ContentJson>,
}

/// The size of the content box, in percent of the viewport.
#[derive(Debug, PartialEq, Eq, Structural, Clone, Copy)]
pub struct BoxSizeJson {
    pub percent_width: u16,
    pub percent_height: u16,
}

/// The whole deck: the box size and the slides in presentation order.
#[derive(Debug, PartialEq, Eq, Clone)]
pub struct SlidesJson {
    pub box_size: BoxSizeJson,
    pub slides: Vec<SlideJson>,
}

/// Which frame a `Block` drawable stands for.
#[derive(Debug, PartialEq, Eq, Structural, Clone, Copy)]
pub enum Border {
    /// A block that the deck declares as content.
    Item,
    /// The frame round the content box, with the page indicator
    /// `current/total` in its bottom-right corner.
    Page { current: usize, total: usize },
    /// The dark frame painted behind a picture.
    Backdrop,
}

/// What is painted at one place of the screen.
#[derive(Debug, PartialEq, Eq, Clone)]
pub enum ReturnSlideWidget {
    /// A block of text.
    Paragraph(String),
    /// Text in large glyphs.
    BigText(String),
    /// A single line of text.
    Line(String),
    /// The prepared picture with this ordinal in the image cache.
    Image(usize),
    /// A frame.
    Block(Border),
    /// A sparkline over this series.
    Sparkline(Vec<u64>),
    /// Highlighted source text, one entry for each line.
    CodeHighlight(Vec<CodeLine>),
}

/// One paint instruction: the drawable, its absolute rectangle, and the
/// colour that the deck declares for it, if any.
#[derive(Debug, PartialEq, Eq, Clone)]
pub struct DrawCall {
    pub widget: ReturnSlideWidget,
    pub area: Rect,
    pub color: Option<String>,
}

/// A picture that has to be loaded before the current slide can be drawn.
#[derive(Debug, PartialEq, Eq, Clone)]
pub struct ImageRequest {
    /// Position of the entry in the slide's content.
    pub item: usize,
    /// The path that the entry declares; empty where it declares none.
    pub path: String,
}

/// The text of an optional string.
pub open spec fn text_of(s: Option<String>) -> Option<Seq<char>> {
    match s {
        Some(t) => Some(t@),
        None => None,
    }
}

/// The text of an optional string, empty where there is none.
pub open spec fn text_or_empty(s: Option<Seq<char>>) -> Seq<char> {
    match s {
        Some(t) => t,
        None => Seq::empty(),
    }
}

/// Mathematical value of a [`ContentJson`].
pub struct ContentView {
    pub kind: SlideContentType,
    pub content: Option<Seq<char>>,
    pub rect: Option<Rect>,
    pub data: Option<Seq<u64>>,
    pub color: Option<Seq<char>>,
}

impl View for ContentJson {
    type V = ContentView;

    open spec fn view(&self) -> ContentView {
        ContentView {
            kind: self.type_,
            content: text_of(self.content),
            rect: self.rect,
            data: match self.data {
                Some(d) => Some(d@),
                None => None,
            },
            color: text_of(self.color),
        }
    }
}

/// Mathematical value of a [`SlideJson`].
pub struct SlideView {
    pub title: Option<Seq<char>>,
    pub content: Seq<ContentView>,
}

impl View for SlideJson {
    type V = SlideView;

    open spec fn view(&self) -> SlideView {
        SlideView {
            title: text_of(self.title),
            content: Seq::new(self.content@.len(), |i: int| self.content@[i]@),
        }
    }
}

/// Mathematical value of a [`SlidesJson`].
pub struct DeckView {
    pub box_size: BoxSizeJson,
    pub slides: Seq<SlideView>,
}

impl View for SlidesJson {
    type V = DeckView;

    open spec fn view(&self) -> DeckView {
        DeckView {
            box_size: self.box_size,
            slides: Seq::new(self.slides@.len(), |i: int| self.slides@[i]@),
        }
    }
}

/// Mathematical value of a [`ReturnSlideWidget`].
pub enum WidgetView {
    Paragraph(Seq<char>),
    BigText(Seq<char>),
    Line(Seq<char>),
    Image(nat),
    Block(Border),
    Sparkline(Seq<u64>),
    CodeHighlight(Seq<CodeLineView>),
}

impl View for ReturnSlideWidget {
    type V = WidgetView;

    open spec fn view(&self) -> WidgetView {
        match self {
            ReturnSlideWidget::Paragraph(s) => WidgetView::Paragraph(s@),
            ReturnSlideWidget::BigText(s) => WidgetView::BigText(s@),
            ReturnSlideWidget::Line(s) => WidgetView::Line(s@),
            ReturnSlideWidget::Image(n) => WidgetView::Image(*n as nat),
            ReturnSlideWidget::Block(b) => WidgetView::Block(*b),
            ReturnSlideWidget::Sparkline(d) => WidgetView::Sparkline(d@),
            ReturnSlideWidget::CodeHighlight(lines) => WidgetView::CodeHighlight(
                lines_view(lines@),
            ),
        }
    }
}

/// Mathematical value of a [`DrawCall`].
pub struct DrawCallView {
    pub widget: WidgetView,
    pub area: Rect,
    pub color: Option<Seq<char>>,
}

impl View for DrawCall {
    type V = DrawCallView;

    open spec fn view(&self) -> DrawCallView {
        DrawCallView { widget: self.widget@, area: self.area, color: text_of(self.color) }
    }
}

/// Mathematical value of an [`ImageRequest`].
pub struct ImageRequestView {
    pub item: nat,
    pub path: Seq<char>,
}

impl View for ImageRequest {
    type V = ImageRequestView;

    open spec fn view(&self) -> ImageRequestView {
        ImageRequestView { item: self.item as nat, path: self.path@ }
    }
}

/// The mathematical values of a list of paint instructions.
pub open spec fn calls_view(calls: Seq<DrawCall>) -> Seq<DrawCallView> {
    Seq::new(calls.len(), |i: int| calls[i]@)
}

/// The mathematical value of what making paint instructions came to.
pub open spec fn calls_outcome(r: Result<Vec<DrawCall>, HighlightError>) -> Result<
    Seq<DrawCallView>,
    HighlightError,
> {
    match r {
        Ok(calls) => Ok(calls_view(calls@)),
        Err(e) => Err(e),
    }
}

/// The mathematical values of a list of picture requests.
pub open spec fn requests_view(requests: Seq<ImageRequest>) -> Seq<ImageRequestView> {
    Seq::new(requests.len(), |i: int| requests[i]@)
}

} // verus!
