//! From a slide's content to paint instructions.
//!
//! Every entry gives one instruction, at the rectangle that the layout rules
//! give it. A picture gives two: the dark frame behind it, then the prepared
//! picture, named by its ordinal among the pictures of the slide. That
//! ordinal is the position of the picture's handle in the image cache.
//! Source text is cut into its lines and highlighted; that is the one step
//! that can fail.

use crate::enums::{
    calls_outcome, calls_view, requests_view, text_of, text_or_empty, Border, ContentJson,
    ContentView, DrawCall, DrawCallView, ImageRequest, ImageRequestView, ReturnSlideWidget,
    SlideContentType, SlideJson, WidgetView,
};
use crate::highlight::{faithful_line, CodeStyles, HighlightError, CODE_SYNTAX, CODE_THEME};
use crate::layout::{
    backdrop_area, backdrop_fits, backdrop_rect, backdrop_rect_fits, get_slide_rect, item_area,
    item_fits, slide_rect_fits, Rect,
};
use crate::text::{lines_of, split_lines};
use vstd::prelude::*;
use vstd::string::StringExecFns;

verus! {

/// The colour of the frames that the component draws itself.
pub open spec fn frame_color() -> Seq<char> {
    "#FFDDDD"@
}

/// The title shown for a slide that declares none.
pub open spec fn title_placeholder() -> Seq<char> {
    "__title__"@
}

/// The number of pictures among the first `n` entries.
pub open spec fn image_count(content: Seq<ContentView>, n: int) -> nat
    decreases n,
{
    if n <= 0 {
        0
    } else if content[n - 1].kind == SlideContentType::Image {
        image_count(content, n - 1) + 1
    } else {
        image_count(content, n - 1)
    }
}

/// The positions of the pictures among the first `n` entries, in order.
pub open spec fn image_items(content: Seq<ContentView>, n: int) -> Seq<nat>
    decreases n,
{
    if n <= 0 {
        Seq::empty()
    } else if content[n - 1].kind == SlideContentType::Image {
        image_items(content, n - 1).push((n - 1) as nat)
    } else {
        image_items(content, n - 1)
    }
}

/// The request for the picture that the entry at `position` declares.
pub open spec fn image_request(content: Seq<ContentView>, position: nat) -> ImageRequestView {
    ImageRequestView { item: position, path: text_or_empty(content[position as int].content) }
}

/// The requests for the pictures among the first `n` entries: one for each
/// picture position, in the same order.
pub open spec fn image_requests(content: Seq<ContentView>, n: int) -> Seq<ImageRequestView> {
    Seq::new(
        image_items(content, n).len(),
        |k: int| image_request(content, image_items(content, n)[k]),
    )
}

/// A series, empty where the entry declares none.
pub open spec fn series_or_empty(data: Option<Seq<u64>>) -> Seq<u64> {
    match data {
        Some(d) => d,
        None => Seq::empty(),
    }
}

/// The drawable of one entry; `ordinal` counts the pictures before it.
/// Source text is cut into its lines and highlighted by `styles`; where that
/// fails, the entry has no drawable but the error.
pub open spec fn item_widget(styles: CodeStyles, item: ContentView, ordinal: nat) -> Result<
    WidgetView,
    HighlightError,
> {
    match item.kind {
        SlideContentType::Paragraph => Ok(WidgetView::Paragraph(text_or_empty(item.content))),
        SlideContentType::BigText => Ok(WidgetView::BigText(text_or_empty(item.content))),
        SlideContentType::Line => Ok(WidgetView::Line(text_or_empty(item.content))),
        SlideContentType::Image => Ok(WidgetView::Image(ordinal)),
        SlideContentType::Block => Ok(WidgetView::Block(Border::Item)),
        SlideContentType::Sparkline => Ok(WidgetView::Sparkline(series_or_empty(item.data))),
        SlideContentType::CodeHighlight => match styles.highlight_result(
            CODE_SYNTAX@,
            CODE_THEME@,
            lines_of(text_or_empty(item.content)),
        ) {
            Ok(lines) => Ok(WidgetView::CodeHighlight(lines)),
            Err(e) => Err(e),
        },
    }
}

/// The mathematical value of what making a drawable came to.
pub open spec fn widget_outcome(r: Result<ReturnSlideWidget, HighlightError>) -> Result<
    WidgetView,
    HighlightError,
> {
    match r {
        Ok(widget) => Ok(widget@),
        Err(e) => Err(e),
    }
}

/// The frame behind a picture painted at `area`.
pub open spec fn backdrop_call(area: Rect) -> DrawCallView {
    DrawCallView {
        widget: WidgetView::Block(Border::Backdrop),
        area: backdrop_area(area),
        color: Some(frame_color()),
    }
}

/// The paint instructions of one entry inside the content box, or the error
/// of its drawable.
pub open spec fn item_calls(styles: CodeStyles, item: ContentView, content: Rect, ordinal: nat)
    -> Result<Seq<DrawCallView>, HighlightError> {
    let area = item_area(content, item.rect);
    match item_widget(styles, item, ordinal) {
        Ok(widget) => {
            let own = DrawCallView { widget, area, color: item.color };
            if item.kind == SlideContentType::Image {
                Ok(seq![backdrop_call(area), own])
            } else {
                Ok(seq![own])
            }
        },
        Err(e) => Err(e),
    }
}

/// The paint instructions of the first `n` entries, in declaration order, or
/// the error of the first entry that has one.
pub open spec fn content_calls(styles: CodeStyles, content: Seq<ContentView>, area: Rect, n: int)
    -> Result<Seq<DrawCallView>, HighlightError>
    decreases n,
{
    if n <= 0 {
        Ok(Seq::empty())
    } else {
        match content_calls(styles, content, area, n - 1) {
            Ok(before) => match item_calls(
                styles,
                content[n - 1],
                area,
                image_count(content, n - 1),
            ) {
                Ok(calls) => Ok(before + calls),
                Err(e) => Err(e),
            },
            Err(e) => Err(e),
        }
    }
}

/// The rectangles of the entry, and of its frame if it is a picture, can be
/// written in `u16` coordinates.
pub open spec fn entry_fits(item: ContentView, content: Rect) -> bool {
    &&& item_fits(content, item.rect)
    &&& item.kind == SlideContentType::Image ==> backdrop_fits(item_area(content, item.rect))
}

/// Every one of the first `n` entries fits.
pub open spec fn content_fits(content: Seq<ContentView>, area: Rect, n: int) -> bool {
    forall|i: int| 0 <= i < n ==> entry_fits(#[trigger] content[i], area)
}

/// One of the first `n` entries is source text to be highlighted.
pub open spec fn has_code(content: Seq<ContentView>, n: int) -> bool {
    exists|i: int| 0 <= i < n && (#[trigger] content[i]).kind == SlideContentType::CodeHighlight
}

/// Every line of highlighted source text is shown as it is.
pub open spec fn faithful_widget(widget: WidgetView) -> bool {
    match widget {
        WidgetView::CodeHighlight(lines) => forall|k: int|
            0 <= k < lines.len() ==> faithful_line(#[trigger] lines[k]),
        _ => true,
    }
}

/// Every line of highlighted source text among the instructions is shown
/// as it is.
pub open spec fn faithful_calls(calls: Seq<DrawCallView>) -> bool {
    forall|j: int| 0 <= j < calls.len() ==> faithful_widget((#[trigger] calls[j]).widget)
}

/// A copy of an optional string.
pub fn copy_text(s: &Option<String>) -> (r: Option<String>)
    ensures
        text_of(r) == text_of(*s),
{
    match s {
        Some(t) => Some(t.clone()),
        None => None,
    }
}

/// A copy of an optional string, empty where there is none.
pub fn text_or_default(s: &Option<String>) -> (r: String)
    ensures
        r@ == text_or_empty(text_of(*s)),
{
    match s {
        Some(t) => t.clone(),
        None => String::new(),
    }
}

/// A copy of an optional series, empty where there is none.
pub fn series_or_default(data: &Option<Vec<u64>>) -> (r: Vec<u64>)
    ensures
        r@ == series_or_empty(
            match *data {
                Some(d) => Some(d@),
                None => None,
            },
        ),
{
    match data {
        Some(d) => {
            let copy = d.clone();
            copy
        },
        None => Vec::new(),
    }
}

/// The drawable of one entry; `ordinal` counts the pictures before it.
///
/// Source text is cut into its lines and highlighted by `styles`. Only that
/// can fail; every other entry has its drawable.
pub fn make_slide_content(item: &ContentJson, ordinal: usize, styles: &CodeStyles) -> (r: Result<
    ReturnSlideWidget,
    HighlightError,
>)
    ensures
        widget_outcome(r) == item_widget(*styles, item@, ordinal as nat),
        item.type_ != SlideContentType::CodeHighlight ==> r is Ok,
{
    match item.type_ {
        SlideContentType::Paragraph => Ok(
            ReturnSlideWidget::Paragraph(text_or_default(&item.content)),
        ),
        SlideContentType::BigText => Ok(ReturnSlideWidget::BigText(text_or_default(&item.content))),
        SlideContentType::Line => Ok(ReturnSlideWidget::Line(text_or_default(&item.content))),
        SlideContentType::Image => Ok(ReturnSlideWidget::Image(ordinal)),
        SlideContentType::Block => Ok(ReturnSlideWidget::Block(Border::Item)),
        SlideContentType::Sparkline => Ok(
            ReturnSlideWidget::Sparkline(series_or_default(&item.data)),
        ),
        SlideContentType::CodeHighlight => {
            let text = text_or_default(&item.content);
            match styles.highlight_code(split_lines(text.as_str())) {
                Ok(lines) => Ok(ReturnSlideWidget::CodeHighlight(lines)),
                Err(e) => Err(e),
            }
        },
    }
}

/// A frame drawn by the component itself, in the frame colour.
pub fn make_block(border: Border, area: Rect) -> (call: DrawCall)
    ensures
        call@ == (DrawCallView {
            widget: WidgetView::Block(border),
            area,
            color: Some(frame_color()),
        }),
{
    DrawCall {
        widget: ReturnSlideWidget::Block(border),
        area,
        color: Some(String::from_str("#FFDDDD")),
    }
}

/// The positions of the pictures in the slide's content, in order.
pub fn slide_image_items(slide: &SlideJson) -> (items: Vec<usize>)
    ensures
        items@.len() == image_items(slide@.content, slide@.content.len() as int).len(),
        forall|k: int|
            0 <= k < items@.len() ==> (#[trigger] items@[k]) as nat == image_items(
                slide@.content,
                slide@.content.len() as int,
            )[k],
{
    let mut items: Vec<usize> = Vec::new();
    let mut i: usize = 0;
    while i < slide.content.len()
        invariant
            i <= slide.content@.len(),
            slide@.content.len() == slide.content@.len(),
            items@.len() == image_items(slide@.content, i as int).len(),
            forall|k: int|
                0 <= k < items@.len() ==> (#[trigger] items@[k]) as nat == image_items(
                    slide@.content,
                    i as int,
                )[k],
        decreases slide.content@.len() - i,
    {
        if slide.content[i].type_ == SlideContentType::Image {
            items.push(i);
        }
        i = i + 1;
    }
    items
}

/// The pictures that have to be loaded for the slide, in the order in which
/// they are painted.
pub fn slide_image_requests(slide: &SlideJson) -> (requests: Vec<ImageRequest>)
    ensures
        requests_view(requests@) == image_requests(slide@.content, slide@.content.len() as int),
{
    let mut requests: Vec<ImageRequest> = Vec::new();
    let mut i: usize = 0;
    while i < slide.content.len()
        invariant
            i <= slide.content@.len(),
            slide@.content.len() == slide.content@.len(),
            requests_view(requests@) == image_requests(slide@.content, i as int),
        decreases slide.content@.len() - i,
    {
        let item = &slide.content[i];
        let ghost before = requests_view(requests@);
        if item.type_ == SlideContentType::Image {
            let request = ImageRequest { item: i, path: text_or_default(&item.content) };
            let ghost request_view = request@;
            requests.push(request);
            assert(before.push(request_view) == image_requests(slide@.content, i + 1));
        }
        i = i + 1;
    }
    requests
}

/// Tells whether every entry of the slide can be placed in the content box.
pub fn slide_items_fit(slide: &SlideJson, content: Rect) -> (b: bool)
    ensures
        b == content_fits(slide@.content, content, slide@.content.len() as int),
{
    let mut i: usize = 0;
    while i < slide.content.len()
        invariant
            i <= slide.content@.len(),
            slide@.content.len() == slide.content@.len(),
            content_fits(slide@.content, content, i as int),
        decreases slide.content@.len() - i,
    {
        let item = &slide.content[i];
        assert(slide@.content[i as int] == item@);
        if !slide_rect_fits(content, item.rect) {
            return false;
        }
        if item.type_ == SlideContentType::Image {
            let area = get_slide_rect(content, item.rect);
            if !backdrop_rect_fits(area) {
                return false;
            }
        }
        i = i + 1;
    }
    true
}

/// The paint instructions of a slide's content inside the content box, in
/// declaration order, with the pictures numbered from 0 as they come and
/// the source text highlighted by `styles`. Where source text cannot be
/// highlighted, there are no instructions but the error of the first such
/// entry.
pub fn make_slide_items(slide: &SlideJson, content: Rect, styles: &CodeStyles) -> (r: Result<
    Vec<DrawCall>,
    HighlightError,
>)
    requires
        content_fits(slide@.content, content, slide@.content.len() as int),
    ensures
        calls_outcome(r) == content_calls(
            *styles,
            slide@.content,
            content,
            slide@.content.len() as int,
        ),
        !has_code(slide@.content, slide@.content.len() as int) ==> r is Ok,
{
    let mut calls: Vec<DrawCall> = Vec::new();
    let mut ordinal: usize = 0;
    let mut i: usize = 0;
    while i < slide.content.len()
        invariant
            i <= slide.content@.len(),
            slide@.content.len() == slide.content@.len(),
            content_fits(slide@.content, content, slide@.content.len() as int),
            ordinal == image_count(slide@.content, i as int),
            ordinal <= i,
            content_calls(*styles, slide@.content, content, i as int) is Ok,
            content_calls(*styles, slide@.content, content, i as int)->Ok_0 == calls_view(calls@),
        decreases slide.content@.len() - i,
    {
        let item = &slide.content[i];
        assert(slide@.content[i as int] == item@);
        let ghost before = calls_view(calls@);
        let area = get_slide_rect(content, item.rect);
        let widget = match make_slide_content(item, ordinal, styles) {
            Ok(widget) => widget,
            Err(e) => {
                proof {
                    lemma_calls_failure_stays(
                        *styles,
                        slide@.content,
                        content,
                        i + 1,
                        slide@.content.len() as int,
                    );
                    lemma_without_code(*styles, slide@.content, content, slide@.content.len() as int);
                }
                return Err(e);
            },
        };
        let own = DrawCall { widget, area, color: copy_text(&item.color) };
        let ghost own_view = own@;
        if item.type_ == SlideContentType::Image {
            let frame = make_block(Border::Backdrop, backdrop_rect(area));
            let ghost frame_view = frame@;
            calls.push(frame);
            calls.push(own);
            assert(calls_view(calls@) == before + seq![frame_view, own_view]);
            ordinal = ordinal + 1;
        } else {
            calls.push(own);
            assert(calls_view(calls@) == before + seq![own_view]);
        }
        i = i + 1;
    }
    Ok(calls)
}

/// Once an entry has an error, the error stays the same however many entries
/// follow.
pub proof fn lemma_calls_failure_stays(
    styles: CodeStyles,
    content: Seq<ContentView>,
    area: Rect,
    m: int,
    n: int,
)
    requires
        m <= n,
        content_calls(styles, content, area, m) is Err,
    ensures
        content_calls(styles, content, area, n) == content_calls(styles, content, area, m),
    decreases n,
{
    if m < n {
        lemma_calls_failure_stays(styles, content, area, m, n - 1);
    }
}

/// Only source text can fail: a slide without it has its instructions, and
/// an error is one of highlighting. Where the grammar for the code is
/// missing, that is the error of a slide with source text, and where the
/// grammar is there and the theme is missing, that is.
pub proof fn lemma_without_code(styles: CodeStyles, content: Seq<ContentView>, area: Rect, n: int)
    requires
        0 <= n <= content.len(),
    ensures
        content_calls(styles, content, area, n) is Err ==> has_code(content, n),
        has_code(content, n) && !styles.knows_syntax(CODE_SYNTAX@) ==> content_calls(
            styles,
            content,
            area,
            n,
        ) == Err::<Seq<DrawCallView>, HighlightError>(HighlightError::NoSyntax),
        has_code(content, n) && styles.knows_syntax(CODE_SYNTAX@) && !styles.knows_theme(
            CODE_THEME@,
        ) ==> content_calls(styles, content, area, n) == Err::<
            Seq<DrawCallView>,
            HighlightError,
        >(HighlightError::NoTheme),
    decreases n,
{
    if n > 0 {
        lemma_without_code(styles, content, area, n - 1);
        if has_code(content, n) && !has_code(content, n - 1) {
            let i = choose|i: int|
                0 <= i < n && (#[trigger] content[i]).kind == SlideContentType::CodeHighlight;
            assert(i == n - 1);
        }
        if content[n - 1].kind == SlideContentType::CodeHighlight {
            assert(has_code(content, n));
        }
        if has_code(content, n - 1) {
            let i = choose|i: int|
                0 <= i < n - 1 && (#[trigger] content[i]).kind == SlideContentType::CodeHighlight;
            assert(has_code(content, n));
        }
    }
}

/// There are as many picture positions as pictures, and no more pictures
/// than entries.
pub proof fn lemma_image_count(content: Seq<ContentView>, n: int)
    requires
        0 <= n <= content.len(),
    ensures
        image_items(content, n).len() == image_count(content, n),
        image_count(content, n) <= n,
    decreases n,
{
    if n > 0 {
        lemma_image_count(content, n - 1);
    }
}

/// Among the instructions of the first `n` entries the pictures are numbered
/// without gaps, so that every picture's ordinal names an entry of a cache
/// that holds them all; and every line of highlighted source text is shown
/// as it is.
pub proof fn lemma_content_calls(styles: CodeStyles, content: Seq<ContentView>, area: Rect, n: int)
    requires
        0 <= n <= content.len(),
        content_calls(styles, content, area, n) is Ok,
    ensures
        forall|j: int|
            0 <= j < content_calls(styles, content, area, n)->Ok_0.len() ==> (
            #[trigger] content_calls(styles, content, area, n)->Ok_0[j].widget
                matches WidgetView::Image(k) ==> k < image_count(content, n)),
        faithful_calls(content_calls(styles, content, area, n)->Ok_0),
    decreases n,
{
    if n > 0 {
        lemma_content_calls(styles, content, area, n - 1);
        let before = content_calls(styles, content, area, n - 1)->Ok_0;
        let item = content[n - 1];
        let last = item_calls(styles, item, area, image_count(content, n - 1))->Ok_0;
        let all = content_calls(styles, content, area, n)->Ok_0;
        assert(all == before + last);
        if item.kind == SlideContentType::CodeHighlight {
            let lines = lines_of(text_or_empty(item.content));
            styles.lemma_styled_upto(CODE_SYNTAX@, CODE_THEME@, lines, lines.len() as int);
        }
        assert forall|j: int| 0 <= j < all.len() implies (#[trigger] all[j].widget
            matches WidgetView::Image(k) ==> k < image_count(content, n)) by {
            if j < before.len() {
                assert(all[j] == before[j]);
            } else {
                assert(all[j] == last[j - before.len()]);
            }
        }
        assert forall|j: int| 0 <= j < all.len() implies faithful_widget(
            (#[trigger] all[j]).widget,
        ) by {
            if j < before.len() {
                assert(all[j] == before[j]);
            } else {
                assert(all[j] == last[j - before.len()]);
            }
        }
    }
}

/// The picture positions are exactly the positions of the entries of kind
/// `Image`, each once and in rising order.
pub proof fn lemma_image_items(content: Seq<ContentView>, n: int)
    requires
        0 <= n <= content.len(),
    ensures
        forall|k: int|
            0 <= k < image_items(content, n).len() ==> (#[trigger] image_items(content, n)[k]) < n
                && content[image_items(content, n)[k] as int].kind == SlideContentType::Image,
        forall|k: int, l: int|
            0 <= k < l < image_items(content, n).len() ==> (#[trigger] image_items(content, n)[k])
                < (#[trigger] image_items(content, n)[l]),
        forall|i: int|
            0 <= i < n && (#[trigger] content[i]).kind == SlideContentType::Image
                ==> image_items(content, n).contains(i as nat),
    decreases n,
{
    if n > 0 {
        lemma_image_items(content, n - 1);
        let before = image_items(content, n - 1);
        if content[n - 1].kind == SlideContentType::Image {
            let now = before.push((n - 1) as nat);
            assert(now[before.len() as int] == (n - 1) as nat);
            assert forall|i: int|
                0 <= i < n && (#[trigger] content[i]).kind
                    == SlideContentType::Image implies now.contains(i as nat) by {
                if i < n - 1 {
                    let k = choose|k: int| 0 <= k < before.len() && before[k] == i as nat;
                    assert(now[k] == i as nat);
                }
            }
        }
    }
}

} // verus!
