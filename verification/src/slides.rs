//! The slide component: the loaded deck, the position in it, and the image
//! cache of the slide on display.
//!
//! The component reads no file and paints nothing. Whoever drives it reads
//! and parses the deck, loads the pictures that the component asks for, and
//! paints the instructions that [`Slides::draw`] returns. The cache belongs
//! to one slide: every change of position and every reload empties it, and
//! [`Slides::store_images`] fills it again.

use crate::action::{Action, Effect};
use crate::deck::{get_slide, load, load_result, valid_deck, DeckSource, LoadError};
use crate::draw::{
    content_calls, content_fits, faithful_calls, faithful_widget, frame_color, has_code, image_count, image_items,
    image_requests, lemma_content_calls, lemma_image_count, lemma_without_code, make_block,
    make_slide_items, slide_image_items, slide_image_requests, slide_items_fit,
    title_placeholder,
};
use crate::enums::{
    calls_outcome, calls_view, requests_view, Border, ContentView, DeckView, DrawCall,
    DrawCallView, ImageRequest, ImageRequestView, ReturnSlideWidget, SlideJson, SlideView,
    SlidesJson, WidgetView,
};
use crate::highlight::{CodeStyles, HighlightError, CODE_SYNTAX, CODE_THEME};
use crate::images::{new_resize_protocol, prepared_items, ImageResolutionError, PreparedImage};
use crate::layout::{
    content_box, get_slides_layout, is_in_bounds, title_area, title_rect, Rect, CONTENT_HEIGHT,
    CONTENT_WIDTH, TITLE_OFFSET,
};
use crate::navigation::{
    advanced, clamp, clamped_index, lemma_next_cycle, lemma_next_previous_inverse, next,
    next_index, previous, previous_index,
};
use vstd::prelude::*;
use vstd::string::StringExecFns;

verus! {

/// The deck on display, the position in it, and the prepared pictures of
/// the current slide.
pub struct Slides {
    json_slides: String,
    slides: Option<SlidesJson>,
    slide_index: usize,
    slide_count: usize,
    picker: ratatui_image::picker::Picker,
    styles: CodeStyles,
    images: Vec<PreparedImage>,
}

/// The title that is shown for a slide.
pub open spec fn shown_title(slide: SlideView) -> Seq<char> {
    match slide.title {
        Some(title) => title,
        None => title_placeholder(),
    }
}

/// The slide that is shown while no deck is loaded.
pub open spec fn empty_slide() -> SlideView {
    SlideView { title: None, content: Seq::empty() }
}

/// Each state but the last is followed by the state that `Next` leads to.
pub open spec fn next_run(states: Seq<Slides>) -> bool {
    forall|k: int|
        0 <= k < states.len() - 1 ==> (#[trigger] states[k]).moved_to(
            states[k + 1],
            next_index(states[k].index(), states[k].count()),
        )
}

/// Along a run of `Next` steps the deck stays as it is, and the position is
/// the one that as many steps lead to from the first position.
pub proof fn lemma_next_run(states: Seq<Slides>, k: int)
    requires
        next_run(states),
        0 <= k < states.len(),
    ensures
        states[k].deck() == states[0].deck(),
        states[k].count() == states[0].count(),
        states[k].index() == advanced(states[0].index(), states[0].count(), k as nat),
    decreases k,
{
    if k > 0 {
        lemma_next_run(states, k - 1);
        assert(states[k - 1].moved_to(
            states[k - 1 + 1],
            next_index(states[k - 1].index(), states[k - 1].count()),
        ));
    }
}

/// `Next`, as many times as the deck has slides, shows the slide again that
/// was shown before.
pub proof fn lemma_next_round(states: Seq<Slides>)
    requires
        states.len() >= 1,
        states[0].wf(),
        states[0].count() > 0,
        states.len() == states[0].count() + 1,
        next_run(states),
    ensures
        states.last().deck() == states[0].deck(),
        states.last().index() == states[0].index(),
{
    lemma_next_run(states, states.len() - 1);
    lemma_next_cycle(states[0].index(), states[0].count());
}

/// `Previous` after `Next` shows the slide again that was shown before, and
/// so does `Next` after `Previous`.
pub proof fn lemma_there_and_back(start: Slides, there: Slides, back: Slides)
    requires
        start.wf(),
        start.count() > 0,
        ({
            ||| start.moved_to(there, next_index(start.index(), start.count())) && there.moved_to(
                back,
                previous_index(there.index(), there.count()),
            )
            ||| start.moved_to(there, previous_index(start.index(), start.count()))
                && there.moved_to(back, next_index(there.index(), there.count()))
        }),
    ensures
        back.deck() == start.deck(),
        back.count() == start.count(),
        back.index() == start.index(),
{
    lemma_next_previous_inverse(start.index(), start.count());
}

impl Slides {
    /// The path of the deck's source.
    pub closed spec fn source(self) -> Seq<char> {
        self.json_slides@
    }

    /// The loaded deck.
    pub closed spec fn deck(self) -> Option<DeckView> {
        match self.slides {
            Some(deck) => Some(deck@),
            None => None,
        }
    }

    /// The position of the current slide.
    pub closed spec fn index(self) -> nat {
        self.slide_index as nat
    }

    /// The number of slides.
    pub closed spec fn count(self) -> nat {
        self.slide_count as nat
    }

    /// The image cache: for each prepared picture, in order, the position in
    /// the slide's content of the entry it was prepared for.
    pub closed spec fn cache(self) -> Seq<nat> {
        prepared_items(self.images@)
    }

    /// The grammars and themes by which source text is highlighted.
    pub closed spec fn styles(self) -> CodeStyles {
        self.styles
    }

    /// What prepares the pictures for the terminal.
    pub closed spec fn picker(self) -> ratatui_image::picker::Picker {
        self.picker
    }

    /// The handle of the prepared picture with this ordinal.
    pub closed spec fn handle(self, ordinal: int) -> ratatui_image::protocol::StatefulProtocol {
        self.images@[ordinal].handle
    }

    /// The position is on a slide of the loaded deck, and the deck can be
    /// shown. Without a deck there is no slide and the position is 0.
    pub open spec fn wf(self) -> bool {
        match self.deck() {
            Some(deck) => {
                &&& valid_deck(deck)
                &&& self.count() == deck.slides.len()
                &&& self.index() < self.count()
                &&& self.count() <= usize::MAX
            },
            None => self.count() == 0 && self.index() == 0,
        }
    }

    /// The current slide; an empty slide while no deck is loaded.
    pub open spec fn current(self) -> SlideView {
        match self.deck() {
            Some(deck) => deck.slides[self.index() as int],
            None => empty_slide(),
        }
    }

    /// The content of the current slide.
    pub open spec fn content(self) -> Seq<ContentView> {
        self.current().content
    }

    /// The positions of the pictures in the current slide's content.
    pub open spec fn images_needed(self) -> Seq<nat> {
        image_items(self.content(), self.content().len() as int)
    }

    /// The pictures that have to be loaded for the current slide.
    pub open spec fn requests(self) -> Seq<ImageRequestView> {
        image_requests(self.content(), self.content().len() as int)
    }

    /// The cache holds a prepared picture for each picture of the current
    /// slide and for nothing else, in the order of the slide's content.
    pub open spec fn cache_current(self) -> bool {
        self.cache() =~= self.images_needed()
    }

    /// The content box inside the viewport `area`.
    pub open spec fn content_area(self, area: Rect) -> Rect {
        match self.deck() {
            Some(deck) => content_box(
                area,
                deck.box_size.percent_width,
                deck.box_size.percent_height,
            ),
            None => content_box(area, CONTENT_WIDTH, CONTENT_HEIGHT),
        }
    }

    /// The current slide can be drawn into the viewport `area`: the cache is
    /// the current slide's, and every rectangle can be written in `u16`
    /// coordinates.
    pub open spec fn drawable(self, area: Rect) -> bool {
        &&& self.cache_current()
        &&& area.in_bounds()
        &&& self.content_area(area).y + TITLE_OFFSET <= u16::MAX
        &&& content_fits(self.content(), self.content_area(area), self.content().len() as int)
    }

    /// The instruction that paints the title.
    pub open spec fn title_call(self, area: Rect) -> DrawCallView {
        DrawCallView {
            widget: WidgetView::BigText(shown_title(self.current())),
            area: title_area(self.content_area(area)),
            color: None,
        }
    }

    /// The instruction that paints the frame with the page indicator.
    pub open spec fn frame_call(self, area: Rect) -> DrawCallView {
        DrawCallView {
            widget: WidgetView::Block(
                Border::Page { current: (self.index() + 1) as usize, total: self.count() as usize },
            ),
            area: self.content_area(area),
            color: Some(frame_color()),
        }
    }

    /// The paint instructions of one draw pass: the title, the frame, then
    /// the content in declaration order. Where source text on the slide
    /// cannot be highlighted, there are none but the error.
    pub open spec fn draw_calls(self, area: Rect) -> Result<Seq<DrawCallView>, HighlightError> {
        match content_calls(
            self.styles(),
            self.content(),
            self.content_area(area),
            self.content().len() as int,
        ) {
            Ok(calls) => Ok(seq![self.title_call(area), self.frame_call(area)] + calls),
            Err(e) => Err(e),
        }
    }

    /// `other` differs from `self` in nothing but the handles of the
    /// prepared pictures.
    pub open spec fn same_show(self, other: Self) -> bool {
        &&& other.source() == self.source()
        &&& other.styles() == self.styles()
        &&& other.picker() == self.picker()
        &&& other.deck() == self.deck()
        &&& other.index() == self.index()
        &&& other.count() == self.count()
        &&& other.cache() =~= self.cache()
    }

    /// `other` shows the same deck as `self`, at the position `index` and
    /// with an empty cache.
    pub open spec fn moved_to(self, other: Self, index: nat) -> bool {
        &&& other.source() == self.source()
        &&& other.styles() == self.styles()
        &&& other.picker() == self.picker()
        &&& other.deck() == self.deck()
        &&& other.count() == self.count()
        &&& other.index() == index
        &&& other.cache().len() == 0
    }

    /// A component without a deck. `picker` prepares the pictures; source
    /// text is highlighted by the grammars and themes that come with `syntect`.
    pub fn new(picker: ratatui_image::picker::Picker) -> (s: Self)
        ensures
            s.wf(),
            s.deck() is None,
            s.index() == 0,
            s.count() == 0,
            s.source().len() == 0,
            s.cache().len() == 0,
            s.picker() == picker,
            s.styles().knows_syntax(CODE_SYNTAX@),
            s.styles().knows_theme(CODE_THEME@),
    {
        Slides {
            json_slides: String::new(),
            slides: None,
            slide_index: 0,
            slide_count: 0,
            picker,
            styles: CodeStyles::load(),
            images: Vec::new(),
        }
    }

    /// The position of the current slide.
    pub fn slide_index(&self) -> (index: usize)
        ensures
            index == self.index(),
    {
        self.slide_index
    }

    /// The number of slides.
    pub fn slide_count(&self) -> (count: usize)
        ensures
            count == self.count(),
    {
        self.slide_count
    }

    /// The number of prepared pictures in the cache.
    pub fn image_count(&self) -> (count: usize)
        ensures
            count == self.cache().len(),
    {
        self.images.len()
    }

    /// The position in the slide's content of the entry that the prepared
    /// picture with this ordinal was made for.
    pub fn image_item(&self, ordinal: usize) -> (item: usize)
        requires
            ordinal < self.cache().len(),
        ensures
            item == self.cache()[ordinal as int],
    {
        self.images[ordinal].item
    }

    /// The path of the deck's source.
    pub fn json_slides(&self) -> (path: &String)
        ensures
            path@ == self.source(),
    {
        &self.json_slides
    }

    /// The current slide, if a deck is loaded.
    pub fn get_slide(&self) -> (slide: Option<&SlideJson>)
        requires
            self.wf(),
        ensures
            match slide {
                Some(s) => self.deck() is Some && s@ == self.current(),
                None => self.deck() is None,
            },
    {
        match &self.slides {
            Some(deck) => Some(get_slide(deck, self.slide_index)),
            None => None,
        }
    }

    /// The pictures that have to be loaded for the current slide.
    pub fn image_requests(&self) -> (requests: Vec<ImageRequest>)
        requires
            self.wf(),
        ensures
            requests_view(requests@) == self.requests(),
    {
        match self.get_slide() {
            Some(slide) => slide_image_requests(slide),
            None => {
                let requests: Vec<ImageRequest> = Vec::new();
                requests
            },
        }
    }

    /// Takes a newly read deck in place of the current one.
    ///
    /// A source that could not be read, does not parse or cannot be shown is
    /// refused, and nothing changes. Otherwise the deck is shown from the
    /// position where the old one was, or from its last slide if it has
    /// become shorter than that; the cache is emptied, and the result names
    /// the pictures to load for the slide now current.
    pub fn get_json_slides(&mut self, source: DeckSource) -> (r: Result<
        Vec<ImageRequest>,
        LoadError,
    >)
        requires
            old(self).wf(),
        ensures
            final(self).wf(),
            final(self).source() == old(self).source(),
            final(self).styles() == old(self).styles(),
            final(self).picker() == old(self).picker(),
            match r {
                Ok(requests) => {
                    &&& load_result(source) is Ok
                    &&& final(self).deck() == Some(load_result(source)->Ok_0)
                    &&& final(self).count() == load_result(source)->Ok_0.slides.len()
                    &&& final(self).index() == clamped_index(
                        old(self).index(),
                        final(self).count(),
                    )
                    &&& final(self).cache().len() == 0
                    &&& requests_view(requests@) == final(self).requests()
                },
                Err(e) => load_result(source) == Err::<DeckView, LoadError>(e) && *final(self)
                    == *old(self),
            },
    {
        match load(source) {
            Ok(deck) => {
                let count = deck.slides.len();
                self.slide_index = clamp(self.slide_index, count);
                self.slide_count = count;
                self.slides = Some(deck);
                self.images = Vec::new();
                Ok(self.image_requests())
            },
            Err(e) => Err(e),
        }
    }

    /// Fills the cache with the pictures of the current slide.
    ///
    /// `loaded` holds what loading each requested picture came to, in the
    /// order of the requests. If every picture is there, each is prepared for
    /// the terminal and the cache is the current slide's. If one is missing,
    /// the cache stays empty and the error names the first such entry.
    pub fn store_images(&mut self, loaded: Vec<Option<image::DynamicImage>>) -> (r: Result<
        (),
        ImageResolutionError,
    >)
        requires
            old(self).wf(),
            loaded@.len() == old(self).images_needed().len(),
        ensures
            final(self).wf(),
            final(self).source() == old(self).source(),
            final(self).styles() == old(self).styles(),
            final(self).picker() == old(self).picker(),
            final(self).deck() == old(self).deck(),
            final(self).index() == old(self).index(),
            final(self).count() == old(self).count(),
            r is Ok <==> forall|k: int| 0 <= k < loaded@.len() ==> loaded@[k] is Some,
            r is Ok ==> final(self).cache_current() && final(self).cache().len() == image_count(
                old(self).content(),
                old(self).content().len() as int,
            ),
            r matches Err(e) ==> final(self).cache().len() == 0 && exists|k: int|
                {
                    &&& 0 <= k < loaded@.len()
                    &&& (#[trigger] loaded@[k]) is None
                    &&& e.item == old(self).images_needed()[k]
                    &&& forall|j: int| 0 <= j < k ==> loaded@[j] is Some
                },
    {
        self.images = Vec::new();
        let items = match self.get_slide() {
            Some(slide) => slide_image_items(slide),
            None => Vec::new(),
        };
        let ghost needed = self.images_needed();
        let mut images: Vec<PreparedImage> = Vec::new();
        let total = loaded.len();
        let mut k: usize = 0;
        for entry in it: loaded
            invariant
                it.seq() == loaded@,
                k == it.index(),
                total == loaded@.len(),
                needed == old(self).images_needed(),
                items@.len() == loaded@.len(),
                needed.len() == items@.len(),
                forall|j: int| 0 <= j < items@.len() ==> (#[trigger] items@[j]) as nat == needed[j],
                images@.len() == k,
                forall|j: int| 0 <= j < k ==> (#[trigger] images@[j]).item == items@[j],
                forall|j: int| 0 <= j < k ==> loaded@[j] is Some,
                self.images@.len() == 0,
                self.wf(),
                self.source() == old(self).source(),
                self.styles() == old(self).styles(),
                self.picker() == old(self).picker(),
                self.deck() == old(self).deck(),
                self.index() == old(self).index(),
                self.count() == old(self).count(),
        {
            match entry {
                Some(image) => {
                    let handle = new_resize_protocol(&self.picker, image);
                    images.push(PreparedImage { item: items[k], handle });
                },
                None => {
                    return Err(ImageResolutionError { item: items[k] });
                },
            }
            k = k + 1;
        }
        self.images = images;
        proof {
            lemma_image_count(self.content(), self.content().len() as int);
        }
        Ok(())
    }

    /// The prepared picture with this ordinal, to be painted and resized by
    /// the terminal. The ordinal is the one that [`Slides::draw`] puts into
    /// the instruction for the picture.
    pub fn get_image(&mut self, ordinal: usize) -> (handle:
        &mut ratatui_image::protocol::StatefulProtocol)
        requires
            old(self).wf(),
            ordinal < old(self).cache().len(),
        ensures
            final(self).wf(),
            old(self).same_show(*final(self)),
            *handle == old(self).handle(ordinal as int),
            final(self).handle(ordinal as int) == *final(handle),
            forall|other: int|
                0 <= other < old(self).cache().len() && other != ordinal ==> final(self).handle(
                    other,
                ) == old(self).handle(other),
    {
        &mut self.images[ordinal].handle
    }

    /// Goes to the next slide, or from the last slide to the first, empties
    /// the cache and names the pictures to load for the new slide.
    pub fn next_slide(&mut self) -> (requests: Vec<ImageRequest>)
        requires
            old(self).wf(),
            old(self).count() > 0,
        ensures
            final(self).wf(),
            old(self).moved_to(*final(self), next_index(old(self).index(), old(self).count())),
            requests_view(requests@) == final(self).requests(),
    {
        self.slide_index = next(self.slide_index, self.slide_count);
        self.images = Vec::new();
        self.image_requests()
    }

    /// Goes to the previous slide, or from the first slide to the last,
    /// empties the cache and names the pictures to load for the new slide.
    pub fn previous_slide(&mut self) -> (requests: Vec<ImageRequest>)
        requires
            old(self).wf(),
            old(self).count() > 0,
        ensures
            final(self).wf(),
            old(self).moved_to(
                *final(self),
                previous_index(old(self).index(), old(self).count()),
            ),
            requests_view(requests@) == final(self).requests(),
    {
        self.slide_index = previous(self.slide_index, self.slide_count);
        self.images = Vec::new();
        self.image_requests()
    }

    /// The drawable of a slide's title; a placeholder where it declares none.
    pub fn make_title(slide: &SlideJson) -> (title: ReturnSlideWidget)
        ensures
            title@ == WidgetView::BigText(shown_title(slide@)),
    {
        match &slide.title {
            Some(title) => ReturnSlideWidget::BigText(title.clone()),
            None => ReturnSlideWidget::BigText(String::from_str("__title__")),
        }
    }

    /// The frame round the content box `area`, with the page indicator.
    pub fn make_content_block(&self, area: Rect) -> (call: DrawCall)
        requires
            self.wf(),
        ensures
            call@ == (DrawCallView {
                widget: WidgetView::Block(
                    Border::Page {
                        current: (self.index() + 1) as usize,
                        total: self.count() as usize,
                    },
                ),
                area,
                color: Some(frame_color()),
            }),
    {
        make_block(Border::Page { current: self.slide_index + 1, total: self.slide_count }, area)
    }

    /// Sets the path of the deck's source and takes the deck that was read
    /// from it, as [`Slides::get_json_slides`] does. The path is kept even
    /// where the deck is refused. The first deck is shown from its first slide.
    pub fn init(&mut self, json_slides: String, source: DeckSource) -> (r: Result<
        Vec<ImageRequest>,
        LoadError,
    >)
        requires
            old(self).wf(),
        ensures
            final(self).wf(),
            final(self).source() == json_slides@,
            final(self).styles() == old(self).styles(),
            final(self).picker() == old(self).picker(),
            match r {
                Ok(requests) => {
                    &&& load_result(source) is Ok
                    &&& final(self).deck() == Some(load_result(source)->Ok_0)
                    &&& final(self).count() == load_result(source)->Ok_0.slides.len()
                    &&& final(self).index() == clamped_index(
                        old(self).index(),
                        final(self).count(),
                    )
                    &&& old(self).deck() is None ==> final(self).index() == 0
                    &&& final(self).cache().len() == 0
                    &&& requests_view(requests@) == final(self).requests()
                },
                Err(e) => {
                    &&& load_result(source) == Err::<DeckView, LoadError>(e)
                    &&& final(self).deck() == old(self).deck()
                    &&& final(self).index() == old(self).index()
                    &&& final(self).count() == old(self).count()
                    &&& final(self).cache() == old(self).cache()
                },
            },
    {
        self.json_slides = json_slides;
        self.get_json_slides(source)
    }

    /// Follows an input.
    ///
    /// `Next` and `Previous` move the position and ask for the new slide's
    /// pictures. `Reload` changes nothing and asks for the deck to be read
    /// again. `Quit` is not the component's to follow.
    pub fn update(&mut self, action: Action) -> (effect: Effect)
        requires
            old(self).wf(),
            action == Action::Next || action == Action::Previous ==> old(self).count() > 0,
        ensures
            final(self).wf(),
            match action {
                Action::Next => {
                    &&& old(self).moved_to(
                        *final(self),
                        next_index(old(self).index(), old(self).count()),
                    )
                    &&& effect matches Effect::LoadImages(requests)
                    &&& requests_view(requests@) == final(self).requests()
                },
                Action::Previous => {
                    &&& old(self).moved_to(
                        *final(self),
                        previous_index(old(self).index(), old(self).count()),
                    )
                    &&& effect matches Effect::LoadImages(requests)
                    &&& requests_view(requests@) == final(self).requests()
                },
                Action::Reload => *final(self) == *old(self) && effect is ReloadDeck,
                Action::Quit => *final(self) == *old(self) && effect is Nothing,
            },
    {
        match action {
            Action::Next => Effect::LoadImages(self.next_slide()),
            Action::Previous => Effect::LoadImages(self.previous_slide()),
            Action::Reload => Effect::ReloadDeck,
            Action::Quit => Effect::Nothing,
        }
    }

    /// The content box inside the viewport `area`.
    pub fn content_rect(&self, area: Rect) -> (r: Rect)
        requires
            self.wf(),
            area.in_bounds(),
        ensures
            r == self.content_area(area),
            r.within(area),
            r.in_bounds(),
    {
        match &self.slides {
            Some(deck) => get_slides_layout(
                area,
                deck.box_size.percent_width,
                deck.box_size.percent_height,
            ),
            None => get_slides_layout(area, CONTENT_WIDTH, CONTENT_HEIGHT),
        }
    }

    /// Tells whether the cache is the current slide's.
    pub fn is_cache_current(&self) -> (b: bool)
        requires
            self.wf(),
        ensures
            b == self.cache_current(),
    {
        let items = match self.get_slide() {
            Some(slide) => slide_image_items(slide),
            None => Vec::new(),
        };
        if items.len() != self.images.len() {
            return false;
        }
        let mut k: usize = 0;
        while k < items.len()
            invariant
                k <= items@.len(),
                items@.len() == self.images@.len(),
                items@.len() == self.images_needed().len(),
                forall|j: int|
                    0 <= j < items@.len() ==> (#[trigger] items@[j]) as nat
                        == self.images_needed()[j],
                forall|j: int| 0 <= j < k ==> self.cache()[j] == self.images_needed()[j],
            decreases items@.len() - k,
        {
            if self.images[k].item != items[k] {
                return false;
            }
            k = k + 1;
        }
        true
    }

    /// Tells whether the current slide can be drawn into the viewport `area`.
    pub fn can_draw(&self, area: Rect) -> (b: bool)
        requires
            self.wf(),
        ensures
            b == self.drawable(area),
    {
        if !self.is_cache_current() || !is_in_bounds(area) {
            return false;
        }
        let content = self.content_rect(area);
        if content.y > u16::MAX - TITLE_OFFSET {
            return false;
        }
        match self.get_slide() {
            Some(slide) => slide_items_fit(slide, content),
            None => true,
        }
    }

    /// One draw pass: the paint instructions for the current slide in the
    /// viewport `area`, in paint order. The title comes first, then the frame
    /// with the page indicator, then the content as the slide declares it.
    ///
    /// Source text on the slide is highlighted anew in every pass, and only
    /// that can fail. Every picture's ordinal names a prepared picture of the
    /// cache, and every line of source text is shown as it is.
    pub fn draw(&self, area: Rect) -> (r: Result<Vec<DrawCall>, HighlightError>)
        requires
            self.wf(),
            self.drawable(area),
        ensures
            calls_outcome(r) == self.draw_calls(area),
            !has_code(self.content(), self.content().len() as int) ==> r is Ok,
            r matches Ok(calls) ==> faithful_calls(calls_view(calls@)) && forall|j: int|
                0 <= j < calls@.len() ==> (#[trigger] calls@[j]@.widget matches WidgetView::Image(
                    ordinal,
                ) ==> ordinal < self.cache().len()),
    {
        let content = self.content_rect(area);
        let empty = SlideJson { title: None, content: Vec::new() };
        let slide = match self.get_slide() {
            Some(slide) => slide,
            None => &empty,
        };
        assert(empty@.content =~= empty_slide().content);
        let title = DrawCall {
            widget: Self::make_title(slide),
            area: title_rect(content),
            color: None,
        };
        let frame = self.make_content_block(content);
        let mut items = match make_slide_items(slide, content, &self.styles) {
            Ok(items) => items,
            Err(e) => {
                return Err(e);
            },
        };
        let ghost items_view = calls_view(items@);
        let ghost title_view = title@;
        let ghost frame_view = frame@;
        let mut calls: Vec<DrawCall> = Vec::new();
        calls.push(title);
        calls.push(frame);
        calls.append(&mut items);
        assert(calls_view(calls@) == seq![title_view, frame_view] + items_view);
        proof {
            let n = self.content().len() as int;
            lemma_image_count(self.content(), n);
            lemma_content_calls(self.styles(), self.content(), content, n);
            let all = calls_view(calls@);
            assert forall|j: int| 0 <= j < calls@.len() implies (
            #[trigger] calls@[j]@.widget matches WidgetView::Image(ordinal) ==> ordinal
                < self.cache().len()) by {
                assert(calls@[j]@ == all[j]);
                if j >= 2 {
                    assert(all[j] == items_view[j - 2]);
                }
            }
            assert forall|j: int| 0 <= j < all.len() implies faithful_widget(
                (#[trigger] all[j]).widget,
            ) by {
                if j >= 2 {
                    assert(all[j] == items_view[j - 2]);
                }
            }
        }
        Ok(calls)
    }
}

} // verus!
