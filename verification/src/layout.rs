//! Rectangles in terminal cells and the rules that place a slide and its
//! content inside a viewport. Nothing here is kept between two draw passes:
//! every rectangle is derived afresh from the viewport.

use vstd::prelude::*;

verus! {

/// Width of the content box in percent of the viewport while no deck is loaded.
pub const CONTENT_WIDTH: u16 = 80;

/// Height of the content box in percent of the viewport while no deck is loaded.
pub const CONTENT_HEIGHT: u16 = 80;

/// Rows between the top of the content box and the title.
pub const TITLE_OFFSET: u16 = 2;

/// A rectangle of terminal cells: the top-left cell and the size.
#[derive(Clone, Copy, Debug, PartialEq, Eq, Structural)]
pub struct Rect {
    pub x: u16,
    pub y: u16,
    pub width: u16,
    pub height: u16,
}

impl Rect {
    /// The right and the bottom edge are coordinates of their own.
    pub open spec fn in_bounds(self) -> bool {
        self.x + self.width <= u16::MAX && self.y + self.height <= u16::MAX
    }

    /// Every cell of `self` is a cell of `outer`.
    pub open spec fn within(self, outer: Rect) -> bool {
        &&& outer.x <= self.x
        &&& outer.y <= self.y
        &&& self.x + self.width <= outer.x + outer.width
        &&& self.y + self.height <= outer.y + outer.height
    }
}

/// `extent` shortened so that it does not reach past `u16::MAX` from `origin`.
pub open spec fn clamped_extent(origin: int, extent: u16) -> u16 {
    if extent <= u16::MAX - origin {
        extent
    } else {
        (u16::MAX - origin) as u16
    }
}

/// `percent` hundredths of `extent`, rounded down, and never more than `extent`.
pub open spec fn scaled(extent: u16, percent: u16) -> u16 {
    if percent >= 100 {
        extent
    } else {
        (extent * percent / 100) as u16
    }
}

/// The content box: the given percentages of the viewport, centred in it.
/// Where the margin is odd, the spare cell goes to the right and the bottom.
pub open spec fn content_box(area: Rect, box_width: u16, box_height: u16) -> Rect {
    let width = scaled(area.width, box_width);
    let height = scaled(area.height, box_height);
    Rect {
        x: (area.x + (area.width - width) / 2) as u16,
        y: (area.y + (area.height - height) / 2) as u16,
        width,
        height,
    }
}

/// The rectangle of one content entry: its declared rectangle moved by the
/// origin of the content box and not scaled, or the whole content box.
pub open spec fn item_area(content: Rect, item_rect: Option<Rect>) -> Rect {
    match item_rect {
        Some(r) => Rect {
            x: (content.x + r.x) as u16,
            y: (content.y + r.y) as u16,
            width: r.width,
            height: r.height,
        },
        None => content,
    }
}

/// The origin of the entry's rectangle is a coordinate.
pub open spec fn item_fits(content: Rect, item_rect: Option<Rect>) -> bool {
    match item_rect {
        Some(r) => content.x + r.x <= u16::MAX && content.y + r.y <= u16::MAX,
        None => true,
    }
}

/// The rectangle of the title: the content box moved down by
/// [`TITLE_OFFSET`] rows and shortened where it would leave the coordinates.
pub open spec fn title_area(content: Rect) -> Rect {
    Rect {
        x: content.x,
        y: (content.y + TITLE_OFFSET) as u16,
        width: clamped_extent(content.x as int, content.width),
        height: clamped_extent(content.y + TITLE_OFFSET, content.height),
    }
}

/// A picture's frame can be placed round `area`.
pub open spec fn backdrop_fits(area: Rect) -> bool {
    &&& area.x >= 1
    &&& area.y >= 1
    &&& area.width + 2 <= u16::MAX
    &&& area.height + 2 <= u16::MAX
}

/// The frame behind a picture: one cell larger on every side, so that the
/// picture fills the inside of the frame.
pub open spec fn backdrop_area(area: Rect) -> Rect {
    Rect {
        x: (area.x - 1) as u16,
        y: (area.y - 1) as u16,
        width: (area.width + 2) as u16,
        height: (area.height + 2) as u16,
    }
}

/// Builds a rectangle with `ratatui::layout::Rect::new`, which keeps the
/// origin and shortens the width and the height so that the right and the
/// bottom edge do not pass `u16::MAX`.
#[verifier::external_body]
pub(crate) fn rect_new(x: u16, y: u16, width: u16, height: u16) -> (r: Rect)
    ensures
        r.x == x,
        r.y == y,
        r.width == clamped_extent(x as int, width),
        r.height == clamped_extent(y as int, height),
{
    let made = ratatui::layout::Rect::new(x, y, width, height);
    Rect { x: made.x, y: made.y, width: made.width, height: made.height }
}

/// Tells whether the right and the bottom edge of `area` are coordinates.
pub fn is_in_bounds(area: Rect) -> (b: bool)
    ensures
        b == area.in_bounds(),
{
    area.width <= u16::MAX - area.x && area.height <= u16::MAX - area.y
}

/// `percent` hundredths of `extent`.
fn scale(extent: u16, percent: u16) -> (r: u16)
    ensures
        r == scaled(extent, percent),
        r <= extent,
{
    if percent >= 100 {
        extent
    } else {
        assert(extent * percent <= 65535 * 99 && extent * percent / 100 <= extent)
            by (nonlinear_arith)
            requires
                0 <= extent <= 65535,
                0 <= percent < 100,
        ;
        let product: u32 = (extent as u32) * (percent as u32);
        (product / 100) as u16
    }
}

/// Places the content box in the viewport `area`.
///
/// The box is never larger than the viewport and lies inside it.
pub fn get_slides_layout(area: Rect, box_width: u16, box_height: u16) -> (r: Rect)
    requires
        area.in_bounds(),
    ensures
        r == content_box(area, box_width, box_height),
        r.within(area),
        r.in_bounds(),
{
    let width = scale(area.width, box_width);
    let height = scale(area.height, box_height);
    Rect {
        x: area.x + (area.width - width) / 2,
        y: area.y + (area.height - height) / 2,
        width,
        height,
    }
}

/// Tells whether the origin of an entry's rectangle is a coordinate.
pub fn slide_rect_fits(rect: Rect, item_rect: Option<Rect>) -> (b: bool)
    ensures
        b == item_fits(rect, item_rect),
{
    match item_rect {
        Some(r) => r.x <= u16::MAX - rect.x && r.y <= u16::MAX - rect.y,
        None => true,
    }
}

/// The absolute rectangle of a content entry inside the content box `rect`.
///
/// Without a declared rectangle the entry fills the box. With one, the
/// origins add up and the size is the declared one; nothing is clipped.
pub fn get_slide_rect(rect: Rect, item_rect: Option<Rect>) -> (r: Rect)
    requires
        item_fits(rect, item_rect),
    ensures
        r == item_area(rect, item_rect),
        item_rect is None ==> r == rect,
        item_rect matches Some(i) ==> r.x == rect.x + i.x && r.y == rect.y + i.y && r.width
            == i.width && r.height == i.height,
{
    match item_rect {
        Some(i) => Rect { x: rect.x + i.x, y: rect.y + i.y, width: i.width, height: i.height },
        None => rect,
    }
}

/// The rectangle of the title inside the content box.
pub fn title_rect(content: Rect) -> (r: Rect)
    requires
        content.y + TITLE_OFFSET <= u16::MAX,
    ensures
        r == title_area(content),
{
    rect_new(content.x, content.y + TITLE_OFFSET, content.width, content.height)
}

/// Tells whether a picture's frame can be placed round `area`.
pub fn backdrop_rect_fits(area: Rect) -> (b: bool)
    ensures
        b == backdrop_fits(area),
{
    area.x >= 1 && area.y >= 1 && area.width <= u16::MAX - 2 && area.height <= u16::MAX - 2
}

/// The rectangle of the frame behind a picture drawn at `area`.
pub fn backdrop_rect(area: Rect) -> (r: Rect)
    requires
        backdrop_fits(area),
    ensures
        r == backdrop_area(area),
{
    Rect { x: area.x - 1, y: area.y - 1, width: area.width + 2, height: area.height + 2 }
}

/// The content box is centred: the margin on the right is the one on the
/// left or one cell more, and so is the one below against the one above.
pub proof fn lemma_content_box_centred(area: Rect, box_width: u16, box_height: u16)
    requires
        area.in_bounds(),
    ensures
        ({
            let r = content_box(area, box_width, box_height);
            let left = r.x - area.x;
            let right = (area.x + area.width) - (r.x + r.width);
            let above = r.y - area.y;
            let below = (area.y + area.height) - (r.y + r.height);
            &&& r.width <= area.width
            &&& r.height <= area.height
            &&& 0 <= left <= right <= left + 1
            &&& 0 <= above <= below <= above + 1
        }),
{
    lemma_scaled(area.width, box_width);
    lemma_scaled(area.height, box_height);
}

/// A percentage of an extent is no more than the extent.
pub proof fn lemma_scaled(extent: u16, percent: u16)
    ensures
        scaled(extent, percent) <= extent,
        percent >= 100 ==> scaled(extent, percent) == extent,
        percent < 100 ==> scaled(extent, percent) == extent * percent / 100,
{
    if percent < 100 {
        assert(0 <= extent * percent / 100 <= extent) by (nonlinear_arith)
            requires
                0 <= extent <= 65535,
                0 <= percent < 100,
        ;
    }
}

/// A title never leaves the coordinates, and equals the content box moved
/// down where that box ends at least [`TITLE_OFFSET`] rows before the last row.
pub proof fn lemma_title_area(content: Rect)
    requires
        content.y + TITLE_OFFSET <= u16::MAX,
    ensures
        title_area(content).in_bounds(),
        content.in_bounds() && content.y + content.height + TITLE_OFFSET <= u16::MAX
            ==> title_area(content).width == content.width && title_area(content).height
            == content.height,
{
}

} // verus!
