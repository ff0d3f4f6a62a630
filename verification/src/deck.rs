//! Loading a deck: what reading and parsing the source came to, and the
//! checks that a parsed deck has to pass before it is shown.

use crate::enums::{DeckView, SlideJson, SlidesJson};
use vstd::prelude::*;

verus! {

/// Why a deck could not be loaded.
#[derive(Debug, PartialEq, Eq, Structural, Clone, Copy)]
pub enum LoadError {
    /// The source could not be opened or read.
    Unreadable,
    /// The source is no deck: it does not parse, it has no slide, or a
    /// percentage of its box size is not between 1 and 100.
    Malformed,
}

/// What reading and parsing the deck's source came to.
#[derive(Debug, PartialEq, Eq, Clone)]
pub enum DeckSource {
    /// The source could not be opened or read.
    Unreadable,
    /// The source was read and is not a deck document.
    Unparsable,
    /// The source was read and parsed.
    Parsed(SlidesJson),
}

/// A percentage of the viewport that a box size may declare.
pub open spec fn valid_percent(percent: u16) -> bool {
    1 <= percent <= 100
}

/// A deck that can be shown: it has a slide, and its box size is valid.
pub open spec fn valid_deck(deck: DeckView) -> bool {
    &&& deck.slides.len() > 0
    &&& valid_percent(deck.box_size.percent_width)
    &&& valid_percent(deck.box_size.percent_height)
}

/// What loading comes to: the deck, or the reason why there is none.
pub open spec fn load_result(source: DeckSource) -> Result<DeckView, LoadError> {
    match source {
        DeckSource::Unreadable => Err(LoadError::Unreadable),
        DeckSource::Unparsable => Err(LoadError::Malformed),
        DeckSource::Parsed(deck) => if valid_deck(deck@) {
            Ok(deck@)
        } else {
            Err(LoadError::Malformed)
        },
    }
}

/// Tells whether a parsed deck can be shown.
pub fn is_valid_deck(deck: &SlidesJson) -> (b: bool)
    ensures
        b == valid_deck(deck@),
{
    deck.slides.len() > 0 && 1 <= deck.box_size.percent_width && deck.box_size.percent_width
        <= 100 && 1 <= deck.box_size.percent_height && deck.box_size.percent_height <= 100
}

/// Accepts the deck that was read and parsed, if it can be shown.
pub fn load(source: DeckSource) -> (r: Result<SlidesJson, LoadError>)
    ensures
        match r {
            Ok(deck) => source == DeckSource::Parsed(deck) && load_result(source) == Ok::<
                DeckView,
                LoadError,
            >(deck@),
            Err(e) => load_result(source) == Err::<DeckView, LoadError>(e),
        },
{
    match source {
        DeckSource::Unreadable => Err(LoadError::Unreadable),
        DeckSource::Unparsable => Err(LoadError::Malformed),
        DeckSource::Parsed(deck) => {
            if is_valid_deck(&deck) {
                Ok(deck)
            } else {
                Err(LoadError::Malformed)
            }
        },
    }
}

/// The slide at `index`.
pub fn get_slide(deck: &SlidesJson, index: usize) -> (slide: &SlideJson)
    requires
        index < deck@.slides.len(),
    ensures
        slide@ == deck@.slides[index as int],
        *slide == deck.slides@[index as int],
{
    &deck.slides[index]
}

} // verus!
