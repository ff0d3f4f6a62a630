//! What the component is asked to do, and what it asks for in return.

use crate::enums::ImageRequest;
use vstd::prelude::*;

verus! {

/// An input to the presentation.
#[derive(Debug, PartialEq, Eq, Structural, Clone, Copy)]
pub enum Action {
    /// Go to the next slide, or from the last slide to the first.
    Next,
    /// Go to the previous slide, or from the first slide to the last.
    Previous,
    /// Read the deck again from its source.
    Reload,
    /// End the presentation.
    Quit,
}

/// What has to be done outside the component before the next draw pass.
#[derive(Debug, PartialEq, Eq, Clone)]
pub enum Effect {
    /// Nothing.
    Nothing,
    /// Load these pictures and store them in the image cache.
    LoadImages(Vec<ImageRequest>),
    /// Read and parse the deck's source and hand over what came of it.
    ReloadDeck,
}

} // verus!
