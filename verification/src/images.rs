//! Pictures prepared for the terminal.

use vstd::prelude::*;

verus! {

/// A decoded picture of the `image` crate. Nothing of its pixels is read here.
#[verifier::external_type_specification]
#[verifier::external_body]
pub struct ExDynamicImage(image::DynamicImage);

/// The terminal's font size and graphics protocol, as `ratatui_image` found them.
#[verifier::external_type_specification]
#[verifier::external_body]
pub struct ExPicker(ratatui_image::picker::Picker);

/// A picture that `ratatui_image` resizes and encodes when it is painted.
#[verifier::external_type_specification]
#[verifier::external_body]
pub struct ExStatefulProtocol(ratatui_image::protocol::StatefulProtocol);

/// One entry of the image cache: the handle that the terminal paints, and
/// the position in the slide's content of the entry it was prepared for.
pub struct PreparedImage {
    pub item: usize,
    pub handle: ratatui_image::protocol::StatefulProtocol,
}

/// Makes the paintable handle of a decoded picture with
/// `ratatui_image::picker::Picker::new_resize_protocol`. The handle depends on
/// the picker's protocol and, for some protocols, on a random number, so
/// nothing is stated of it.
#[verifier::external_body]
pub(crate) fn new_resize_protocol(
    picker: &ratatui_image::picker::Picker,
    image: image::DynamicImage,
) -> ratatui_image::protocol::StatefulProtocol {
    picker.new_resize_protocol(image)
}

/// A picture of the current slide could not be opened or decoded.
#[derive(Debug, PartialEq, Eq, Structural, Clone, Copy)]
pub struct ImageResolutionError {
    /// Position of the entry in the slide's content.
    pub item: usize,
}

/// The content positions that the entries of a cache were prepared for.
pub open spec fn prepared_items(images: Seq<PreparedImage>) -> Seq<nat> {
    Seq::new(images.len(), |i: int| images[i].item as nat)
}

} // verus!
