//! A slide-deck engine for terminal presentations.
//!
//! The engine holds a deck and a position in it, places each slide inside
//! the viewport, keeps the prepared pictures of the slide on display, and
//! turns a slide into paint instructions: what to paint, and where. It reads
//! no file and paints nothing itself.
//!
//! - [`enums`]: the deck as it is loaded, and the drawables.
//! - [`deck`]: what makes a loaded deck fit to be shown.
//! - [`navigation`]: next, previous, and the position after a reload.
//! - [`layout`]: the content box, and the rectangles inside it.
//! - [`text`]: source text cut into lines.
//! - [`highlight`] and [`syntax`]: highlighting of source text with `syntect`.
//! - [`images`]: pictures prepared for the terminal with `ratatui_image`.
//! - [`draw`]: from a slide's content to paint instructions.
//! - [`action`]: the inputs, and what the engine asks for in return.
//! - [`slides`]: the component that ties these together.

pub mod action;
pub mod deck;
pub mod draw;
pub mod enums;
pub mod highlight;
pub mod images;
pub mod layout;
pub mod navigation;
pub mod slides;
pub mod syntax;
pub mod text;
