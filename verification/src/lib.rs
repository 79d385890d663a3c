//! Style sheets for a retained-mode GUI toolkit, read from TOML documents.
//!
//! A document names colours, and gives each kind of widget a set of named style variants:
//!
//! ```toml
//! [color]
//! surface = ["0x36", "0x39", "0x3F"]
//!
//! [button.default]
//! padding = 10
//!
//! [button.default.active]
//! background = "surface"
//! text_color = "white"
//!
//! [button.default.hovered]
//! background = { rgb = "surface", a = 0.8 }
//! ```
//!
//! The library resolves every colour, lays the sparse patches that a variant gives for its
//! states over the built-in baseline of the widget ([`merge`]), one state starting from
//! another as the widget asks, and hands out the complete style values ([`Theme`]). Every
//! map of variants holds the variant `default` ([`sheets::SheetMap`]). The library also holds
//! the decisions of a theme that follows a file on disk as the file changes
//! ([`ReloadableTheme`]); reading and watching the file is left to the caller.
//!
//! What a document means is laid down over [`node::Tree`], the model of a parsed document: for
//! each reader there is a specification of what it returns, and the reader is proved to
//! return just that. The grammar of TOML is that of the `toml` crate ([`document`]).
//!
//! Fractions never enter the library as machine fractions. A number is kept as the document
//! wrote it ([`number::Scalar`]), and the two arithmetic rules of the cascade, half the opacity
//! and one unit down, are recorded on the colour or offset they apply to, for the caller's
//! arithmetic unit to carry out. What each form stands for is a real number
//! ([`number::Scalar::value`], [`color::Color::opacity`], [`layout::Vector::place`]), and it is
//! of these numbers that the laws of the cascade speak.

pub mod assoc;
pub mod color;
pub mod decode;
pub mod document;
pub mod error;
pub mod layout;
pub mod merge;
pub mod node;
pub mod number;
mod outside;
pub mod reloadable;
pub mod sheets;
pub mod strings;
pub mod theme;
pub mod widget;

pub use crate::error::Error;
pub use crate::reloadable::ReloadableTheme;
pub use crate::theme::Theme;
pub use crate::widget::{
    button, checkbox, container, image, image_viewer, pick_list, progress_bar, qr_code, radio,
    rule, scrollable, slider, svg, text, text_input,
};
