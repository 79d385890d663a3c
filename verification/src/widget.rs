//! The style sheets of each kind of widget.

pub mod button;
pub mod checkbox;
pub mod container;
pub mod image;
pub mod image_viewer;
pub mod menu;
pub mod pick_list;
pub mod progress_bar;
pub mod qr_code;
pub mod radio;
pub mod rule;
pub mod scrollable;
pub mod slider;
pub mod svg;
pub mod text;
pub mod text_input;
