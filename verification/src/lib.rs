//! Verified core of the sldshow2 slideshow viewer: configuration rules,
//! timers, navigation over the image list, texture-cache planning, overlay
//! stacking, input mapping and the text shown on screen.

pub mod config;
pub mod image_loader;
pub mod scan;
pub mod timer;
pub mod slideshow;
pub mod osc;
pub mod overlay;
pub mod textfmt;
pub mod input;
pub mod color_adjust;
pub mod metadata;
pub mod transition;
pub mod drag_drop;
pub mod screenshot;
pub mod thumbnail;
pub mod viewtext;
pub mod viewer;
pub mod text;
pub mod orientation;
