//! The legacy text layer: it keeps no text and never shows the info panel;
//! the overlay draws all on-screen text.

use vstd::prelude::*;

verus! {

/// A text layer that draws nothing.
pub struct TextRenderer {}

impl TextRenderer {
    /// A text layer.
    pub fn new() -> (r: TextRenderer) {
        TextRenderer {}
    }

    /// Accepts the filename bar text and ignores it.
    pub fn set_text(&mut self, text: &str)
        ensures
            *final(self) == *old(self),
    {
    }

    /// Accepts the OSD text and ignores it.
    pub fn set_osd_text(&mut self, text: &str)
        ensures
            *final(self) == *old(self),
    {
    }

    /// Accepts the info text and ignores it.
    pub fn set_info_text(&mut self, text: &str)
        ensures
            *final(self) == *old(self),
    {
    }

    /// The info panel of this layer never shows: returns `false`.
    pub fn toggle_info_overlay(&mut self) -> (shown: bool)
        ensures
            !shown,
            *final(self) == *old(self),
    {
        false
    }

    /// The info panel of this layer never shows: returns `false`.
    pub fn info_overlay_visible(&self) -> (shown: bool)
        ensures
            !shown,
    {
        false
    }
}

} // verus!
