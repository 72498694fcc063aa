use vstd::prelude::*;

pub mod distance;
pub mod escape;
pub mod img;
pub mod irc;
pub mod palette;
pub mod text;
pub mod tile;

use crate::escape::EscapeType;
use crate::irc::{default_width_spec, ColourType};

verus! {

/// The full configuration of one conversion run.
pub struct Args {
    /// Whether to emit basic, extended, or RGB colours.
    pub colour_type: ColourType,
    /// Whether to emit raw control characters, InspIRCd config escape
    /// sequences, or InspIRCd MOTD escape sequences.
    pub escape_type: EscapeType,
    /// The maximum height of the output text.
    pub max_height: Option<u32>,
    /// The maximum width of the output text.
    pub max_width: Option<u32>,
    /// The minimum alpha level to treat as a coloured tile.
    pub min_alpha: u8,
    /// The path to the input image.
    pub source: String,
    /// The path to the output text.
    pub target: Option<String>,
}

impl Args {
    /// The width the image is resized to: the explicit maximum where given,
    /// else the colour type's default line width.
    pub fn effective_width(&self) -> (w: u32)
        ensures
            self.max_width matches Some(v) ==> w == v,
            self.max_width is None ==> w == default_width_spec(self.colour_type),
    {
        match self.max_width {
            Some(v) => v,
            None => self.colour_type.default_width(),
        }
    }
}

} // verus!
