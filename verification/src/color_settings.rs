//! The colours of the overlay.

use vstd::prelude::*;

verus! {

/// A colour as four bytes: red, green and blue, already multiplied by the
/// opacity, and the opacity itself.
#[derive(Clone, Copy, Debug, PartialEq, Eq, Structural)]
pub struct OverlayColor {
    pub red: u8,
    pub green: u8,
    pub blue: u8,
    pub alpha: u8,
}

/// The colour that the overlay is tinted with.
pub fn get_overlay_color() -> (color: OverlayColor)
    ensures
        color == (OverlayColor { red: 60, green: 20, blue: 200, alpha: 180 }),
{
    OverlayColor { red: 60, green: 20, blue: 200, alpha: 180 }
}

/// The colour of the text on the overlay.
pub fn get_overlay_text_color() -> (color: OverlayColor)
    ensures
        color == (OverlayColor { red: 60, green: 20, blue: 200, alpha: 180 }),
{
    OverlayColor { red: 60, green: 20, blue: 200, alpha: 180 }
}

} // verus!
