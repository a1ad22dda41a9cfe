//! Settings and colour of the snap preview overlay.
//!
//! The overlay window itself (a layered, click-through popup) is created and
//! painted by the adapter; this module holds its opacity and derives its
//! fill colour from the desktop's accent colour.

use vstd::prelude::*;

verus! {

/// Opacity of the overlay until the configuration sets another.
pub const DEFAULT_OPACITY: u8 = 0x99;

/// Fill colour used when the desktop accent colour cannot be read:
/// RGB(0, 120, 215) as a Win32 `COLORREF` (0x00BBGGRR).
pub const FALLBACK_COLORREF: u32 = 0x00D7_7800;

/// The red, green and blue bytes of a 0xAARRGGBB colour, as a `COLORREF`
/// (0x00BBGGRR): the alpha byte is dropped and red and blue change places.
pub open spec fn colorref_of_argb(argb: u32) -> int {
    let red = (argb / 0x1_0000) % 0x100;
    let green = (argb / 0x100) % 0x100;
    let blue = argb % 0x100;
    blue * 0x1_0000 + green * 0x100 + red
}

/// The overlay colour from the desktop colorization colour (0xAARRGGBB,
/// `None` when it could not be read).
pub fn accent_colorref(colorization: Option<u32>) -> (r: u32)
    ensures
        r == (match colorization {
            Some(argb) => colorref_of_argb(argb),
            None => FALLBACK_COLORREF as int,
        }),
{
    match colorization {
        Some(cr) => {
            let red = (cr >> 16) & 0xFF;
            let green = (cr >> 8) & 0xFF;
            let blue = cr & 0xFF;
            let r = (blue << 16) | (green << 8) | red;
            assert(r == colorref_of_argb(cr)) by (bit_vector)
                requires
                    red == (cr >> 16) & 0xFF,
                    green == (cr >> 8) & 0xFF,
                    blue == cr & 0xFF,
                    r == (blue << 16) | (green << 8) | red,
            ;
            r
        },
        None => FALLBACK_COLORREF,
    }
}

/// The overlay's whole-window alpha, applied when the overlay is next shown.
#[derive(Debug, Clone, Copy)]
pub struct OverlaySettings {
    opacity: u8,
}

impl OverlaySettings {
    pub closed spec fn alpha(self) -> u8 {
        self.opacity
    }

    /// Settings with the default opacity.
    pub fn new() -> (r: Self)
        ensures
            r.alpha() == DEFAULT_OPACITY,
    {
        OverlaySettings { opacity: DEFAULT_OPACITY }
    }

    /// Sets the alpha (0x00 transparent ..= 0xFF opaque).
    pub fn set_opacity(&mut self, a: u8)
        ensures
            final(self).alpha() == a,
    {
        self.opacity = a;
    }

    /// The alpha to apply.
    pub fn opacity(&self) -> (r: u8)
        ensures
            r == self.alpha(),
    {
        self.opacity
    }
}

impl Default for OverlaySettings {
    fn default() -> (r: Self)
        ensures
            r.alpha() == DEFAULT_OPACITY,
    {
        Self::new()
    }
}

} // verus!
