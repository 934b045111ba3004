//! Presentation-side decisions small enough to verify: the scale mode a
//! renderer toggles between, and which window sizes a resize handler
//! should act on.  The geometry itself (vertices, aspect ratios) belongs
//! to the rendering collaborator.

use vstd::prelude::*;

verus! {

/// How a frame is fitted into the window.
#[derive(Clone, Copy, Debug, PartialEq, Eq, Structural)]
pub enum ScaleMode {
    /// Keep the frame's aspect ratio inside the window, letterboxing the
    /// remainder.
    Fit,
    /// Keep the frame's aspect ratio while covering the window, cropping
    /// what overflows.
    Fill,
}

impl ScaleMode {
    /// The other mode: toggling alternates between `Fit` and `Fill`.
    pub fn toggled(self) -> (m: ScaleMode)
        ensures
            m is Fit <==> self is Fill,
    {
        match self {
            ScaleMode::Fit => ScaleMode::Fill,
            ScaleMode::Fill => ScaleMode::Fit,
        }
    }
}

/// Whether a window resize carries a size worth acting on: degenerate
/// events — a zero extent, or the sentinel extent some platforms report
/// during moves — are ignored by the resize handler.
pub fn resize_is_valid(width: u32, height: u32) -> (ok: bool)
    ensures
        ok <==> (width != 0 && height != 0 && width != u32::MAX && height != u32::MAX),
{
    width != 0 && height != 0 && width != u32::MAX && height != u32::MAX
}

} // verus!
