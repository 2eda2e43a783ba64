//! The frame of an animation, the region it redraws and the interface of an
//! animation that produces frames.

use vstd::prelude::*;

verus! {

#[verifier::external_type_specification]
#[verifier::external_body]
pub struct ExInstant(std::time::Instant);

/// `Instant::now`: the reading of the monotonic clock. Nothing is claimed of
/// it.
#[verifier::external_body]
fn instant_now() -> (now: std::time::Instant) {
    std::time::Instant::now()
}

/// `Instant::clone`: an instant is copied as it stands.
pub assume_specification[ <std::time::Instant as Clone>::clone ](instant: &std::time::Instant) -> (copy:
    std::time::Instant)
    ensures
        copy == *instant,
;

/// Defines a rectangular region that needs to be redrawn.
#[derive(Debug, Clone, PartialEq, Eq, Structural)]
pub struct DirtyRegion {
    pub x: usize,
    pub y: usize,
    pub width: usize,
    pub height: usize,
}

/// Represents a single frame of animation with dirty regions.
#[derive(Debug, Clone)]
pub struct AnimationFrame {
    /// The rendered content for this frame.
    pub content: String,
    /// Regions that changed from the previous frame.
    pub dirty_regions: Vec<DirtyRegion>,
    /// Frame timestamp for FPS calculation.
    pub timestamp: std::time::Instant,
}

impl AnimationFrame {
    /// A frame with this content and these regions, stamped with the time of
    /// its creation.
    pub fn new(content: String, dirty_regions: Vec<DirtyRegion>) -> (frame: Self)
        ensures
            frame.content == content,
            frame.dirty_regions == dirty_regions,
    {
        AnimationFrame { content, dirty_regions, timestamp: instant_now() }
    }
}

/// Frame-based animation interface.
pub trait AnimationEngine {
    /// Generate the next frame of animation.
    /// Returns None if animation is complete (for finite animations).
    fn next_frame(&mut self) -> Option<AnimationFrame>;

    /// Get the target FPS for this animation.
    fn target_fps(&self) -> u32;

    /// Reset animation to initial state.
    fn reset(&mut self);
}

} // verus!
