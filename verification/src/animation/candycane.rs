//! Candycane animation: a horizontal bar filled with a four-cell gradient
//! that shifts by one cell with every frame.

use crate::animation::engine::{AnimationEngine, AnimationFrame, DirtyRegion};
use vstd::prelude::*;
use vstd::string::*;

verus! {

/// The cell of the gradient at position `i`, from darkest to lightest.
pub open spec fn pattern_cell(i: int) -> char {
    if i == 0 {
        '█'
    } else if i == 1 {
        '▓'
    } else if i == 2 {
        '▒'
    } else {
        '░'
    }
}

/// The bar of `width` cells at frame `frame`: cell `i` shows the gradient at
/// position `i + frame`, taken around its four cells.
pub open spec fn pattern(width: nat, frame: nat) -> Seq<char> {
    Seq::new(width, |i: int| pattern_cell((i + frame) % 4))
}

/// What a [`CandycaneAnimation`] holds.
pub ghost struct CandycaneState {
    /// Width of the animation bar in characters.
    pub width: usize,
    /// Current frame number.
    pub frame_count: usize,
    /// Target frames per second.
    pub fps: u32,
    /// Y-coordinate of the animation bar.
    pub y_position: usize,
    /// X-coordinate offset.
    pub x_offset: usize,
}

/// The frame number that follows `frame`. The number after the largest is
/// zero; as the numbers a `usize` holds are a multiple of four, the gradient
/// goes on without a break.
pub open spec fn following_frame(frame: usize) -> usize {
    if frame == usize::MAX {
        0
    } else {
        (frame + 1) as usize
    }
}

/// Candycane animation: horizontal bar with shifting gradient pattern.
pub struct CandycaneAnimation {
    /// Width of the animation bar in characters.
    width: usize,
    /// Current frame number (used for pattern shifting).
    frame_count: usize,
    /// Target frames per second.
    fps: u32,
    /// Y-coordinate of the animation bar (for dirty region calculation).
    y_position: usize,
    /// X-coordinate offset (for dirty region calculation).
    x_offset: usize,
}

impl View for CandycaneAnimation {
    type V = CandycaneState;

    closed spec fn view(&self) -> CandycaneState {
        CandycaneState {
            width: self.width,
            frame_count: self.frame_count,
            fps: self.fps,
            y_position: self.y_position,
            x_offset: self.x_offset,
        }
    }
}

fn cell_text(position: usize) -> (cell: &'static str)
    requires
        position < 4,
    ensures
        cell@ == seq![pattern_cell(position as int)],
{
    let cell: &'static str = match position {
        0 => "█",
        1 => "▓",
        2 => "▒",
        _ => "░",
    };
    proof {
        reveal_strlit("█");
        reveal_strlit("▓");
        reveal_strlit("▒");
        reveal_strlit("░");
        assert(cell@ =~= seq![pattern_cell(position as int)]);
    }
    cell
}

impl CandycaneAnimation {
    /// Create a new candycane animation at frame zero, with 60 frames per
    /// second.
    pub fn new(width: usize, y_position: usize, x_offset: usize) -> (animation: Self)
        ensures
            animation@ == (CandycaneState { width, frame_count: 0, fps: 60, y_position, x_offset }),
    {
        CandycaneAnimation { width, frame_count: 0, fps: 60, y_position, x_offset }
    }

    /// Set custom FPS (for testing or performance tuning).
    pub fn with_fps(self, fps: u32) -> (animation: Self)
        ensures
            animation@ == (CandycaneState { fps, ..self@ }),
    {
        let mut animation = self;
        animation.fps = fps;
        animation
    }

    /// Generate the pattern for the current frame.
    pub fn generate_pattern(&self) -> (content: String)
        ensures
            content@ == pattern(self@.width as nat, self@.frame_count as nat),
    {
        let shift: usize = self.frame_count % 4;
        let mut content = String::new();
        let mut i: usize = 0;
        while i < self.width
            invariant
                i <= self.width,
                shift == self.frame_count % 4,
                content@ == pattern(i as nat, self.frame_count as nat),
            decreases self.width - i,
        {
            let position: usize = (i % 4 + shift) % 4;
            assert(position == (i + self.frame_count) % 4) by (nonlinear_arith)
                requires
                    position == (i % 4 + shift) % 4,
                    shift == self.frame_count % 4,
            ;
            content.append(cell_text(position));
            assert(content@ =~= pattern((i + 1) as nat, self.frame_count as nat));
            i = i + 1;
        }
        content
    }
}

impl AnimationEngine for CandycaneAnimation {
    /// The bar at the current frame, with the bar's own row as the one region
    /// to redraw. The animation never ends, and moves on by one frame.
    fn next_frame(&mut self) -> (frame: Option<AnimationFrame>)
        ensures
            final(self)@ == (CandycaneState {
                frame_count: following_frame(old(self)@.frame_count),
                ..old(self)@
            }),
            frame matches Some(f) && f.content@ == pattern(
                old(self)@.width as nat,
                old(self)@.frame_count as nat,
            ) && f.dirty_regions@ == seq![
                DirtyRegion {
                    x: old(self)@.x_offset,
                    y: old(self)@.y_position,
                    width: old(self)@.width,
                    height: 1,
                },
            ],
    {
        let content = self.generate_pattern();
        let dirty_region = DirtyRegion {
            x: self.x_offset,
            y: self.y_position,
            width: self.width,
            height: 1,
        };
        self.frame_count = if self.frame_count == usize::MAX {
            0
        } else {
            self.frame_count + 1
        };
        let mut regions: Vec<DirtyRegion> = Vec::new();
        regions.push(dirty_region);
        assert(regions@ =~= seq![dirty_region]);
        Some(AnimationFrame::new(content, regions))
    }

    fn target_fps(&self) -> (fps: u32)
        ensures
            fps == self@.fps,
    {
        self.fps
    }

    fn reset(&mut self)
        ensures
            final(self)@ == (CandycaneState { frame_count: 0, ..old(self)@ }),
    {
        self.frame_count = 0;
    }
}

/// The gradient has four cells, so the bar repeats every four frames.
pub proof fn lemma_pattern_repeats(width: nat, frame: nat)
    ensures
        pattern(width, frame + 4) == pattern(width, frame),
{
    assert forall|i: int| 0 <= i < width implies #[trigger] pattern(width, frame + 4)[i]
        == pattern(width, frame)[i] by {
        assert((i + (frame + 4)) % 4 == (i + frame) % 4) by (nonlinear_arith)
            requires
                0 <= i,
        ;
    }
    assert(pattern(width, frame + 4) =~= pattern(width, frame));
}

/// The bar moves by one cell per frame: each cell of the next frame shows
/// what its right-hand neighbour shows now.
pub proof fn lemma_pattern_shifts(width: nat, frame: nat, i: int)
    requires
        0 <= i,
        i + 1 < width,
    ensures
        pattern(width, frame + 1)[i] == pattern(width, frame)[i + 1],
{
}

/// The frame after the largest frame number shows what the count of frames
/// calls for: the gradient goes on without a break.
pub proof fn lemma_frame_wrap_is_seamless(width: nat)
    ensures
        pattern(width, following_frame(usize::MAX) as nat) == pattern(
            width,
            (usize::MAX + 1) as nat,
        ),
{
    assert((usize::MAX + 1) % 4 == 0) by {
        assert(usize::MAX == 0xffff_ffff || usize::MAX == 0xffff_ffff_ffff_ffff);
    }
    assert forall|i: int| 0 <= i < width implies #[trigger] pattern(width, 0)[i] == pattern(
        width,
        (usize::MAX + 1) as nat,
    )[i] by {
        assert((i + (usize::MAX + 1)) % 4 == (i + 0) % 4) by (nonlinear_arith)
            requires
                0 <= i,
                (usize::MAX + 1) % 4 == 0,
        ;
    }
    assert(pattern(width, 0) =~= pattern(width, (usize::MAX + 1) as nat));
}

} // verus!
