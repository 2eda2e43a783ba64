//! Frame-based animation for visual indicators.

pub mod candycane;
pub mod engine;

pub use candycane::CandycaneAnimation;
pub use engine::{AnimationEngine, AnimationFrame, DirtyRegion};
