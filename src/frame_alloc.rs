//! The source of frames for new leaf tables.
use vstd::prelude::*;
use crate::addr::Frame;

verus! {

/// Hands out free physical frames.
pub trait FrameAllocator {
    /// Takes one free frame, or returns `None` when none is left.
    fn alloc_frame(&mut self) -> Option<Frame>;
}

} // verus!
