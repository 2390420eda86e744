//! Usage hints a buffer is created with.

use vstd::prelude::*;

verus! {

/// The driver's code for a stream-draw usage hint.
pub const GL_STREAM_DRAW: u32 = 0x88E0;
/// The driver's code for a static-draw usage hint.
pub const GL_STATIC_DRAW: u32 = 0x88E4;
/// The driver's code for a dynamic-draw usage hint.
pub const GL_DYNAMIC_DRAW: u32 = 0x88E8;

/// Anything that can serve as a buffer usage hint. A buffer records the
/// driver enum code of the hint it was created with.
pub trait BufferMode {
    /// The driver enum code this hint stands for.
    spec fn spec_gl_enum(&self) -> u32;

    /// Driver enum code of this usage hint.
    fn to_gl_enum(&self) -> (e: u32)
        ensures
            e == self.spec_gl_enum(),
    ;
}

/// The built-in usage hints: data set once and streamed, set once and drawn
/// many times, or rewritten many times.
#[derive(Clone, Copy, Debug, PartialEq, Eq, Structural)]
pub enum DrawMode {
    STREAM,
    STATIC,
    DYNAMIC,
}

impl BufferMode for DrawMode {
    open spec fn spec_gl_enum(&self) -> u32 {
        match self {
            DrawMode::STREAM => GL_STREAM_DRAW,
            DrawMode::STATIC => GL_STATIC_DRAW,
            DrawMode::DYNAMIC => GL_DYNAMIC_DRAW,
        }
    }

    fn to_gl_enum(&self) -> (e: u32) {
        match self {
            DrawMode::STREAM => GL_STREAM_DRAW,
            DrawMode::STATIC => GL_STATIC_DRAW,
            DrawMode::DYNAMIC => GL_DYNAMIC_DRAW,
        }
    }
}

} // verus!
