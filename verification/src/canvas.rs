//! Drawing-call log.
//!
//! The engine's drawing opcodes do not rasterize; they append one record per
//! call to an owned log, in execution order.  An embedder replays the log
//! against a real surface; the engine's determinism then extends to the
//! drawing: identical bytecode yields an identical call sequence.

use vstd::prelude::*;

use crate::value::{Colour, Sc44};

verus! {

/// A colour argument: a named constant or a packed RGBA word.
#[derive(Debug, Clone, Copy, PartialEq, Eq, Structural)]
pub enum Paint {
    /// One of the wire format's named colour constants.
    Named(Colour),
    /// A packed 8-bit-per-channel RGBA value.
    Rgba(u32),
}

/// One drawing call, with the operands the program supplied.
#[derive(Debug, Clone, Copy, PartialEq, Eq, Structural)]
pub enum CanvasCall {
    /// Fill the whole viewport with one colour.
    Clear(Paint),
    /// Fill the axis-aligned rectangle at (`x`, `y`) of size (`w`, `h`).
    FillRect {
        /// Left edge, viewport-relative.
        x: Sc44,
        /// Top edge, viewport-relative.
        y: Sc44,
        /// Width, viewport-relative.
        w: Sc44,
        /// Height, viewport-relative.
        h: Sc44,
        /// Fill colour.
        paint: Paint,
    },
    /// Fill the circle centred at (`cx`, `cy`) of radius `r`.
    FillCircle {
        /// Centre, horizontal, viewport-relative.
        cx: Sc44,
        /// Centre, vertical, viewport-relative.
        cy: Sc44,
        /// Radius, viewport-relative.
        r: Sc44,
        /// Fill colour.
        paint: Paint,
    },
}

/// The drawing surface as the engine sees it: a pixel-buffer size and the
/// log of drawing calls made against it.
#[derive(Debug)]
pub struct Canvas {
    /// Pixel-buffer width the embedder declared.
    pub width: usize,
    /// Pixel-buffer height the embedder declared.
    pub height: usize,
    /// Every drawing call so far, oldest first.
    pub calls: Vec<CanvasCall>,
}

impl View for Canvas {
    type V = Seq<CanvasCall>;

    open spec fn view(&self) -> Seq<CanvasCall> {
        self.calls@
    }
}

impl Canvas {
    /// A fresh canvas of the given pixel-buffer size with an empty log.
    pub fn new(width: usize, height: usize) -> (r: Canvas)
        ensures
            r.width == width,
            r.height == height,
            r@ == Seq::<CanvasCall>::empty(),
    {
        Canvas { width, height, calls: Vec::new() }
    }

    /// Pixel-buffer width.
    pub fn width(&self) -> (r: usize)
        ensures
            r == self.width,
    {
        self.width
    }

    /// Pixel-buffer height.
    pub fn height(&self) -> (r: usize)
        ensures
            r == self.height,
    {
        self.height
    }

    /// The drawing calls made so far, oldest first.
    pub fn calls(&self) -> (r: &Vec<CanvasCall>)
        ensures
            r@ == self@,
    {
        &self.calls
    }
}

} // verus!
