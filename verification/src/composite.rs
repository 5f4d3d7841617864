//! A paint operation put together for the graphics backend.
//!
//! The library decides what is to be painted: the working surface, the clip,
//! the paint source and the compositing operator. The backend then paints the
//! source onto the working surface inside the clip, and hands the working
//! surface back.

use crate::rect::IRect;
use crate::surface::{BackendSurface, SharedImageSurface};
use vstd::prelude::*;

verus! {

/// The backend's compositing operators that filter primitives use.
#[derive(Clone, Copy, Debug, PartialEq, Eq, Structural)]
pub enum Operator {
    Over,
    Multiply,
    Screen,
    Darken,
    Lighten,
    Overlay,
    ColorDodge,
    ColorBurn,
    HardLight,
    SoftLight,
    Difference,
    Exclusion,
    HslHue,
    HslSaturation,
    HslColor,
    HslLuminosity,
}

/// A surface set as paint source, with its origin at column `x`, row `y` of
/// the working surface.
#[derive(Debug)]
pub struct PaintSource {
    pub surface: SharedImageSurface,
    pub x: i32,
    pub y: i32,
}

/// A paint operation on a working surface. A fresh one has no clip and no
/// source, and composites with `Over`.
#[derive(Debug)]
pub struct Composite {
    pub target: BackendSurface,
    pub clip: Option<IRect>,
    pub source: Option<PaintSource>,
    pub operator: Operator,
}

impl Composite {
    pub fn new(target: BackendSurface) -> (c: Composite)
        ensures
            c.target == target,
            c.clip is None,
            c.source is None,
            c.operator == Operator::Over,
    {
        Composite { target, clip: None, source: None, operator: Operator::Over }
    }

    /// The clip after narrowing `clip` to `rect`.
    pub open spec fn narrowed(clip: Option<IRect>, rect: IRect) -> IRect {
        match clip {
            None => rect,
            Some(c) => c.intersection(rect),
        }
    }

    /// Narrows the clip to `rect`: painting stays inside every rectangle that
    /// the clip was narrowed to.
    pub fn clip(&mut self, rect: IRect)
        ensures
            final(self).clip == Some(Self::narrowed(old(self).clip, rect)),
            final(self).target == old(self).target,
            final(self).source == old(self).source,
            final(self).operator == old(self).operator,
    {
        let narrowed = match self.clip {
            None => rect,
            Some(c) => c.intersect(&rect),
        };
        self.clip = Some(narrowed);
    }

    pub fn set_operator(&mut self, operator: Operator)
        ensures
            final(self).operator == operator,
            final(self).target == old(self).target,
            final(self).source == old(self).source,
            final(self).clip == old(self).clip,
    {
        self.operator = operator;
    }
}

impl SharedImageSurface {
    /// Sets this surface as the paint source of `target`, with its origin at
    /// column `x`, row `y`.
    pub fn set_as_paint_source(&self, target: &mut Composite, x: i32, y: i32)
        ensures
            final(target).source == Some(PaintSource { surface: *self, x, y }),
            final(target).target == old(target).target,
            final(target).clip == old(target).clip,
            final(target).operator == old(target).operator,
    {
        target.source = Some(PaintSource { surface: self.duplicate(), x, y });
    }
}

} // verus!
