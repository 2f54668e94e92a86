//! What the items of a tree give the renderer to draw.

use vstd::prelude::*;
use crate::brush::{Brush, Color};
use crate::fixed::Fixed;
use crate::geometry::{BorderRadius, IntRect, Point, Vector};
use crate::image::{FitResult, ImageSource, IntSize};
use crate::scene::{Cap, Fill, PathEl};

verus! {

/// A rectangle with a background, a border and rounded corners.
#[derive(Clone, Debug, PartialEq)]
pub struct RenderBorderRectangle {
    pub background: Brush,
    pub border_width: Fixed,
    pub border_radius: BorderRadius,
    pub border_color: Brush,
}

/// An image item: its source, the size of the source and the part of it
/// that shows, and where fitting that part into the physical size of the item
/// puts it.
#[derive(Clone, Debug, PartialEq)]
pub struct RenderImage<'a> {
    pub source: ImageSource<'a>,
    pub source_size: IntSize,
    pub source_clip: Option<IntRect>,
    pub fit: FitResult,
}

/// One event of the outline of a path item, in logical pixels.
#[derive(Clone, Copy, Debug, PartialEq, Eq, Structural)]
pub enum PathEvent {
    Begin { at: Point },
    Line { from: Point, to: Point },
    Quadratic { from: Point, ctrl: Point, to: Point },
    Cubic { from: Point, ctrl1: Point, ctrl2: Point, to: Point },
    End { last: Point, first: Point, close: bool },
}

/// The rule of a path item that tells its inside from its outside.
#[derive(Clone, Copy, Debug, PartialEq, Eq, Structural)]
pub enum FillRule {
    Nonzero,
    Evenodd,
}

/// The shape of the ends of the stroke of a path item.
#[derive(Clone, Copy, Debug, PartialEq, Eq, Structural)]
pub enum LineCap {
    Butt,
    Round,
    Square,
}

/// The outline of a path item fitted to the item: its events, and the offset
/// at which they sit in the item.
#[derive(Clone, Debug, PartialEq)]
pub struct FittedPath {
    pub offset: Vector,
    pub events: Vec<PathEvent>,
}

/// A path item. `fitted` is missing where the item has no outline.
#[derive(Clone, Debug, PartialEq)]
pub struct Path {
    pub fitted: Option<FittedPath>,
    pub fill: Brush,
    pub fill_rule: FillRule,
    pub stroke: Brush,
    pub stroke_width: Fixed,
    pub stroke_line_cap: LineCap,
}

/// The shadow of a box of the given extents.
#[derive(Clone, Copy, Debug, PartialEq, Eq, Structural)]
pub struct BoxShadow {
    pub color: Color,
    pub blur: Fixed,
    pub offset_x: Fixed,
    pub offset_y: Fixed,
    pub border_radius: Fixed,
    pub width: Fixed,
    pub height: Fixed,
}

/// A glyph as text layout places it.
#[derive(Clone, Copy, Debug, PartialEq, Eq, Structural)]
pub struct PositionedGlyph {
    pub id: u32,
    pub x: Fixed,
    pub y: Fixed,
}

/// The rule of the scene for the rule of a path item.
pub open spec fn fill_of(rule: FillRule) -> Fill {
    match rule {
        FillRule::Nonzero => Fill::NonZero,
        FillRule::Evenodd => Fill::EvenOdd,
    }
}

/// The cap of the scene for the cap of a path item.
pub open spec fn cap_of(cap: LineCap) -> Cap {
    match cap {
        LineCap::Butt => Cap::Butt,
        LineCap::Round => Cap::Round,
        LineCap::Square => Cap::Square,
    }
}

/// A point of a path item in physical pixels: moved by the offset, then
/// scaled.
pub open spec fn physical_point(p: Point, offset: Vector, scale_factor: Fixed) -> Point {
    Point {
        x: p.x.spec_add(offset.x).spec_mul(scale_factor),
        y: p.y.spec_add(offset.y).spec_mul(scale_factor),
    }
}

/// The elements that one event adds to a path: one element, or none for the
/// end of a subpath that is left open.
pub open spec fn elements_of(event: PathEvent, offset: Vector, scale_factor: Fixed) -> Seq<
    PathEl,
> {
    match event {
        PathEvent::Begin { at } => seq![PathEl::MoveTo(physical_point(at, offset, scale_factor))],
        PathEvent::Line { from, to } => seq![
            PathEl::LineTo(physical_point(to, offset, scale_factor)),
        ],
        PathEvent::Quadratic { from, ctrl, to } => seq![
            PathEl::QuadTo(
                physical_point(ctrl, offset, scale_factor),
                physical_point(to, offset, scale_factor),
            ),
        ],
        PathEvent::Cubic { from, ctrl1, ctrl2, to } => seq![
            PathEl::CurveTo(
                physical_point(ctrl1, offset, scale_factor),
                physical_point(ctrl2, offset, scale_factor),
                physical_point(to, offset, scale_factor),
            ),
        ],
        PathEvent::End { last, first, close } => if close {
            seq![PathEl::ClosePath]
        } else {
            Seq::<PathEl>::empty()
        },
    }
}

/// The path, in physical pixels, of a list of events.
pub open spec fn path_of(events: Seq<PathEvent>, offset: Vector, scale_factor: Fixed) -> Seq<
    PathEl,
>
    decreases events.len(),
{
    if events.len() == 0 {
        Seq::<PathEl>::empty()
    } else {
        path_of(events.drop_last(), offset, scale_factor) + elements_of(
            events.last(),
            offset,
            scale_factor,
        )
    }
}

} // verus!
