//! Brushes, as items describe them, and their conversion to paints.
//!
//! A [`Brush`] says how an item wants a shape filled. It becomes a
//! [`Paint`] once per drawing operation, against the bounds of the shape that
//! is drawn: the same gradient brush gives different paints on different
//! shapes.

use vstd::prelude::*;
use crate::fixed::Fixed;
use crate::fixed::{MAX_RAW, MIN_RAW, ONE_RAW};
use crate::geometry::{PhysicalRect, Point};
use crate::scene::{ColorStop, Paint, PaintView, Rgba8};

verus! {

/// A color of an item: red, green, blue and an alpha that is not
/// premultiplied.
#[derive(Clone, Copy, Debug, PartialEq, Eq, Structural)]
pub struct Color {
    pub red: u8,
    pub green: u8,
    pub blue: u8,
    pub alpha: u8,
}

/// A color at a position along a gradient of an item.
#[derive(Clone, Copy, Debug, PartialEq, Eq, Structural)]
pub struct GradientStop {
    pub color: Color,
    pub position: Fixed,
}

/// How an item wants a shape filled.
#[derive(Clone, Debug, PartialEq)]
pub enum Brush {
    /// One color everywhere.
    SolidColor(Color),
    /// Colors along a line at `angle` degrees.
    LinearGradient { angle: Fixed, stops: Vec<GradientStop> },
    /// Colors along the radius of a circle about the middle of the shape.
    RadialGradient { stops: Vec<GradientStop> },
    /// A brush of a kind that this renderer does not draw. `opaque` tells
    /// whether it would hide everything beneath it.
    Other { opaque: bool },
}

impl Color {
    /// The color of the four channels, alpha first.
    pub open spec fn spec_from_argb_u8(alpha: u8, red: u8, green: u8, blue: u8) -> Color {
        Color { red, green, blue, alpha }
    }

    /// The color of the four channels, alpha first.
    #[verifier::when_used_as_spec(spec_from_argb_u8)]
    pub fn from_argb_u8(alpha: u8, red: u8, green: u8, blue: u8) -> (c: Color)
        ensures
            c == Color::spec_from_argb_u8(alpha, red, green, blue),
    {
        Color { red, green, blue, alpha }
    }

    /// The fully opaque color of the three channels.
    pub open spec fn spec_from_rgb_u8(red: u8, green: u8, blue: u8) -> Color {
        Color { red, green, blue, alpha: 255 }
    }

    /// The fully opaque color of the three channels.
    #[verifier::when_used_as_spec(spec_from_rgb_u8)]
    pub fn from_rgb_u8(red: u8, green: u8, blue: u8) -> (c: Color)
        ensures
            c == Color::spec_from_rgb_u8(red, green, blue),
    {
        Color { red, green, blue, alpha: 255 }
    }

    /// The color that shows nothing.
    pub open spec fn spec_transparent() -> Color {
        Color { red: 0, green: 0, blue: 0, alpha: 0 }
    }

    /// The color that shows nothing.
    #[verifier::when_used_as_spec(spec_transparent)]
    pub fn transparent() -> (c: Color)
        ensures
            c == Color::spec_transparent(),
    {
        Color { red: 0, green: 0, blue: 0, alpha: 0 }
    }
}

/// Whether every stop of a gradient hides what is beneath it.
pub open spec fn all_stops_opaque(stops: Seq<GradientStop>) -> bool {
    forall|i: int| 0 <= i < stops.len() ==> (#[trigger] stops[i]).color.alpha == 255
}

fn stops_opaque(stops: &Vec<GradientStop>) -> (r: bool)
    ensures
        r == all_stops_opaque(stops@),
{
    let mut i: usize = 0;
    while i < stops.len()
        invariant
            i <= stops.len(),
            forall|j: int| 0 <= j < i ==> (#[trigger] stops@[j]).color.alpha == 255,
        decreases stops.len() - i,
    {
        if stops[i].color.alpha != 255 {
            return false;
        }
        i += 1;
    }
    true
}

impl Brush {
    /// Whether the brush is one color that shows nothing. A gradient never
    /// counts as transparent.
    pub open spec fn spec_is_transparent(self) -> bool {
        match self {
            Brush::SolidColor(color) => color.alpha == 0,
            _ => false,
        }
    }

    /// Whether the brush is one color that shows nothing.
    pub fn is_transparent(&self) -> (r: bool)
        ensures
            r == self.spec_is_transparent(),
    {
        match self {
            Brush::SolidColor(color) => color.alpha == 0,
            _ => false,
        }
    }

    /// Whether the brush hides everything beneath it: a solid color with full
    /// alpha, or a gradient all of whose stops have full alpha.
    pub open spec fn spec_is_opaque(self) -> bool {
        match self {
            Brush::SolidColor(color) => color.alpha == 255,
            Brush::LinearGradient { angle, stops } => all_stops_opaque(stops@),
            Brush::RadialGradient { stops } => all_stops_opaque(stops@),
            Brush::Other { opaque } => opaque,
        }
    }

    /// Whether the brush hides everything beneath it.
    pub fn is_opaque(&self) -> (r: bool)
        ensures
            r == self.spec_is_opaque(),
    {
        match self {
            Brush::SolidColor(color) => color.alpha == 255,
            Brush::LinearGradient { angle: _, stops } => stops_opaque(stops),
            Brush::RadialGradient { stops } => stops_opaque(stops),
            Brush::Other { opaque } => *opaque,
        }
    }
}

/// The paint color with the four channels of an item's color.
pub open spec fn rgba_of(color: Color) -> Rgba8 {
    Rgba8 { r: color.red, g: color.green, b: color.blue, a: color.alpha }
}

/// The paint color that shows nothing.
pub open spec fn transparent_rgba() -> Rgba8 {
    Rgba8 { r: 0, g: 0, b: 0, a: 0 }
}

/// The stop of a paint with the position and the color of an item's stop.
pub open spec fn color_stop_of(stop: GradientStop) -> ColorStop {
    ColorStop { offset: stop.position, color: rgba_of(stop.color) }
}

/// The stops of a paint for the stops of an item's gradient, in their order.
pub open spec fn color_stops_of(stops: Seq<GradientStop>) -> Seq<ColorStop> {
    Seq::new(stops.len(), |i: int| color_stop_of(stops[i]))
}

/// The middle of a rectangle.
pub open spec fn center_of(bounds: PhysicalRect) -> Point {
    Point {
        x: bounds.x0.spec_add(bounds.spec_width().spec_half()),
        y: bounds.y0.spec_add(bounds.spec_height().spec_half()),
    }
}

/// Half the diagonal of a rectangle.
pub open spec fn half_diagonal_of(bounds: PhysicalRect) -> Fixed {
    bounds.spec_width().spec_hypot(bounds.spec_height()).spec_half()
}

/// The paint that a brush gives on a shape with the given bounds.
///
/// A linear gradient keeps its angle and its bounds: its line is the line
/// that the angle gives in a rectangle of the size of the bounds, laid into
/// the bounds by [`gradient_line`]. A radial gradient is centered in the
/// bounds and reaches half their diagonal. A brush of another kind paints
/// nothing.
pub open spec fn paint_of(brush: Brush, bounds: PhysicalRect) -> PaintView {
    match brush {
        Brush::SolidColor(color) => PaintView::Solid(rgba_of(color)),
        Brush::LinearGradient { angle, stops } => PaintView::LinearGradient {
            angle,
            bounds,
            stops: color_stops_of(stops@),
        },
        Brush::RadialGradient { stops } => PaintView::RadialGradient {
            center: center_of(bounds),
            radius: half_diagonal_of(bounds),
            stops: color_stops_of(stops@),
        },
        Brush::Other { opaque } => PaintView::Solid(transparent_rgba()),
    }
}

/// The line of a linear gradient on a shape with the given bounds, for the
/// line that the gradient has in a rectangle of the size of the bounds at
/// zero: the same line, moved to where the bounds are.
pub open spec fn spec_gradient_line(bounds: PhysicalRect, start: Point, end: Point) -> (
    Point,
    Point,
) {
    (
        Point { x: bounds.x0.spec_add(start.x), y: bounds.y0.spec_add(start.y) },
        Point { x: bounds.x0.spec_add(end.x), y: bounds.y0.spec_add(end.y) },
    )
}

/// A color with its alpha multiplied by an opacity. The opacity counts as
/// zero below zero and as one above one; the product is rounded down.
pub open spec fn color_with_alpha(color: Rgba8, alpha: Fixed) -> Rgba8 {
    Rgba8 {
        r: color.r,
        g: color.g,
        b: color.b,
        a: ((color.a as int * alpha.spec_clamp_unit().raw) / (ONE_RAW as int)) as u8,
    }
}

/// A stop of a gradient with the alpha of its color multiplied by an
/// opacity.
pub open spec fn stop_with_alpha(stop: ColorStop, alpha: Fixed) -> ColorStop {
    ColorStop { offset: stop.offset, color: color_with_alpha(stop.color, alpha) }
}

/// The stops of a gradient, each with the alpha of its color multiplied by
/// an opacity.
pub open spec fn stops_with_alpha(stops: Seq<ColorStop>, alpha: Fixed) -> Seq<ColorStop> {
    Seq::new(stops.len(), |i: int| stop_with_alpha(stops[i], alpha))
}

/// A paint under an opacity: a solid color has its alpha multiplied, and so
/// has the color of every stop of a gradient. An image carries an opacity of
/// its own and stays as it is.
pub open spec fn paint_with_alpha(paint: PaintView, alpha: Fixed) -> PaintView {
    match paint {
        PaintView::Solid(color) => PaintView::Solid(color_with_alpha(color, alpha)),
        PaintView::LinearGradient { angle, bounds, stops } => PaintView::LinearGradient {
            angle,
            bounds,
            stops: stops_with_alpha(stops, alpha),
        },
        PaintView::RadialGradient { center, radius, stops } => PaintView::RadialGradient {
            center,
            radius,
            stops: stops_with_alpha(stops, alpha),
        },
        PaintView::Image { image, alpha: own } => PaintView::Image { image, alpha: own },
    }
}

/// Converts an item's color to a paint color, channel by channel.
pub fn to_peniko_color(color: &Color) -> (r: Rgba8)
    ensures
        r == rgba_of(*color),
{
    Rgba8 { r: color.red, g: color.green, b: color.blue, a: color.alpha }
}

/// The paint color of a solid brush; a gradient has none.
pub fn brush_to_peniko_color(brush: &Brush) -> (r: Option<Rgba8>)
    ensures
        r == match *brush {
            Brush::SolidColor(color) => Some(rgba_of(color)),
            _ => None,
        },
{
    match brush {
        Brush::SolidColor(color) => Some(to_peniko_color(color)),
        _ => None,
    }
}

/// Converts the stops of an item's gradient to the stops of a paint.
pub fn convert_color_stops(stops: &Vec<GradientStop>) -> (r: Vec<ColorStop>)
    ensures
        r@ == color_stops_of(stops@),
{
    let mut converted: Vec<ColorStop> = Vec::new();
    let mut i: usize = 0;
    while i < stops.len()
        invariant
            i <= stops.len(),
            converted@.len() == i,
            forall|j: int| 0 <= j < i ==> converted@[j] == color_stop_of(stops@[j]),
        decreases stops.len() - i,
    {
        let stop = stops[i];
        converted.push(ColorStop { offset: stop.position, color: to_peniko_color(&stop.color) });
        i += 1;
    }
    assert(converted@ =~= color_stops_of(stops@));
    converted
}

/// Converts a brush to the paint that it gives on a shape with the given
/// bounds.
pub fn brush_to_peniko_brush_owned(brush: &Brush, bounds: PhysicalRect) -> (r: Paint)
    ensures
        r@ == paint_of(*brush, bounds),
{
    match brush {
        Brush::SolidColor(color) => Paint::Solid(to_peniko_color(color)),
        Brush::LinearGradient { angle, stops } => {
            let stops = convert_color_stops(stops);
            Paint::LinearGradient { angle: *angle, bounds, stops }
        },
        Brush::RadialGradient { stops } => {
            let stops = convert_color_stops(stops);
            let width = bounds.width();
            let height = bounds.height();
            let center = Point { x: bounds.x0.add(width.half()), y: bounds.y0.add(height.half()) };
            let radius = width.hypot(height).half();
            Paint::RadialGradient { center, radius, stops }
        },
        Brush::Other { opaque: _ } => Paint::Solid(Rgba8 { r: 0, g: 0, b: 0, a: 0 }),
    }
}

/// Lays the line of a linear gradient into the bounds of a shape. `start`
/// and `end` are the ends of the line in a rectangle of the size of the
/// bounds at zero, as the angle of the gradient gives them.
#[verifier::when_used_as_spec(spec_gradient_line)]
pub fn gradient_line(bounds: PhysicalRect, start: Point, end: Point) -> (line: (Point, Point))
    ensures
        line == spec_gradient_line(bounds, start, end),
{
    (
        Point { x: bounds.x0.add(start.x), y: bounds.y0.add(start.y) },
        Point { x: bounds.x0.add(end.x), y: bounds.y0.add(end.y) },
    )
}

/// Multiplies the alpha of a color by an opacity.
pub fn apply_alpha(color: Rgba8, alpha: Fixed) -> (r: Rgba8)
    ensures
        r == color_with_alpha(color, alpha),
        r.a <= color.a,
{
    let factor = alpha.clamp_unit();
    proof {
        assert(0 <= color.a * factor.raw <= color.a * ONE_RAW) by (nonlinear_arith)
            requires
                0 <= factor.raw <= ONE_RAW,
                0 <= color.a,
        ;
        assert(color.a * ONE_RAW <= 255 * 0x1_0000_0000) by (nonlinear_arith)
            requires
                0 <= color.a <= 255,
                ONE_RAW == 0x1_0000_0000,
        ;
        assert((color.a * factor.raw) / (ONE_RAW as int) <= color.a) by (nonlinear_arith)
            requires
                0 <= color.a * factor.raw <= color.a * ONE_RAW,
                ONE_RAW > 0,
        ;
    }
    let wide: u64 = (color.a as u64) * (factor.raw as u64);
    let scaled: u64 = wide / (ONE_RAW as u64);
    Rgba8 { r: color.r, g: color.g, b: color.b, a: scaled as u8 }
}

/// Multiplies the alpha of the color of every stop by an opacity.
pub fn apply_alpha_to_stops(stops: &Vec<ColorStop>, alpha: Fixed) -> (r: Vec<ColorStop>)
    ensures
        r@ == stops_with_alpha(stops@, alpha),
{
    let mut weakened: Vec<ColorStop> = Vec::new();
    let mut i: usize = 0;
    while i < stops.len()
        invariant
            i <= stops.len(),
            weakened@.len() == i,
            forall|j: int| 0 <= j < i ==> weakened@[j] == stop_with_alpha(stops@[j], alpha),
        decreases stops.len() - i,
    {
        let stop = stops[i];
        weakened.push(ColorStop { offset: stop.offset, color: apply_alpha(stop.color, alpha) });
        i += 1;
    }
    assert(weakened@ =~= stops_with_alpha(stops@, alpha));
    weakened
}

/// Puts a paint under an opacity: a solid color has its alpha multiplied,
/// and so has the color of every stop of a gradient. An image carries an
/// opacity of its own and stays as it is.
pub fn apply_alpha_to_paint(paint: Paint, alpha: Fixed) -> (r: Paint)
    ensures
        r@ == paint_with_alpha(paint@, alpha),
{
    match paint {
        Paint::Solid(color) => Paint::Solid(apply_alpha(color, alpha)),
        Paint::LinearGradient { angle, bounds, stops } => {
            let stops = apply_alpha_to_stops(&stops, alpha);
            Paint::LinearGradient { angle, bounds, stops }
        },
        Paint::RadialGradient { center, radius, stops } => {
            let stops = apply_alpha_to_stops(&stops, alpha);
            Paint::RadialGradient { center, radius, stops }
        },
        Paint::Image { image, alpha: own } => Paint::Image { image, alpha: own },
    }
}

/// Whether a number of raw counts lies in the range of the numbers.
pub open spec fn in_range(raw: int) -> bool {
    MIN_RAW <= raw <= MAX_RAW
}

/// The line of a linear gradient moves with the bounds of its shape: on
/// bounds that are moved by `(dx, dy)` the line is moved by the same, as long
/// as the corners of the bounds and the ends of the line stay within the
/// range of the numbers.
pub proof fn lemma_gradient_line_moves_with_bounds(
    bounds: PhysicalRect,
    start: Point,
    end: Point,
    dx: Fixed,
    dy: Fixed,
)
    requires
        in_range(bounds.x0.raw + dx.raw),
        in_range(bounds.y0.raw + dy.raw),
        in_range(bounds.x0.raw + start.x.raw),
        in_range(bounds.y0.raw + start.y.raw),
        in_range(bounds.x0.raw + end.x.raw),
        in_range(bounds.y0.raw + end.y.raw),
        in_range(bounds.x0.raw + start.x.raw + dx.raw),
        in_range(bounds.y0.raw + start.y.raw + dy.raw),
        in_range(bounds.x0.raw + end.x.raw + dx.raw),
        in_range(bounds.y0.raw + end.y.raw + dy.raw),
    ensures
        ({
            let moved = PhysicalRect {
                x0: bounds.x0.spec_add(dx),
                y0: bounds.y0.spec_add(dy),
                x1: bounds.x1.spec_add(dx),
                y1: bounds.y1.spec_add(dy),
            };
            let (a, b) = spec_gradient_line(bounds, start, end);
            let (c, d) = spec_gradient_line(moved, start, end);
            &&& c == Point { x: a.x.spec_add(dx), y: a.y.spec_add(dy) }
            &&& d == Point { x: b.x.spec_add(dx), y: b.y.spec_add(dy) }
        }),
{
}

/// The line of a linear gradient lies about the middle of the bounds of its
/// shape if it lies about the middle of the rectangle of their size at zero:
/// where the two ends of the given line add up to the extents of the bounds,
/// the two ends of the laid line add up to the sum of the two corners of the
/// bounds. This is stated for bounds and ends within the range of the
/// numbers.
pub proof fn lemma_gradient_line_is_centered(bounds: PhysicalRect, start: Point, end: Point)
    requires
        in_range(bounds.x1.raw - bounds.x0.raw),
        in_range(bounds.y1.raw - bounds.y0.raw),
        start.x.raw + end.x.raw == bounds.x1.raw - bounds.x0.raw,
        start.y.raw + end.y.raw == bounds.y1.raw - bounds.y0.raw,
        in_range(bounds.x0.raw + start.x.raw),
        in_range(bounds.y0.raw + start.y.raw),
        in_range(bounds.x0.raw + end.x.raw),
        in_range(bounds.y0.raw + end.y.raw),
    ensures
        ({
            let (a, b) = spec_gradient_line(bounds, start, end);
            &&& a.x.raw + b.x.raw == bounds.x0.raw + bounds.x1.raw
            &&& a.y.raw + b.y.raw == bounds.y0.raw + bounds.y1.raw
        }),
{
}

/// An opacity of one leaves a paint as it is.
pub proof fn lemma_full_alpha_keeps_paint(paint: PaintView)
    ensures
        paint_with_alpha(paint, Fixed::spec_one()) == paint,
{
    match paint {
        PaintView::Solid(color) => {
            lemma_full_alpha_keeps_color(color);
        },
        PaintView::LinearGradient { angle, bounds, stops } => {
            assert forall|i: int| 0 <= i < stops.len() implies stop_with_alpha(
                stops[i],
                Fixed::spec_one(),
            ) == stops[i] by {
                lemma_full_alpha_keeps_color(stops[i].color);
            }
            assert(stops_with_alpha(stops, Fixed::spec_one()) =~= stops);
        },
        PaintView::RadialGradient { center, radius, stops } => {
            assert forall|i: int| 0 <= i < stops.len() implies stop_with_alpha(
                stops[i],
                Fixed::spec_one(),
            ) == stops[i] by {
                lemma_full_alpha_keeps_color(stops[i].color);
            }
            assert(stops_with_alpha(stops, Fixed::spec_one()) =~= stops);
        },
        PaintView::Image { image, alpha } => {},
    }
}

/// An opacity of one leaves a color as it is.
pub proof fn lemma_full_alpha_keeps_color(color: Rgba8)
    ensures
        color_with_alpha(color, Fixed::spec_one()) == color,
{
    assert((color.a as int * (ONE_RAW as int)) / (ONE_RAW as int) == color.a as int)
        by (nonlinear_arith)
        requires
            ONE_RAW == 0x1_0000_0000,
    ;
}

} // verus!
