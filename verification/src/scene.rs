//! The scene: an ordered list of drawing operations.
//!
//! A [`Scene`] only ever grows at its end, and later operations draw over
//! earlier ones. Clip layers are opened by [`DrawOp::PushLayer`] and closed by
//! [`DrawOp::PopLayer`]; [`open_layers`] counts how many are open after a list
//! of operations.

use std::sync::Arc;
use vstd::prelude::*;
use crate::fixed::Fixed;
use crate::geometry::{Affine, PhysicalRect, Point};

verus! {

/// A color of four 8-bit channels, with an alpha that is not premultiplied.
#[derive(Clone, Copy, Debug, PartialEq, Eq, Structural)]
pub struct Rgba8 {
    pub r: u8,
    pub g: u8,
    pub b: u8,
    pub a: u8,
}

/// A color at a position along a gradient.
#[derive(Clone, Copy, Debug, PartialEq, Eq, Structural)]
pub struct ColorStop {
    pub offset: Fixed,
    pub color: Rgba8,
}

/// How the color channels of an image relate to its alpha channel.
#[derive(Clone, Copy, Debug, PartialEq, Eq, Structural)]
pub enum ImageAlphaType {
    /// The color channels are independent of alpha.
    Alpha,
    /// The color channels are already multiplied by alpha.
    AlphaPremultiplied,
}

/// Decoded pixels, ready for the backend: four bytes per pixel in the order
/// red, green, blue, alpha.
#[derive(Clone, Debug, PartialEq)]
pub struct ImageData {
    pub data: Arc<Vec<u8>>,
    pub alpha_type: ImageAlphaType,
    pub width: u32,
    pub height: u32,
}

/// What an [`ImageData`] holds.
pub struct ImageDataView {
    pub data: Seq<u8>,
    pub alpha_type: ImageAlphaType,
    pub width: u32,
    pub height: u32,
}

impl ImageDataView {
    /// Whether the image holds four bytes for each of its pixels.
    pub open spec fn is_valid(self) -> bool {
        self.data.len() == 4 * self.width * self.height
    }
}

impl View for ImageData {
    type V = ImageDataView;

    open spec fn view(&self) -> ImageDataView {
        ImageDataView {
            data: (*self.data)@,
            alpha_type: self.alpha_type,
            width: self.width,
            height: self.height,
        }
    }
}

/// `Arc::clone` of std: a second handle to the same bytes. The bytes
/// themselves are not copied.
#[verifier::external_body]
pub(crate) fn share_bytes(data: &Arc<Vec<u8>>) -> (shared: Arc<Vec<u8>>)
    ensures
        shared == *data,
{
    Arc::clone(data)
}

impl ImageData {
    /// An image of the given pixels.
    pub fn new(data: Vec<u8>, alpha_type: ImageAlphaType, width: u32, height: u32) -> (image:
        ImageData)
        ensures
            image@ == (ImageDataView { data: data@, alpha_type, width, height }),
    {
        ImageData { data: Arc::new(data), alpha_type, width, height }
    }

    /// A second handle to the same image. The pixels are not copied.
    pub fn share(&self) -> (image: ImageData)
        ensures
            image@ == self@,
    {
        ImageData {
            data: share_bytes(&self.data),
            alpha_type: self.alpha_type,
            width: self.width,
            height: self.height,
        }
    }
}

/// What a shape is painted with.
#[derive(Clone, Debug, PartialEq)]
pub enum Paint {
    /// One color everywhere.
    Solid(Rgba8),
    /// Colors along a line that is laid through `bounds` at `angle` degrees.
    LinearGradient { angle: Fixed, bounds: PhysicalRect, stops: Vec<ColorStop> },
    /// Colors along the radius of a circle.
    RadialGradient { center: Point, radius: Fixed, stops: Vec<ColorStop> },
    /// The pixels of an image, laid out from zero at one pixel per unit and
    /// weakened by `alpha`.
    Image { image: ImageData, alpha: Fixed },
}

/// What a [`Paint`] holds.
pub enum PaintView {
    Solid(Rgba8),
    LinearGradient { angle: Fixed, bounds: PhysicalRect, stops: Seq<ColorStop> },
    RadialGradient { center: Point, radius: Fixed, stops: Seq<ColorStop> },
    Image { image: ImageDataView, alpha: Fixed },
}

impl View for Paint {
    type V = PaintView;

    open spec fn view(&self) -> PaintView {
        match *self {
            Paint::Solid(color) => PaintView::Solid(color),
            Paint::LinearGradient { angle, bounds, stops } => PaintView::LinearGradient {
                angle,
                bounds,
                stops: stops@,
            },
            Paint::RadialGradient { center, radius, stops } => PaintView::RadialGradient {
                center,
                radius,
                stops: stops@,
            },
            Paint::Image { image, alpha } => PaintView::Image { image: image@, alpha },
        }
    }
}

/// One element of a path.
#[derive(Clone, Copy, Debug, PartialEq, Eq, Structural)]
pub enum PathEl {
    /// Start a new subpath at the point.
    MoveTo(Point),
    /// A straight line to the point.
    LineTo(Point),
    /// A quadratic curve with one control point, to the second point.
    QuadTo(Point, Point),
    /// A cubic curve with two control points, to the third point.
    CurveTo(Point, Point, Point),
    /// Close the subpath.
    ClosePath,
}

/// An outline to fill, to stroke or to clip by.
#[derive(Clone, Debug, PartialEq)]
pub enum Shape {
    Rect(PhysicalRect),
    /// A rectangle whose four corners are rounded with the given radius.
    RoundedRect(PhysicalRect, Fixed),
    Path(Vec<PathEl>),
}

/// What a [`Shape`] holds.
pub enum ShapeView {
    Rect(PhysicalRect),
    RoundedRect(PhysicalRect, Fixed),
    Path(Seq<PathEl>),
}

impl View for Shape {
    type V = ShapeView;

    open spec fn view(&self) -> ShapeView {
        match *self {
            Shape::Rect(rect) => ShapeView::Rect(rect),
            Shape::RoundedRect(rect, radius) => ShapeView::RoundedRect(rect, radius),
            Shape::Path(elements) => ShapeView::Path(elements@),
        }
    }
}

/// The rule that tells the inside of a path from its outside.
#[derive(Clone, Copy, Debug, PartialEq, Eq, Structural)]
pub enum Fill {
    NonZero,
    EvenOdd,
}

/// The shape of the two ends of a stroked line.
#[derive(Clone, Copy, Debug, PartialEq, Eq, Structural)]
pub enum Cap {
    Butt,
    Square,
    Round,
}

/// The shape of the corner where two stroked lines meet.
#[derive(Clone, Copy, Debug, PartialEq, Eq, Structural)]
pub enum Join {
    Bevel,
    Miter,
    Round,
}

/// How an outline is stroked. The stroke is centered on the outline.
#[derive(Clone, Copy, Debug, PartialEq, Eq, Structural)]
pub struct Stroke {
    pub width: Fixed,
    pub cap: Cap,
    pub join: Join,
    pub miter_limit: Fixed,
}

/// A font, named by the identity of the data it was loaded from and by its
/// index in that data.
#[derive(Clone, Copy, Debug, PartialEq, Eq, Structural)]
pub struct Font {
    pub data_id: u64,
    pub index: u32,
}

/// A glyph of a font at a position.
#[derive(Clone, Copy, Debug, PartialEq, Eq, Structural)]
pub struct Glyph {
    pub id: u32,
    pub x: Fixed,
    pub y: Fixed,
}

/// One drawing operation.
#[derive(Clone, Debug, PartialEq)]
pub enum DrawOp {
    /// Fill a shape.
    Fill { rule: Fill, transform: Affine, paint: Paint, shape: Shape },
    /// Stroke the outline of a shape.
    Stroke { style: Stroke, transform: Affine, paint: Paint, shape: Shape },
    /// Open a layer: what is drawn until it is closed shows only inside
    /// `clip`, weakened by `alpha`.
    PushLayer { alpha: Fixed, transform: Affine, clip: Shape },
    /// Close the layer that was opened last.
    PopLayer,
    /// A rounded rectangle of one color, blurred by a Gaussian of the given
    /// standard deviation.
    BlurredRoundedRect {
        transform: Affine,
        rect: PhysicalRect,
        color: Rgba8,
        radius: Fixed,
        std_dev: Fixed,
    },
    /// A run of glyphs of one font, size and color.
    Glyphs { font: Font, font_size: Fixed, transform: Affine, color: Rgba8, glyphs: Vec<Glyph> },
}

/// What a [`DrawOp`] holds.
pub enum DrawOpView {
    Fill { rule: Fill, transform: Affine, paint: PaintView, shape: ShapeView },
    Stroke { style: Stroke, transform: Affine, paint: PaintView, shape: ShapeView },
    PushLayer { alpha: Fixed, transform: Affine, clip: ShapeView },
    PopLayer,
    BlurredRoundedRect {
        transform: Affine,
        rect: PhysicalRect,
        color: Rgba8,
        radius: Fixed,
        std_dev: Fixed,
    },
    Glyphs { font: Font, font_size: Fixed, transform: Affine, color: Rgba8, glyphs: Seq<Glyph> },
}

impl View for DrawOp {
    type V = DrawOpView;

    open spec fn view(&self) -> DrawOpView {
        match *self {
            DrawOp::Fill { rule, transform, paint, shape } => DrawOpView::Fill {
                rule,
                transform,
                paint: paint@,
                shape: shape@,
            },
            DrawOp::Stroke { style, transform, paint, shape } => DrawOpView::Stroke {
                style,
                transform,
                paint: paint@,
                shape: shape@,
            },
            DrawOp::PushLayer { alpha, transform, clip } => DrawOpView::PushLayer {
                alpha,
                transform,
                clip: clip@,
            },
            DrawOp::PopLayer => DrawOpView::PopLayer,
            DrawOp::BlurredRoundedRect { transform, rect, color, radius, std_dev } => {
                DrawOpView::BlurredRoundedRect { transform, rect, color, radius, std_dev }
            },
            DrawOp::Glyphs { font, font_size, transform, color, glyphs } => DrawOpView::Glyphs {
                font,
                font_size,
                transform,
                color,
                glyphs: glyphs@,
            },
        }
    }
}

/// The number of layers that a list of operations opens.
pub open spec fn pushes(ops: Seq<DrawOpView>) -> nat
    decreases ops.len(),
{
    if ops.len() == 0 {
        0
    } else {
        pushes(ops.drop_last()) + if ops.last() is PushLayer {
            1nat
        } else {
            0nat
        }
    }
}

/// The number of times that a list of operations closes a layer.
pub open spec fn pops(ops: Seq<DrawOpView>) -> nat
    decreases ops.len(),
{
    if ops.len() == 0 {
        0
    } else {
        pops(ops.drop_last()) + if ops.last() is PopLayer {
            1nat
        } else {
            0nat
        }
    }
}

/// The number of layers that are open after a list of operations, among
/// those that the list itself opened.
pub open spec fn open_layers(ops: Seq<DrawOpView>) -> int {
    pushes(ops) - pops(ops)
}

/// A list of `n` operations that each close a layer.
pub open spec fn pop_run(n: nat) -> Seq<DrawOpView> {
    Seq::new(n, |i: int| DrawOpView::PopLayer)
}

/// What one more operation adds to the two counts.
pub proof fn lemma_counts_push(ops: Seq<DrawOpView>, op: DrawOpView)
    ensures
        pushes(ops.push(op)) == pushes(ops) + if op is PushLayer {
            1nat
        } else {
            0nat
        },
        pops(ops.push(op)) == pops(ops) + if op is PopLayer {
            1nat
        } else {
            0nat
        },
        pushes(ops) <= ops.len(),
{
    assert(ops.push(op).drop_last() =~= ops);
    lemma_pushes_bound(ops);
}

/// A list opens no more layers than it has operations.
pub proof fn lemma_pushes_bound(ops: Seq<DrawOpView>)
    ensures
        pushes(ops) <= ops.len(),
    decreases ops.len(),
{
    if ops.len() > 0 {
        lemma_pushes_bound(ops.drop_last());
    }
}

/// The two counts of one list followed by another are the sums of the counts.
pub proof fn lemma_counts_concat(a: Seq<DrawOpView>, b: Seq<DrawOpView>)
    ensures
        pushes(a + b) == pushes(a) + pushes(b),
        pops(a + b) == pops(a) + pops(b),
    decreases b.len(),
{
    if b.len() == 0 {
        assert(a + b =~= a);
    } else {
        lemma_counts_concat(a, b.drop_last());
        assert((a + b).drop_last() =~= a + b.drop_last());
        assert((a + b).last() == b.last());
    }
}

/// A run of `n` closing operations opens nothing and closes `n` times.
pub proof fn lemma_counts_pop_run(n: nat)
    ensures
        pushes(pop_run(n)) == 0,
        pops(pop_run(n)) == n,
    decreases n,
{
    if n > 0 {
        lemma_counts_pop_run((n - 1) as nat);
        assert(pop_run(n).drop_last() =~= pop_run((n - 1) as nat));
    }
}

/// An ordered list of drawing operations.
#[derive(Clone, Debug)]
pub struct Scene {
    ops: Vec<DrawOp>,
}

impl View for Scene {
    type V = Seq<DrawOpView>;

    closed spec fn view(&self) -> Seq<DrawOpView> {
        self.ops@.map_values(|op: DrawOp| op@)
    }
}

impl Scene {
    /// A scene without operations.
    pub fn new() -> (scene: Scene)
        ensures
            scene@ == Seq::<DrawOpView>::empty(),
    {
        let scene = Scene { ops: Vec::new() };
        assert(scene@ =~= Seq::<DrawOpView>::empty());
        scene
    }

    /// Removes every operation. The scene keeps its storage.
    pub fn reset(&mut self)
        ensures
            final(self)@ == Seq::<DrawOpView>::empty(),
    {
        self.ops.clear();
        assert(self@ =~= Seq::<DrawOpView>::empty());
    }

    /// The number of operations.
    pub fn len(&self) -> (n: usize)
        ensures
            n == self@.len(),
    {
        self.ops.len()
    }

    /// The operation at position `i`.
    pub fn op(&self, i: usize) -> (op: &DrawOp)
        requires
            i < self@.len(),
        ensures
            op@ == self@[i as int],
    {
        &self.ops[i]
    }

    /// The operations, in the order in which they were recorded.
    pub fn ops(&self) -> (ops: &Vec<DrawOp>)
        ensures
            ops@.len() == self@.len(),
            forall|i: int| 0 <= i < ops@.len() ==> (#[trigger] ops@[i])@ == self@[i],
    {
        &self.ops
    }

    /// Records one operation at the end.
    pub fn record(&mut self, op: DrawOp)
        ensures
            final(self)@ == old(self)@.push(op@),
    {
        self.ops.push(op);
        assert(self@ =~= old(self)@.push(op@));
    }

    /// Records the filling of `shape` with `paint`.
    pub fn fill(&mut self, rule: Fill, transform: Affine, paint: Paint, shape: Shape)
        ensures
            final(self)@ == old(self)@.push(
                DrawOpView::Fill { rule, transform, paint: paint@, shape: shape@ },
            ),
    {
        self.record(DrawOp::Fill { rule, transform, paint, shape });
    }

    /// Records the stroking of the outline of `shape` with `paint`.
    pub fn stroke(&mut self, style: Stroke, transform: Affine, paint: Paint, shape: Shape)
        ensures
            final(self)@ == old(self)@.push(
                DrawOpView::Stroke { style, transform, paint: paint@, shape: shape@ },
            ),
    {
        self.record(DrawOp::Stroke { style, transform, paint, shape });
    }

    /// Records the opening of a layer that is clipped by `clip`.
    pub fn push_layer(&mut self, alpha: Fixed, transform: Affine, clip: Shape)
        ensures
            final(self)@ == old(self)@.push(
                DrawOpView::PushLayer { alpha, transform, clip: clip@ },
            ),
    {
        self.record(DrawOp::PushLayer { alpha, transform, clip });
    }

    /// Records the closing of the layer that was opened last.
    pub fn pop_layer(&mut self)
        ensures
            final(self)@ == old(self)@.push(DrawOpView::PopLayer),
    {
        self.record(DrawOp::PopLayer);
    }

    /// Records a blurred rounded rectangle.
    pub fn draw_blurred_rounded_rect(
        &mut self,
        transform: Affine,
        rect: PhysicalRect,
        color: Rgba8,
        radius: Fixed,
        std_dev: Fixed,
    )
        ensures
            final(self)@ == old(self)@.push(
                DrawOpView::BlurredRoundedRect { transform, rect, color, radius, std_dev },
            ),
    {
        self.record(DrawOp::BlurredRoundedRect { transform, rect, color, radius, std_dev });
    }

    /// Records a run of glyphs.
    pub fn draw_glyphs(
        &mut self,
        font: Font,
        font_size: Fixed,
        transform: Affine,
        color: Rgba8,
        glyphs: Vec<Glyph>,
    )
        ensures
            final(self)@ == old(self)@.push(
                DrawOpView::Glyphs { font, font_size, transform, color, glyphs: glyphs@ },
            ),
    {
        self.record(DrawOp::Glyphs { font, font_size, transform, color, glyphs });
    }
}

} // verus!
