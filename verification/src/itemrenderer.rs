//! The item renderer: a stack of transform, clip and opacity states, and one
//! drawing operation per kind of item.
//!
//! What the renderer does is stated over its view, a [`RendererView`]: every
//! method of [`VelloItemRenderer`] takes the view before the call to the view
//! after it by the function of the same name on [`RendererView`].

use vstd::prelude::*;
use vstd::slice::slice_to_vec;
use crate::brush::{Brush, Color};
use crate::brush::{apply_alpha, apply_alpha_to_paint, brush_to_peniko_brush_owned};
use crate::brush::{brush_to_peniko_color, to_peniko_color};
use crate::brush::{color_with_alpha, paint_of, paint_with_alpha, rgba_of};
use crate::fixed::{Fixed, ONE_RAW};
use crate::geometry::{Affine, BorderRadius, IntRect, PhysicalRect, Point, Rect, Rotation};
use crate::geometry::{Size, Vector};
use crate::image::{FitResult, ImageCache, ImageSource, IntSize, RawPixels, SharedImageBuffer};
use crate::image::{alpha_type_for, decode_bytes};
use crate::image::{cache_after, cache_image, decoded_image, raw_image};
use crate::items::{BoxShadow, FillRule, FittedPath, LineCap, Path, PathEvent, PositionedGlyph};
use crate::items::{RenderBorderRectangle, RenderImage};
use crate::items::{cap_of, fill_of, path_of, physical_point};
use crate::scene::{Cap, Fill, Font, Glyph, ImageAlphaType, ImageData, ImageDataView, Join};
use crate::scene::{DrawOpView, Paint, PaintView, PathEl, Rgba8, Scene, Shape, ShapeView, Stroke};
use crate::scene::pop_run;

verus! {

/// The state under which items are drawn.
#[derive(Clone, Copy, Debug, PartialEq, Eq, Structural)]
pub struct RenderState {
    /// The region outside of which nothing shows, in logical pixels of the
    /// current coordinate system.
    pub clip: Rect,
    /// The transform from the current coordinate system to physical pixels.
    pub transform: Affine,
    /// The product of the opacities that were applied.
    pub alpha: Fixed,
    /// The number of clip layers that were opened under this state and are
    /// still open.
    pub clip_layer_count: usize,
}

/// What a [`RenderState`] holds, with a count that knows no upper end.
pub struct RenderStateView {
    pub clip: Rect,
    pub transform: Affine,
    pub alpha: Fixed,
    pub clip_layer_count: nat,
}

impl View for RenderState {
    type V = RenderStateView;

    open spec fn view(&self) -> RenderStateView {
        RenderStateView {
            clip: self.clip,
            transform: self.transform,
            alpha: self.alpha,
            clip_layer_count: self.clip_layer_count as nat,
        }
    }
}

/// What a [`VelloItemRenderer`] holds.
pub struct RendererView {
    /// The operations of the scene.
    pub ops: Seq<DrawOpView>,
    /// The stack of states; the last one is the current state.
    pub states: Seq<RenderStateView>,
    /// The number of physical pixels per logical pixel.
    pub scale_factor: Fixed,
    /// Whether GPU textures can be read back.
    pub texture_reader: bool,
    /// The decoded pixels that the image cache holds.
    pub cache: Map<usize, Seq<u8>>,
}

/// The radius with which a rectangle of `size` is rounded when `radius` is
/// asked for: no more than half of either extent.
pub open spec fn clamped_radius(radius: Fixed, size: Size) -> Fixed {
    radius.spec_min(size.width.spec_half()).spec_min(size.height.spec_half())
}

/// The state that a frame starts with.
pub open spec fn initial_state(logical_size: Size, transform: Affine) -> RenderStateView {
    RenderStateView {
        clip: Rect::spec_from_size(logical_size),
        transform,
        alpha: Fixed::spec_one(),
        clip_layer_count: 0,
    }
}

impl RendererView {
    /// There is a state, and no state counts more layers than there are
    /// operations.
    pub open spec fn wf(self) -> bool {
        &&& self.states.len() >= 1
        &&& forall|i: int|
            0 <= i < self.states.len() ==> (#[trigger] self.states[i]).clip_layer_count
                <= self.ops.len()
    }

    /// The current state.
    pub open spec fn current(self) -> RenderStateView {
        self.states.last()
    }

    /// The view with `state` in place of the current state.
    pub open spec fn with_current(self, state: RenderStateView) -> RendererView {
        RendererView { states: self.states.update(self.states.len() - 1, state), ..self }
    }

    /// The view with one more operation.
    pub open spec fn record(self, op: DrawOpView) -> RendererView {
        RendererView { ops: self.ops.push(op), ..self }
    }

    /// The opacity that drawing operations get: the product of the opacities
    /// that were applied, brought into the range from zero to one.
    pub open spec fn alpha(self) -> Fixed {
        self.current().alpha.spec_clamp_unit()
    }

    /// A logical length in physical pixels.
    pub open spec fn to_physical(self, logical: Fixed) -> Fixed {
        logical.spec_mul(self.scale_factor)
    }

    /// A logical rectangle in physical pixels.
    pub open spec fn to_physical_rect(self, rect: Rect) -> PhysicalRect {
        PhysicalRect {
            x0: self.to_physical(rect.origin.x),
            y0: self.to_physical(rect.origin.y),
            x1: self.to_physical(rect.origin.x.spec_add(rect.size.width)),
            y1: self.to_physical(rect.origin.y.spec_add(rect.size.height)),
        }
    }

    /// Pushes a copy of the current state that counts no layers.
    pub open spec fn save_state(self) -> RendererView {
        RendererView {
            states: self.states.push(RenderStateView { clip_layer_count: 0, ..self.current() }),
            ..self
        }
    }

    /// Closes the layers that the current state counts and pops it. The
    /// bottom state is never popped.
    pub open spec fn restore_state(self) -> RendererView {
        if self.states.len() > 1 {
            RendererView {
                ops: self.ops + pop_run(self.current().clip_layer_count),
                states: self.states.drop_last(),
                ..self
            }
        } else {
            self
        }
    }

    /// The shape of the layer that clips to `rect`, in physical pixels:
    /// rounded if the clamped radius is positive.
    pub open spec fn clip_shape(self, rect: Rect, radius: BorderRadius) -> ShapeView {
        let r = clamped_radius(radius.top_left, rect.size);
        if r.raw > 0 {
            ShapeView::RoundedRect(self.to_physical_rect(rect), self.to_physical(r))
        } else {
            ShapeView::Rect(self.to_physical_rect(rect))
        }
    }

    /// Intersects `rect` into the clip, opens one layer that clips to it and
    /// counts that layer in the current state. Where the two do not overlap,
    /// the clip becomes the rectangle of no size at zero.
    pub open spec fn combine_clip(self, rect: Rect, radius: BorderRadius) -> RendererView {
        let state = self.current();
        let clip = match state.clip.spec_intersection(rect) {
            Some(common) => common,
            None => Rect::spec_zero(),
        };
        self.with_current(
            RenderStateView { clip, clip_layer_count: state.clip_layer_count + 1, ..state },
        ).record(
            DrawOpView::PushLayer {
                alpha: Fixed::spec_one(),
                transform: state.transform,
                clip: self.clip_shape(rect, radius),
            },
        )
    }

    /// Moves the coordinate system by `distance`: the clip moves the other
    /// way.
    pub open spec fn translate(self, distance: Vector) -> RendererView {
        let state = self.current();
        self.with_current(
            RenderStateView {
                transform: state.transform.spec_compose(
                    Affine::spec_translation(
                        self.to_physical(distance.x),
                        self.to_physical(distance.y),
                    ),
                ),
                clip: state.clip.spec_translate(
                    Vector { x: distance.x.spec_neg(), y: distance.y.spec_neg() },
                ),
                ..state
            },
        )
    }

    /// Turns the coordinate system: the clip becomes the bounds of its four
    /// turned corners.
    pub open spec fn rotate(self, rotation: Rotation) -> RendererView {
        let state = self.current();
        self.with_current(
            RenderStateView {
                transform: state.transform.spec_compose(Affine::spec_rotation(rotation)),
                clip: state.clip.spec_rotated_bounds(rotation),
                ..state
            },
        )
    }

    /// Stretches the coordinate system: the extents of the clip are divided
    /// by the factors.
    pub open spec fn scale(self, x_factor: Fixed, y_factor: Fixed) -> RendererView {
        let state = self.current();
        self.with_current(
            RenderStateView {
                transform: state.transform.spec_compose(Affine::spec_scaling(x_factor, y_factor)),
                clip: state.clip.spec_unscale(x_factor, y_factor),
                ..state
            },
        )
    }

    /// Multiplies the opacity of the current state by `opacity`.
    pub open spec fn apply_opacity(self, opacity: Fixed) -> RendererView {
        let state = self.current();
        self.with_current(RenderStateView { alpha: state.alpha.spec_mul(opacity), ..state })
    }

    /// The paint of a brush on a shape with the given bounds, under the
    /// current opacity.
    pub open spec fn paint(self, brush: Brush, bounds: PhysicalRect) -> PaintView {
        paint_with_alpha(paint_of(brush, bounds), self.alpha())
    }

    /// Fills the rectangle of `size` at zero with `background`.
    pub open spec fn draw_rectangle(self, background: Brush, size: Size) -> RendererView {
        let rect = self.to_physical_rect(Rect::spec_from_size(size));
        self.record(
            DrawOpView::Fill {
                rule: Fill::NonZero,
                transform: self.current().transform,
                paint: self.paint(background, rect),
                shape: ShapeView::Rect(rect),
            },
        )
    }
}

/// Renders items into a scene.
pub struct VelloItemRenderer {
    scene: Scene,
    scale_factor: Fixed,
    state_stack: Vec<RenderState>,
    texture_reader: bool,
    image_cache: ImageCache,
}

impl View for VelloItemRenderer {
    type V = RendererView;

    closed spec fn view(&self) -> RendererView {
        RendererView {
            ops: self.scene@,
            states: self.state_stack@.map_values(|state: RenderState| state@),
            scale_factor: self.scale_factor,
            texture_reader: self.texture_reader,
            cache: self.image_cache@,
        }
    }
}

impl VelloItemRenderer {
    /// A renderer for one frame that draws after what `scene` holds, with the
    /// clip at the whole of `logical_size` and no transform.
    pub fn new(scene: Scene, scale_factor: Fixed, logical_size: Size, image_cache: ImageCache) -> (r:
        VelloItemRenderer)
        ensures
            r@ == (RendererView {
                ops: scene@,
                states: seq![initial_state(logical_size, Affine::spec_identity())],
                scale_factor,
                texture_reader: false,
                cache: image_cache@,
            }),
            r@.wf(),
    {
        VelloItemRenderer::new_with_transform(
            scene,
            scale_factor,
            logical_size,
            image_cache,
            Affine::identity(),
        )
    }

    /// A renderer for one frame that draws after what `scene` holds, with the
    /// clip at the whole of `logical_size` and the given transform.
    pub fn new_with_transform(
        scene: Scene,
        scale_factor: Fixed,
        logical_size: Size,
        image_cache: ImageCache,
        initial_transform: Affine,
    ) -> (r: VelloItemRenderer)
        ensures
            r@ == (RendererView {
                ops: scene@,
                states: seq![initial_state(logical_size, initial_transform)],
                scale_factor,
                texture_reader: false,
                cache: image_cache@,
            }),
            r@.wf(),
    {
        let initial = RenderState {
            clip: Rect::from_size(logical_size),
            transform: initial_transform,
            alpha: Fixed::one(),
            clip_layer_count: 0,
        };
        let mut state_stack: Vec<RenderState> = Vec::new();
        state_stack.push(initial);
        assert(state_stack@.map_values(|state: RenderState| state@) =~= seq![
            initial_state(logical_size, initial_transform),
        ]);
        VelloItemRenderer { scene, scale_factor, state_stack, texture_reader: false, image_cache }
    }

    /// Ends the frame: the scene and the image cache, as they now are.
    pub fn finish(self) -> (r: (Scene, ImageCache))
        ensures
            r.0@ == self@.ops,
            r.1@ == self@.cache,
    {
        (self.scene, self.image_cache)
    }

    /// Says whether GPU textures can be read back during this frame.
    pub fn set_wgpu_texture_reader(&mut self, available: bool)
        ensures
            final(self)@ == (RendererView { texture_reader: available, ..old(self)@ }),
    {
        self.texture_reader = available;
    }

    fn current_state(&self) -> (state: RenderState)
        requires
            self@.wf(),
        ensures
            state@ == self@.current(),
    {
        self.state_stack[self.state_stack.len() - 1]
    }

    fn set_current_state(&mut self, state: RenderState)
        requires
            old(self)@.wf(),
            state.clip_layer_count <= old(self)@.ops.len(),
        ensures
            final(self)@.wf(),
            final(self)@ == old(self)@.with_current(state@),
    {
        let last = self.state_stack.len() - 1;
        self.state_stack[last] = state;
        assert(self@.states =~= old(self)@.states.update(last as int, state@));
    }

    fn to_physical(&self, logical: Fixed) -> (physical: Fixed)
        ensures
            physical == self@.to_physical(logical),
    {
        logical.mul(self.scale_factor)
    }

    fn to_physical_rect(&self, rect: Rect) -> (physical: PhysicalRect)
        ensures
            physical == self@.to_physical_rect(rect),
    {
        PhysicalRect {
            x0: self.to_physical(rect.origin.x),
            y0: self.to_physical(rect.origin.y),
            x1: self.to_physical(rect.origin.x.add(rect.size.width)),
            y1: self.to_physical(rect.origin.y.add(rect.size.height)),
        }
    }

    /// The transform from the current coordinate system to physical pixels.
    pub fn current_transform(&self) -> (transform: Affine)
        requires
            self@.wf(),
        ensures
            transform == self@.current().transform,
    {
        let state = self.current_state();
        state.transform
    }

    /// The opacity that drawing operations get.
    pub fn current_alpha(&self) -> (alpha: Fixed)
        requires
            self@.wf(),
        ensures
            alpha == self@.alpha(),
            0 <= alpha.raw <= ONE_RAW,
    {
        let state = self.current_state();
        state.alpha.clamp_unit()
    }

    /// The current clip, in logical pixels.
    pub fn get_current_clip(&self) -> (clip: Rect)
        requires
            self@.wf(),
        ensures
            clip == self@.current().clip,
    {
        let state = self.current_state();
        state.clip
    }

    /// The number of physical pixels per logical pixel.
    pub fn scale_factor(&self) -> (factor: Fixed)
        ensures
            factor == self@.scale_factor,
    {
        self.scale_factor
    }

    /// The number of states on the stack.
    pub fn depth(&self) -> (n: usize)
        requires
            self@.wf(),
        ensures
            n == self@.states.len(),
            n >= 1,
    {
        self.state_stack.len()
    }

    /// The scene as it now is.
    pub fn scene(&self) -> (scene: &Scene)
        ensures
            scene@ == self@.ops,
    {
        &self.scene
    }

    /// Pushes a copy of the current state. The copy counts no clip layers:
    /// a layer belongs to the state under which it was opened.
    pub fn save_state(&mut self)
        requires
            old(self)@.wf(),
        ensures
            final(self)@.wf(),
            final(self)@ == old(self)@.save_state(),
    {
        let mut current = self.current_state();
        current.clip_layer_count = 0;
        self.state_stack.push(current);
        assert(self@.states =~= old(self)@.states.push(current@));
    }

    /// Closes the clip layers that were opened under the current state and
    /// pops the state. The bottom state stays.
    pub fn restore_state(&mut self)
        requires
            old(self)@.wf(),
        ensures
            final(self)@.wf(),
            final(self)@ == old(self)@.restore_state(),
    {
        if self.state_stack.len() > 1 {
            let old_state = self.current_state();
            self.state_stack.pop();
            assert(self@.states =~= old(self)@.states.drop_last());
            assert(old(self)@.ops + pop_run(0) =~= old(self)@.ops);
            let mut closed: usize = 0;
            while closed < old_state.clip_layer_count
                invariant
                    closed <= old_state.clip_layer_count,
                    old_state@ == old(self)@.current(),
                    self@.wf(),
                    self@ == (RendererView {
                        ops: old(self)@.ops + pop_run(closed as nat),
                        states: old(self)@.states.drop_last(),
                        ..old(self)@
                    }),
                decreases old_state.clip_layer_count - closed,
            {
                self.scene.pop_layer();
                closed += 1;
                assert(old(self)@.ops + pop_run(closed as nat) =~= (old(self)@.ops + pop_run(
                    (closed - 1) as nat,
                )).push(DrawOpView::PopLayer));
            }
        }
    }

    /// Intersects `rect` into the current clip and opens one clip layer for
    /// it, rounded if the radius asks for it. Tells whether anything of the
    /// clip is left; where nothing is, the caller can skip what it was about
    /// to draw.
    pub fn combine_clip(&mut self, rect: Rect, radius: BorderRadius, _border_width: Fixed) -> (r: bool)
        requires
            old(self)@.wf(),
        ensures
            final(self)@.wf(),
            final(self)@ == old(self)@.combine_clip(rect, radius),
            r == old(self)@.current().clip.overlaps(rect),
            !r ==> final(self)@.current().clip == Rect::spec_zero(),
    {
        let border_radius = radius.top_left.min(rect.size.width.half()).min(rect.size.height.half());
        let state = self.current_state();
        let (clip, clip_valid) = match state.clip.intersection(rect) {
            Some(common) => (common, true),
            None => (Rect::zero(), false),
        };
        let physical = self.to_physical_rect(rect);
        let clip_shape = if border_radius.raw > 0 {
            Shape::RoundedRect(physical, self.to_physical(border_radius))
        } else {
            Shape::Rect(physical)
        };
        self.scene.push_layer(Fixed::one(), state.transform, clip_shape);
        let recorded = self.scene.len();
        self.set_current_state(
            RenderState { clip, transform: state.transform, alpha: state.alpha, clip_layer_count: state.clip_layer_count + 1 },
        );
        assert(self@ =~= old(self)@.combine_clip(rect, radius));
        clip_valid
    }

    /// Moves the coordinate system by `distance`, given in logical pixels.
    pub fn translate(&mut self, distance: Vector)
        requires
            old(self)@.wf(),
        ensures
            final(self)@.wf(),
            final(self)@ == old(self)@.translate(distance),
    {
        let state = self.current_state();
        let moved = Affine::translation(self.to_physical(distance.x), self.to_physical(distance.y));
        self.set_current_state(
            RenderState {
                clip: state.clip.translate(Vector { x: distance.x.neg(), y: distance.y.neg() }),
                transform: state.transform.compose(moved),
                alpha: state.alpha,
                clip_layer_count: state.clip_layer_count,
            },
        );
    }

    /// Turns the coordinate system about zero.
    pub fn rotate(&mut self, rotation: Rotation)
        requires
            old(self)@.wf(),
        ensures
            final(self)@.wf(),
            final(self)@ == old(self)@.rotate(rotation),
    {
        let state = self.current_state();
        self.set_current_state(
            RenderState {
                clip: state.clip.rotated_bounds(rotation),
                transform: state.transform.compose(Affine::rotation(rotation)),
                alpha: state.alpha,
                clip_layer_count: state.clip_layer_count,
            },
        );
    }

    /// Stretches the coordinate system by the two factors.
    pub fn scale(&mut self, x_factor: Fixed, y_factor: Fixed)
        requires
            old(self)@.wf(),
        ensures
            final(self)@.wf(),
            final(self)@ == old(self)@.scale(x_factor, y_factor),
    {
        let state = self.current_state();
        self.set_current_state(
            RenderState {
                clip: state.clip.unscale(x_factor, y_factor),
                transform: state.transform.compose(Affine::scaling(x_factor, y_factor)),
                alpha: state.alpha,
                clip_layer_count: state.clip_layer_count,
            },
        );
    }

    /// Multiplies the opacity of the current state by `opacity`.
    pub fn apply_opacity(&mut self, opacity: Fixed)
        requires
            old(self)@.wf(),
        ensures
            final(self)@.wf(),
            final(self)@ == old(self)@.apply_opacity(opacity),
    {
        let state = self.current_state();
        self.set_current_state(
            RenderState {
                clip: state.clip,
                transform: state.transform,
                alpha: state.alpha.mul(opacity),
                clip_layer_count: state.clip_layer_count,
            },
        );
    }

    fn paint(&self, brush: &Brush, bounds: PhysicalRect) -> (paint: Paint)
        requires
            self@.wf(),
        ensures
            paint@ == self@.paint(*brush, bounds),
    {
        apply_alpha_to_paint(brush_to_peniko_brush_owned(brush, bounds), self.current_alpha())
    }

    /// Fills the rectangle of `size` at zero with `background`, under the
    /// current transform and opacity.
    pub fn draw_rectangle(&mut self, background: &Brush, size: Size)
        requires
            old(self)@.wf(),
        ensures
            final(self)@.wf(),
            final(self)@ == old(self)@.draw_rectangle(*background, size),
    {
        let rect = self.to_physical_rect(Rect::from_size(size));
        let paint = self.paint(background, rect);
        let transform = self.current_transform();
        self.scene.fill(Fill::NonZero, transform, paint, Shape::Rect(rect));
    }
}


/// The width of the border of a rectangle that counts: none where the border
/// shows nothing.
pub open spec fn effective_border_width(item: RenderBorderRectangle) -> Fixed {
    if item.border_color.spec_is_transparent() {
        Fixed::spec_zero()
    } else {
        item.border_width
    }
}

/// The radius of the outer edge of a bordered rectangle: the clamped radius
/// of its corners and half the width of the border.
pub open spec fn outer_radius(item: RenderBorderRectangle, size: Size) -> Fixed {
    clamped_radius(item.border_radius.top_left, size).spec_add(
        effective_border_width(item).spec_half(),
    )
}

/// The radius of the outline on which the border is stroked: the outer
/// radius less half the width of the border, or the clamped radius of the
/// corners where that would be negative.
pub open spec fn stroke_radius(item: RenderBorderRectangle, size: Size) -> Fixed {
    let inner = outer_radius(item, size).spec_sub(effective_border_width(item).spec_half());
    if inner.raw < 0 {
        clamped_radius(item.border_radius.top_left, size)
    } else {
        inner
    }
}

/// The rectangle of `size` drawn in by `width` on every side.
pub open spec fn inset_rect(width: Fixed, size: Size) -> Rect {
    Rect {
        origin: Point { x: width, y: width },
        size: Size {
            width: size.width.spec_sub(width.spec_double()),
            height: size.height.spec_sub(width.spec_double()),
        },
    }
}

/// The rectangle on whose outline the border of a bordered rectangle is
/// stroked. The stroke is centered on its outline. Under a border that hides
/// what is beneath it the outline is drawn in by half the width of the
/// border, so that the border fills the band between the edge of the
/// rectangle and the background, which is drawn in by the whole width. Under
/// any other border the background has the full size, and the outline is
/// drawn in by the whole width.
pub open spec fn border_outline(item: RenderBorderRectangle, size: Size) -> Rect {
    let width = effective_border_width(item);
    if item.border_color.spec_is_opaque() {
        inset_rect(width.spec_half(), size)
    } else {
        inset_rect(width, size)
    }
}

/// The stroke of a border of the given physical width.
pub open spec fn border_stroke(width: Fixed) -> Stroke {
    Stroke { width, cap: Cap::Butt, join: Join::Miter, miter_limit: Fixed::spec_from_int(4) }
}

/// The stroke of a path of the given physical width.
pub open spec fn path_stroke(width: Fixed, cap: LineCap) -> Stroke {
    Stroke { width, cap: cap_of(cap), join: Join::Miter, miter_limit: Fixed::spec_from_int(4) }
}

/// The rectangle in physical pixels that a fit covers in its target.
pub open spec fn fit_target(fit: FitResult) -> PhysicalRect {
    PhysicalRect {
        x0: fit.offset.x,
        y0: fit.offset.y,
        x1: fit.offset.x.spec_add(fit.size.width),
        y1: fit.offset.y.spec_add(fit.size.height),
    }
}

/// The rectangle of all pixels of an image, at one pixel per unit.
pub open spec fn pixel_rect(width: u32, height: u32) -> PhysicalRect {
    PhysicalRect {
        x0: Fixed::spec_zero(),
        y0: Fixed::spec_zero(),
        x1: Fixed::spec_from_int(width as int),
        y1: Fixed::spec_from_int(height as int),
    }
}

/// The origin of the part of the source that shows: zero where no part is
/// singled out.
pub open spec fn source_origin(source_clip: Option<IntRect>) -> (int, int) {
    match source_clip {
        Some(clip) => (clip.x as int, clip.y as int),
        None => (0, 0),
    }
}

/// The transform that lays the pixels of a source into the target of a
/// fit: the part that shows is moved to zero, scaled to the target, and moved
/// to its place.
pub open spec fn fitted_transform(base: Affine, fit: FitResult, source_clip: Option<IntRect>)
    -> Affine {
    let (x, y) = source_origin(source_clip);
    base.spec_compose(Affine::spec_translation(fit.offset.x, fit.offset.y)).spec_compose(
        Affine::spec_scaling(fit.source_to_target_x, fit.source_to_target_y),
    ).spec_compose(
        Affine::spec_translation(
            Fixed::spec_from_int(x).spec_neg(),
            Fixed::spec_from_int(y).spec_neg(),
        ),
    )
}

/// The transform that lays the source region of a slice onto its target:
/// scaled by the ratio of the two extents, and moved so that the origin of
/// the region falls on the origin of the target.
pub open spec fn slice_transform(base: Affine, fit: FitResult) -> Affine {
    let scale_x = fit.size.width.spec_div(Fixed::spec_from_int(fit.clip_rect.width as int));
    let scale_y = fit.size.height.spec_div(Fixed::spec_from_int(fit.clip_rect.height as int));
    base.spec_compose(
        Affine::spec_translation(
            fit.offset.x.spec_sub(Fixed::spec_from_int(fit.clip_rect.x as int).spec_mul(scale_x)),
            fit.offset.y.spec_sub(Fixed::spec_from_int(fit.clip_rect.y as int).spec_mul(scale_y)),
        ),
    ).spec_compose(Affine::spec_scaling(scale_x, scale_y))
}

/// Whether an image item of `size` with a source of `source_size` shows
/// anything: both have to cover some area.
pub open spec fn spec_image_has_area(size: Size, source_size: IntSize) -> bool {
    !size.spec_is_empty() && source_size.width != 0 && source_size.height != 0
}

/// Whether an image item of `size` with a source of `source_size` shows
/// anything. Where it does not, nothing needs to be prepared for drawing it.
#[verifier::when_used_as_spec(spec_image_has_area)]
pub fn image_has_area(size: Size, source_size: IntSize) -> (r: bool)
    ensures
        r == spec_image_has_area(size, source_size),
{
    !size.is_empty() && source_size.width != 0 && source_size.height != 0
}

/// The glyphs of a run in the scene: each glyph moved down by `y_offset`.
pub open spec fn placed_glyphs(glyphs: Seq<PositionedGlyph>, y_offset: Fixed) -> Seq<Glyph> {
    Seq::new(
        glyphs.len(),
        |i: int| Glyph { id: glyphs[i].id, x: glyphs[i].x, y: glyphs[i].y.spec_add(y_offset) },
    )
}

/// What text is drawn with: a color to fill glyphs with, or a color and a
/// width to stroke them with.
#[derive(Clone, Copy, Debug, PartialEq, Eq, Structural)]
pub enum VelloBrush {
    Fill(Rgba8),
    Stroke(Rgba8, Fixed),
}

impl VelloBrush {
    /// The color of the brush.
    pub open spec fn color(self) -> Rgba8 {
        match self {
            VelloBrush::Fill(color) => color,
            VelloBrush::Stroke(color, width) => color,
        }
    }
}

impl RendererView {
    /// Draws a bordered rectangle of `size` at zero. Nothing is drawn where
    /// the size covers no area.
    ///
    /// Under a border that hides what is beneath it the background is drawn
    /// in by the width of the border, and the border is a ring around it;
    /// under any other border the background is drawn at full size. The
    /// border, where it shows and has a width, is stroked on
    /// [`border_outline`].
    pub open spec fn draw_border_rectangle(self, item: RenderBorderRectangle, size: Size)
        -> RendererView {
        if size.spec_is_empty() {
            self
        } else {
            let width = effective_border_width(item);
            let transform = self.current().transform;
            let inner = self.to_physical_rect(inset_rect(width, size));
            let inner_radius = self.to_physical(stroke_radius(item, size));
            let outline = self.to_physical_rect(border_outline(item, size));
            let outer = self.to_physical_rect(Rect::spec_from_size(size));
            let background = if item.border_color.spec_is_opaque() {
                (inner, inner_radius)
            } else {
                (outer, self.to_physical(outer_radius(item, size)))
            };
            let filled = self.record(
                DrawOpView::Fill {
                    rule: Fill::NonZero,
                    transform,
                    paint: self.paint(item.background, background.0),
                    shape: ShapeView::RoundedRect(background.0, background.1),
                },
            );
            if !item.border_color.spec_is_transparent() && width.raw > 0 {
                filled.record(
                    DrawOpView::Stroke {
                        style: border_stroke(self.to_physical(width)),
                        transform,
                        paint: self.paint(item.border_color, outline),
                        shape: ShapeView::RoundedRect(outline, inner_radius),
                    },
                )
            } else {
                filled
            }
        }
    }

    /// Draws the outline of a path item: filled, and stroked unless the
    /// stroke is one color that shows nothing. `bounds` are the bounds of the
    /// outline in physical pixels, against which gradients are laid.
    pub open spec fn draw_path(self, path: Path, bounds: PhysicalRect) -> RendererView {
        match path.fitted {
            None => self,
            Some(fitted) => {
                let elements = path_of(fitted.events@, fitted.offset, self.scale_factor);
                let transform = self.current().transform;
                let filled = self.record(
                    DrawOpView::Fill {
                        rule: fill_of(path.fill_rule),
                        transform,
                        paint: self.paint(path.fill, bounds),
                        shape: ShapeView::Path(elements),
                    },
                );
                if path.stroke.spec_is_transparent() {
                    filled
                } else {
                    filled.record(
                        DrawOpView::Stroke {
                            style: path_stroke(
                                self.to_physical(path.stroke_width),
                                path.stroke_line_cap,
                            ),
                            transform,
                            paint: self.paint(path.stroke, bounds),
                            shape: ShapeView::Path(elements),
                        },
                    )
                }
            },
        }
    }

    /// Whether a shadow shows: it has a color that shows, and either a blur
    /// or an offset.
    pub open spec fn shadow_shows(shadow: BoxShadow) -> bool {
        shadow.color.alpha != 0 && !(shadow.blur.raw == 0 && shadow.offset_x.raw == 0
            && shadow.offset_y.raw == 0)
    }

    /// Draws the shadow of a box: blurred with a standard deviation of half
    /// the physical blur where that is positive, else as a plain rounded
    /// rectangle. Nothing is drawn where the shadow does not show.
    pub open spec fn draw_box_shadow(self, shadow: BoxShadow) -> RendererView {
        if !RendererView::shadow_shows(shadow) {
            self
        } else {
            let color = color_with_alpha(rgba_of(shadow.color), self.alpha());
            let std_dev = self.to_physical(shadow.blur).spec_half();
            let rect = PhysicalRect {
                x0: self.to_physical(shadow.offset_x),
                y0: self.to_physical(shadow.offset_y),
                x1: self.to_physical(shadow.offset_x.spec_add(shadow.width)),
                y1: self.to_physical(shadow.offset_y.spec_add(shadow.height)),
            };
            let radius = self.to_physical(shadow.border_radius);
            let transform = self.current().transform;
            if std_dev.raw > 0 {
                self.record(
                    DrawOpView::BlurredRoundedRect { transform, rect, color, radius, std_dev },
                )
            } else {
                self.record(
                    DrawOpView::Fill {
                        rule: Fill::NonZero,
                        transform,
                        paint: PaintView::Solid(color),
                        shape: ShapeView::RoundedRect(rect, radius),
                    },
                )
            }
        }
    }

    /// The paint of an image under the current opacity.
    pub open spec fn image_paint(self, image: ImageDataView) -> PaintView {
        PaintView::Image { image, alpha: self.alpha() }
    }

    /// Draws an image inside a clip layer of its own: the layer is opened
    /// for `clip` under the current transform and opacity, the rectangle
    /// `area` is filled with the image under `transform`, and the layer is
    /// closed.
    pub open spec fn draw_clipped_image(
        self,
        image: ImageDataView,
        clip: PhysicalRect,
        transform: Affine,
        area: PhysicalRect,
    ) -> RendererView {
        self.record(
            DrawOpView::PushLayer {
                alpha: self.alpha(),
                transform: self.current().transform,
                clip: ShapeView::Rect(clip),
            },
        ).record(
            DrawOpView::Fill {
                rule: Fill::NonZero,
                transform,
                paint: self.image_paint(image),
                shape: ShapeView::Rect(area),
            },
        ).record(DrawOpView::PopLayer)
    }

    /// Fills the rectangle `area` with an image under the current
    /// transform.
    pub open spec fn fill_image(self, image: ImageDataView, area: PhysicalRect) -> RendererView {
        self.record(
            DrawOpView::Fill {
                rule: Fill::NonZero,
                transform: self.current().transform,
                paint: self.image_paint(image),
                shape: ShapeView::Rect(area),
            },
        )
    }

    /// The rectangle of `size` at zero, in physical pixels, extent by extent.
    pub open spec fn physical_extent(self, size: Size) -> PhysicalRect {
        PhysicalRect {
            x0: Fixed::spec_zero(),
            y0: Fixed::spec_zero(),
            x1: self.to_physical(size.width),
            y1: self.to_physical(size.height),
        }
    }

    /// Draws one slice of an image that is cut in nine.
    pub open spec fn draw_slice(self, image: ImageDataView, fit: FitResult) -> RendererView {
        self.draw_clipped_image(
            image,
            fit_target(fit),
            slice_transform(self.current().transform, fit),
            pixel_rect(image.width, image.height),
        )
    }

    /// Draws the slices of an image that is cut in nine, in their order,
    /// leaving out those whose source region holds no pixel.
    pub open spec fn draw_slices(self, image: ImageDataView, fits: Seq<FitResult>) -> RendererView
        decreases fits.len(),
    {
        if fits.len() == 0 {
            self
        } else {
            let drawn = self.draw_slices(image, fits.drop_last());
            if fits.last().clip_rect.spec_is_empty() {
                drawn
            } else {
                drawn.draw_slice(image, fits.last())
            }
        }
    }

    /// The view with the cache as it is after the draw of a buffer.
    pub open spec fn with_cached(self, buffer: SharedImageBuffer) -> RendererView {
        RendererView { cache: cache_after(self.cache, buffer), ..self }
    }

    /// Draws an image item of `size`. Nothing is drawn where the size covers
    /// no area, where the source has no pixels, or where the source is of a
    /// kind that cannot be drawn.
    ///
    /// Every image is drawn inside a clip layer of its own. A raster buffer
    /// and the inner buffer of a nine-slice image go through the cache; what
    /// is made for one frame only does not.
    pub open spec fn draw_image(self, image: RenderImage, size: Size) -> RendererView {
        if !spec_image_has_area(size, image.source_size) {
            self
        } else {
            let transform = self.current().transform;
            match image.source {
                ImageSource::EmbeddedImage(buffer) => self.with_cached(buffer).draw_clipped_image(
                    cache_image(self.cache, buffer),
                    fit_target(image.fit),
                    fitted_transform(transform, image.fit, image.source_clip),
                    pixel_rect(buffer.width, buffer.height),
                ),
                ImageSource::StaticTextures { size: texture_size, data } => {
                    self.draw_clipped_image(
                        ImageDataView {
                            data: data@,
                            alpha_type: ImageAlphaType::AlphaPremultiplied,
                            width: texture_size.width,
                            height: texture_size.height,
                        },
                        self.physical_extent(size),
                        transform,
                        self.physical_extent(size),
                    )
                },
                ImageSource::NineSlice { inner, fits } => match inner {
                    Some(buffer) => self.with_cached(buffer).draw_slices(
                        cache_image(self.cache, buffer),
                        fits@,
                    ),
                    None => self,
                },
                ImageSource::Svg { size: svg_size, fit, raster } => match raster {
                    Some(buffer) => self.draw_clipped_image(
                        decoded_image(buffer),
                        fit_target(fit),
                        transform.spec_compose(Affine::spec_translation(fit.offset.x, fit.offset.y)),
                        pixel_rect(buffer.width, buffer.height),
                    ),
                    None => self,
                },
                ImageSource::WGPUTexture { readback } => match readback {
                    Some(pixels) => if self.texture_reader {
                        self.draw_clipped_image(
                            raw_image(pixels),
                            self.physical_extent(size),
                            transform,
                            self.physical_extent(size),
                        )
                    } else {
                        self
                    },
                    None => self,
                },
                ImageSource::HTMLImage { pixels } => match pixels {
                    Some(pixels) => self.draw_clipped_image(
                        raw_image(pixels),
                        self.physical_extent(size),
                        transform,
                        self.physical_extent(size),
                    ),
                    None => self,
                },
                ImageSource::Empty => self,
                ImageSource::BackendStorage => self,
                ImageSource::BorrowedOpenGLTexture => self,
            }
        }
    }

    /// Draws a pixmap that an item keeps of itself, at its size in logical
    /// pixels. Nothing is drawn where there is none.
    pub open spec fn draw_cached_pixmap(self, pixmap: Option<RawPixels>) -> RendererView {
        match pixmap {
            Some(pixels) => self.fill_image(
                raw_image(pixels),
                self.physical_extent(
                    Size {
                        width: Fixed::spec_from_int(pixels.width as int),
                        height: Fixed::spec_from_int(pixels.height as int),
                    },
                ),
            ),
            None => self,
        }
    }

    /// Draws a raster buffer at the size of its image in logical pixels,
    /// past the cache. Nothing is drawn for an image without pixels or one
    /// that is no raster buffer.
    pub open spec fn draw_image_direct(self, source: ImageSource, image_size: IntSize)
        -> RendererView {
        if image_size.width == 0 || image_size.height == 0 {
            self
        } else {
            match source {
                ImageSource::EmbeddedImage(buffer) => self.fill_image(
                    decoded_image(buffer),
                    self.physical_extent(
                        Size {
                            width: Fixed::spec_from_int(image_size.width as int),
                            height: Fixed::spec_from_int(image_size.height as int),
                        },
                    ),
                ),
                _ => self,
            }
        }
    }

    /// Draws a run of glyphs. A brush that strokes draws the glyphs larger
    /// by the physical width of its stroke. Nothing is drawn for a run without
    /// glyphs.
    pub open spec fn draw_glyph_run(
        self,
        font: Font,
        font_size: Fixed,
        brush: VelloBrush,
        y_offset: Fixed,
        glyphs: Seq<PositionedGlyph>,
    ) -> RendererView {
        if glyphs.len() == 0 {
            self
        } else {
            self.record(
                DrawOpView::Glyphs {
                    font,
                    font_size: match brush {
                        VelloBrush::Fill(color) => font_size,
                        VelloBrush::Stroke(color, width) => font_size.spec_add(
                            self.to_physical(width),
                        ),
                    },
                    transform: self.current().transform,
                    color: color_with_alpha(brush.color(), self.alpha()),
                    glyphs: placed_glyphs(glyphs, y_offset),
                },
            )
        }
    }

    /// Fills a rectangle given in physical pixels with the color of a text
    /// brush, as it is.
    pub open spec fn fill_rectangle(self, physical_rect: Rect, brush: VelloBrush) -> RendererView {
        self.record(
            DrawOpView::Fill {
                rule: Fill::NonZero,
                transform: self.current().transform,
                paint: PaintView::Solid(brush.color()),
                shape: ShapeView::Rect(
                    PhysicalRect {
                        x0: physical_rect.origin.x,
                        y0: physical_rect.origin.y,
                        x1: physical_rect.spec_max_x(),
                        y1: physical_rect.spec_max_y(),
                    },
                ),
            },
        )
    }
}

impl VelloItemRenderer {
    /// The decoded pixels of a raster buffer, from the image cache if it
    /// holds them, else decoded now and kept there.
    pub fn get_or_create_image_data(&mut self, buffer: &SharedImageBuffer) -> (image: ImageData)
        requires
            old(self)@.wf(),
        ensures
            final(self)@.wf(),
            final(self)@ == old(self)@.with_cached(*buffer),
            image@ == cache_image(old(self)@.cache, *buffer),
    {
        let (image, _) = self.image_cache.get_or_create(buffer);
        image
    }

    /// The background of the window is drawn like any rectangle.
    pub fn draw_window_background(&mut self, background: &Brush, size: Size)
        requires
            old(self)@.wf(),
        ensures
            final(self)@.wf(),
            final(self)@ == old(self)@.draw_rectangle(*background, size),
    {
        self.draw_rectangle(background, size);
    }

    /// Draws a bordered rectangle of `size` at zero.
    pub fn draw_border_rectangle(&mut self, item: &RenderBorderRectangle, size: Size)
        requires
            old(self)@.wf(),
        ensures
            final(self)@.wf(),
            final(self)@ == old(self)@.draw_border_rectangle(*item, size),
    {
        if size.width.raw <= 0 || size.height.raw <= 0 {
            return ;
        }
        let border_width = if item.border_color.is_transparent() {
            Fixed::zero()
        } else {
            item.border_width
        };
        let opaque_border = item.border_color.is_opaque();
        let half_width = border_width.half();
        let base_radius = item.border_radius.top_left.min(size.width.half()).min(
            size.height.half(),
        );
        let fill_radius = base_radius.add(half_width);
        let stroke_border_radius = if fill_radius.sub(half_width).raw < 0 {
            base_radius
        } else {
            fill_radius.sub(half_width)
        };
        let inner = self.to_physical_rect(
            Rect {
                origin: Point { x: border_width, y: border_width },
                size: Size {
                    width: size.width.sub(border_width.double()),
                    height: size.height.sub(border_width.double()),
                },
            },
        );
        let inner_radius = self.to_physical(stroke_border_radius);
        let (background_rect, background_radius) = if opaque_border {
            (inner, inner_radius)
        } else {
            (self.to_physical_rect(Rect::from_size(size)), self.to_physical(fill_radius))
        };
        let transform = self.current_transform();
        let background_paint = self.paint(&item.background, background_rect);
        self.scene.fill(
            Fill::NonZero,
            transform,
            background_paint,
            Shape::RoundedRect(background_rect, background_radius),
        );
        if !item.border_color.is_transparent() && border_width.raw > 0 {
            let inset = if opaque_border {
                half_width
            } else {
                border_width
            };
            let outline = self.to_physical_rect(
                Rect {
                    origin: Point { x: inset, y: inset },
                    size: Size {
                        width: size.width.sub(inset.double()),
                        height: size.height.sub(inset.double()),
                    },
                },
            );
            let border_paint = self.paint(&item.border_color, outline);
            let style = Stroke {
                width: self.to_physical(border_width),
                cap: Cap::Butt,
                join: Join::Miter,
                miter_limit: Fixed::from_int(4),
            };
            self.scene.stroke(
                style,
                transform,
                border_paint,
                Shape::RoundedRect(outline, inner_radius),
            );
        }
    }

    /// The outline of a fitted path in physical pixels.
    pub fn path_elements(&self, fitted: &FittedPath) -> (elements: Vec<PathEl>)
        ensures
            elements@ == path_of(fitted.events@, fitted.offset, self@.scale_factor),
    {
        let offset = fitted.offset;
        let mut elements: Vec<PathEl> = Vec::new();
        let mut i: usize = 0;
        while i < fitted.events.len()
            invariant
                i <= fitted.events.len(),
                offset == fitted.offset,
                elements@ == path_of(fitted.events@.take(i as int), offset, self@.scale_factor),
            decreases fitted.events.len() - i,
        {
            proof {
                assert(fitted.events@.take(i + 1).drop_last() =~= fitted.events@.take(i as int));
            }
            match fitted.events[i] {
                PathEvent::Begin { at } => {
                    elements.push(PathEl::MoveTo(self.physical_point(at, offset)));
                },
                PathEvent::Line { from: _, to } => {
                    elements.push(PathEl::LineTo(self.physical_point(to, offset)));
                },
                PathEvent::Quadratic { from: _, ctrl, to } => {
                    elements.push(
                        PathEl::QuadTo(
                            self.physical_point(ctrl, offset),
                            self.physical_point(to, offset),
                        ),
                    );
                },
                PathEvent::Cubic { from: _, ctrl1, ctrl2, to } => {
                    elements.push(
                        PathEl::CurveTo(
                            self.physical_point(ctrl1, offset),
                            self.physical_point(ctrl2, offset),
                            self.physical_point(to, offset),
                        ),
                    );
                },
                PathEvent::End { last: _, first: _, close } => {
                    if close {
                        elements.push(PathEl::ClosePath);
                    }
                },
            }
            i += 1;
            assert(elements@ =~= path_of(fitted.events@.take(i as int), offset, self@.scale_factor));
        }
        assert(fitted.events@.take(fitted.events@.len() as int) =~= fitted.events@);
        elements
    }

    fn physical_point(&self, p: Point, offset: Vector) -> (r: Point)
        ensures
            r == physical_point(p, offset, self@.scale_factor),
    {
        Point { x: self.to_physical(p.x.add(offset.x)), y: self.to_physical(p.y.add(offset.y)) }
    }

    /// Draws a path item. `bounds` are the bounds of its outline in physical
    /// pixels, as [`VelloItemRenderer::path_elements`] gives the outline.
    pub fn draw_path(&mut self, path: &Path, bounds: PhysicalRect)
        requires
            old(self)@.wf(),
        ensures
            final(self)@.wf(),
            final(self)@ == old(self)@.draw_path(*path, bounds),
    {
        let fitted = match &path.fitted {
            Some(fitted) => fitted,
            None => {
                return ;
            },
        };
        let transform = self.current_transform();
        let fill_paint = self.paint(&path.fill, bounds);
        let fill_rule = match path.fill_rule {
            FillRule::Nonzero => Fill::NonZero,
            FillRule::Evenodd => Fill::EvenOdd,
        };
        let outline = self.path_elements(fitted);
        self.scene.fill(fill_rule, transform, fill_paint, Shape::Path(outline));
        if !path.stroke.is_transparent() {
            let stroke_paint = self.paint(&path.stroke, bounds);
            let line_cap = match path.stroke_line_cap {
                LineCap::Butt => Cap::Butt,
                LineCap::Round => Cap::Round,
                LineCap::Square => Cap::Square,
            };
            let style = Stroke {
                width: self.to_physical(path.stroke_width),
                cap: line_cap,
                join: Join::Miter,
                miter_limit: Fixed::from_int(4),
            };
            let outline = self.path_elements(fitted);
            self.scene.stroke(style, transform, stroke_paint, Shape::Path(outline));
        }
    }

    /// Draws the shadow of a box.
    pub fn draw_box_shadow(&mut self, shadow: &BoxShadow)
        requires
            old(self)@.wf(),
        ensures
            final(self)@.wf(),
            final(self)@ == old(self)@.draw_box_shadow(*shadow),
    {
        if shadow.color.alpha == 0 || (shadow.blur.raw == 0 && shadow.offset_x.raw == 0
            && shadow.offset_y.raw == 0) {
            return ;
        }
        let color = apply_alpha(to_peniko_color(&shadow.color), self.current_alpha());
        let std_dev = self.to_physical(shadow.blur).half();
        let rect = PhysicalRect {
            x0: self.to_physical(shadow.offset_x),
            y0: self.to_physical(shadow.offset_y),
            x1: self.to_physical(shadow.offset_x.add(shadow.width)),
            y1: self.to_physical(shadow.offset_y.add(shadow.height)),
        };
        let radius = self.to_physical(shadow.border_radius);
        let transform = self.current_transform();
        if std_dev.raw > 0 {
            self.scene.draw_blurred_rounded_rect(transform, rect, color, radius, std_dev);
        } else {
            self.scene.fill(
                Fill::NonZero,
                transform,
                Paint::Solid(color),
                Shape::RoundedRect(rect, radius),
            );
        }
    }

    fn draw_clipped_image(
        &mut self,
        image: ImageData,
        clip: PhysicalRect,
        transform: Affine,
        area: PhysicalRect,
    )
        requires
            old(self)@.wf(),
        ensures
            final(self)@.wf(),
            final(self)@ == old(self)@.draw_clipped_image(image@, clip, transform, area),
    {
        let alpha = self.current_alpha();
        let layer_transform = self.current_transform();
        self.scene.push_layer(alpha, layer_transform, Shape::Rect(clip));
        self.scene.fill(Fill::NonZero, transform, Paint::Image { image, alpha }, Shape::Rect(area));
        self.scene.pop_layer();
    }

    fn fill_image(&mut self, image: ImageData, area: PhysicalRect)
        requires
            old(self)@.wf(),
        ensures
            final(self)@.wf(),
            final(self)@ == old(self)@.fill_image(image@, area),
    {
        let alpha = self.current_alpha();
        let transform = self.current_transform();
        self.scene.fill(Fill::NonZero, transform, Paint::Image { image, alpha }, Shape::Rect(area));
    }

    fn physical_extent(&self, size: Size) -> (r: PhysicalRect)
        ensures
            r == self@.physical_extent(size),
    {
        PhysicalRect {
            x0: Fixed::zero(),
            y0: Fixed::zero(),
            x1: self.to_physical(size.width),
            y1: self.to_physical(size.height),
        }
    }

    fn draw_slices(&mut self, image: &ImageData, fits: &[FitResult])
        requires
            old(self)@.wf(),
        ensures
            final(self)@.wf(),
            final(self)@ == old(self)@.draw_slices(image@, fits@),
    {
        let mut i: usize = 0;
        while i < fits.len()
            invariant
                i <= fits.len(),
                self@.wf(),
                self@ == old(self)@.draw_slices(image@, fits@.take(i as int)),
            decreases fits.len() - i,
        {
            proof {
                assert(fits@.take(i + 1).drop_last() =~= fits@.take(i as int));
            }
            let fit = fits[i];
            if !fit.clip_rect.is_empty() {
                let scale_x = fit.size.width.div(Fixed::from_int(fit.clip_rect.width));
                let scale_y = fit.size.height.div(Fixed::from_int(fit.clip_rect.height));
                let translate_x = fit.offset.x.sub(Fixed::from_int(fit.clip_rect.x).mul(scale_x));
                let translate_y = fit.offset.y.sub(Fixed::from_int(fit.clip_rect.y).mul(scale_y));
                let transform = self.current_transform().compose(
                    Affine::translation(translate_x, translate_y),
                ).compose(Affine::scaling(scale_x, scale_y));
                let target = PhysicalRect {
                    x0: fit.offset.x,
                    y0: fit.offset.y,
                    x1: fit.offset.x.add(fit.size.width),
                    y1: fit.offset.y.add(fit.size.height),
                };
                let area = PhysicalRect {
                    x0: Fixed::zero(),
                    y0: Fixed::zero(),
                    x1: Fixed::from_u32(image.width),
                    y1: Fixed::from_u32(image.height),
                };
                self.draw_clipped_image(image.share(), target, transform, area);
            }
            i += 1;
        }
        assert(fits@.take(fits@.len() as int) =~= fits@);
    }

    /// Draws an image item of `size`.
    pub fn draw_image(&mut self, image: &RenderImage, size: Size)
        requires
            old(self)@.wf(),
        ensures
            final(self)@.wf(),
            final(self)@ == old(self)@.draw_image(*image, size),
    {
        if !image_has_area(size, image.source_size) {
            return ;
        }
        let fit = image.fit;
        match &image.source {
            ImageSource::EmbeddedImage(buffer) => {
                let transform = self.current_transform();
                let (clip_x, clip_y): (i32, i32) = match image.source_clip {
                    Some(clip) => (clip.x, clip.y),
                    None => (0, 0),
                };
                let image_transform = transform.compose(
                    Affine::translation(fit.offset.x, fit.offset.y),
                ).compose(Affine::scaling(fit.source_to_target_x, fit.source_to_target_y)).compose(
                    Affine::translation(Fixed::from_int(clip_x).neg(), Fixed::from_int(clip_y).neg()),
                );
                let target = PhysicalRect {
                    x0: fit.offset.x,
                    y0: fit.offset.y,
                    x1: fit.offset.x.add(fit.size.width),
                    y1: fit.offset.y.add(fit.size.height),
                };
                let area = PhysicalRect {
                    x0: Fixed::zero(),
                    y0: Fixed::zero(),
                    x1: Fixed::from_u32(buffer.width),
                    y1: Fixed::from_u32(buffer.height),
                };
                let data = self.get_or_create_image_data(buffer);
                self.draw_clipped_image(data, target, image_transform, area);
            },
            ImageSource::StaticTextures { size: texture_size, data } => {
                let pixels = ImageData::new(
                    slice_to_vec(data),
                    ImageAlphaType::AlphaPremultiplied,
                    texture_size.width,
                    texture_size.height,
                );
                let target = self.physical_extent(size);
                let transform = self.current_transform();
                self.draw_clipped_image(pixels, target, transform, target);
            },
            ImageSource::NineSlice { inner, fits } => {
                match inner {
                    Some(buffer) => {
                        let data = self.get_or_create_image_data(buffer);
                        self.draw_slices(&data, fits);
                    },
                    None => {},
                }
            },
            ImageSource::Svg { size: _, fit: svg_fit, raster } => {
                match raster {
                    Some(buffer) => {
                        let pixels = ImageData::new(
                            decode_bytes(buffer.format, buffer.bytes),
                            alpha_type_for(buffer.format),
                            buffer.width,
                            buffer.height,
                        );
                        let target = PhysicalRect {
                            x0: svg_fit.offset.x,
                            y0: svg_fit.offset.y,
                            x1: svg_fit.offset.x.add(svg_fit.size.width),
                            y1: svg_fit.offset.y.add(svg_fit.size.height),
                        };
                        let area = PhysicalRect {
                            x0: Fixed::zero(),
                            y0: Fixed::zero(),
                            x1: Fixed::from_u32(buffer.width),
                            y1: Fixed::from_u32(buffer.height),
                        };
                        let transform = self.current_transform().compose(
                            Affine::translation(svg_fit.offset.x, svg_fit.offset.y),
                        );
                        self.draw_clipped_image(pixels, target, transform, area);
                    },
                    None => {},
                }
            },
            ImageSource::WGPUTexture { readback } => {
                match readback {
                    Some(pixels) => {
                        if self.texture_reader {
                            self.draw_raw_pixels(pixels, size);
                        }
                    },
                    None => {},
                }
            },
            ImageSource::HTMLImage { pixels } => {
                match pixels {
                    Some(pixels) => {
                        self.draw_raw_pixels(pixels, size);
                    },
                    None => {},
                }
            },
            ImageSource::Empty => {},
            ImageSource::BackendStorage => {},
            ImageSource::BorrowedOpenGLTexture => {},
        }
    }

    fn draw_raw_pixels(&mut self, pixels: &RawPixels, size: Size)
        requires
            old(self)@.wf(),
        ensures
            final(self)@.wf(),
            final(self)@ == old(self)@.draw_clipped_image(
                raw_image(*pixels),
                old(self)@.physical_extent(size),
                old(self)@.current().transform,
                old(self)@.physical_extent(size),
            ),
    {
        let image = ImageData::new(
            slice_to_vec(pixels.data.as_slice()),
            ImageAlphaType::AlphaPremultiplied,
            pixels.width,
            pixels.height,
        );
        let target = self.physical_extent(size);
        let transform = self.current_transform();
        self.draw_clipped_image(image, target, transform, target);
    }

    /// Draws a pixmap that an item keeps of itself.
    pub fn draw_cached_pixmap(&mut self, pixmap: Option<&RawPixels>)
        requires
            old(self)@.wf(),
        ensures
            final(self)@.wf(),
            final(self)@ == old(self)@.draw_cached_pixmap(
                match pixmap {
                    Some(pixels) => Some(*pixels),
                    None => None,
                },
            ),
    {
        match pixmap {
            Some(pixels) => {
                let image = ImageData::new(
                    slice_to_vec(pixels.data.as_slice()),
                    ImageAlphaType::AlphaPremultiplied,
                    pixels.width,
                    pixels.height,
                );
                let area = self.physical_extent(
                    Size {
                        width: Fixed::from_u32(pixels.width),
                        height: Fixed::from_u32(pixels.height),
                    },
                );
                self.fill_image(image, area);
            },
            None => {},
        }
    }

    /// Draws a raster buffer at the size of its image, past the cache.
    pub fn draw_image_direct(&mut self, source: &ImageSource, image_size: IntSize)
        requires
            old(self)@.wf(),
        ensures
            final(self)@.wf(),
            final(self)@ == old(self)@.draw_image_direct(*source, image_size),
    {
        if image_size.width == 0 || image_size.height == 0 {
            return ;
        }
        match source {
            ImageSource::EmbeddedImage(buffer) => {
                let image = ImageData::new(
                    decode_bytes(buffer.format, buffer.bytes),
                    alpha_type_for(buffer.format),
                    buffer.width,
                    buffer.height,
                );
                let area = self.physical_extent(
                    Size {
                        width: Fixed::from_u32(image_size.width),
                        height: Fixed::from_u32(image_size.height),
                    },
                );
                self.fill_image(image, area);
            },
            _ => {},
        }
    }

    /// The brush with which text is filled: that of a solid color; a gradient
    /// gives none.
    pub fn platform_text_fill_brush(&mut self, brush: &Brush, _size: Size) -> (r: Option<
        VelloBrush,
    >)
        ensures
            final(self)@ == old(self)@,
            r == match *brush {
                Brush::SolidColor(color) => Some(VelloBrush::Fill(rgba_of(color))),
                _ => None,
            },
    {
        match brush_to_peniko_color(brush) {
            Some(color) => Some(VelloBrush::Fill(color)),
            None => None,
        }
    }

    /// The brush for a color of text: none for a color that shows nothing.
    pub fn platform_brush_for_color(&mut self, color: &Color) -> (r: Option<VelloBrush>)
        ensures
            final(self)@ == old(self)@,
            r == if color.alpha == 0 {
                None
            } else {
                Some(VelloBrush::Fill(rgba_of(*color)))
            },
    {
        if color.alpha == 0 {
            None
        } else {
            Some(VelloBrush::Fill(to_peniko_color(color)))
        }
    }

    /// The brush with which text is stroked at the given physical width: that
    /// of a solid color; a gradient gives none.
    pub fn platform_text_stroke_brush(
        &mut self,
        brush: &Brush,
        physical_stroke_width: Fixed,
        _size: Size,
    ) -> (r: Option<VelloBrush>)
        ensures
            final(self)@ == old(self)@,
            r == match *brush {
                Brush::SolidColor(color) => Some(
                    VelloBrush::Stroke(rgba_of(color), physical_stroke_width),
                ),
                _ => None,
            },
    {
        match brush_to_peniko_color(brush) {
            Some(color) => Some(VelloBrush::Stroke(color, physical_stroke_width)),
            None => None,
        }
    }

    /// Draws a run of glyphs of one font.
    pub fn draw_glyph_run(
        &mut self,
        font: Font,
        font_size: Fixed,
        brush: VelloBrush,
        y_offset: Fixed,
        glyphs: &[PositionedGlyph],
    )
        requires
            old(self)@.wf(),
        ensures
            final(self)@.wf(),
            final(self)@ == old(self)@.draw_glyph_run(font, font_size, brush, y_offset, glyphs@),
    {
        let mut placed: Vec<Glyph> = Vec::new();
        let mut i: usize = 0;
        while i < glyphs.len()
            invariant
                i <= glyphs.len(),
                placed@.len() == i,
                forall|j: int|
                    0 <= j < i ==> placed@[j] == (Glyph {
                        id: glyphs@[j].id,
                        x: glyphs@[j].x,
                        y: glyphs@[j].y.spec_add(y_offset),
                    }),
            decreases glyphs.len() - i,
        {
            let glyph = glyphs[i];
            placed.push(Glyph { id: glyph.id, x: glyph.x, y: glyph.y.add(y_offset) });
            i += 1;
        }
        assert(placed@ =~= placed_glyphs(glyphs@, y_offset));
        if placed.len() == 0 {
            return ;
        }
        let transform = self.current_transform();
        let alpha = self.current_alpha();
        match brush {
            VelloBrush::Fill(color) => {
                self.scene.draw_glyphs(font, font_size, transform, apply_alpha(color, alpha), placed);
            },
            VelloBrush::Stroke(color, stroke_width) => {
                let stroke_offset = self.to_physical(stroke_width);
                self.scene.draw_glyphs(
                    font,
                    font_size.add(stroke_offset),
                    transform,
                    apply_alpha(color, alpha),
                    placed,
                );
            },
        }
    }

    /// Fills a rectangle given in physical pixels with the color of a text
    /// brush.
    pub fn fill_rectangle(&mut self, physical_rect: Rect, brush: VelloBrush)
        requires
            old(self)@.wf(),
        ensures
            final(self)@.wf(),
            final(self)@ == old(self)@.fill_rectangle(physical_rect, brush),
    {
        let color = match brush {
            VelloBrush::Fill(color) => color,
            VelloBrush::Stroke(color, _) => color,
        };
        let rect = PhysicalRect {
            x0: physical_rect.origin.x,
            y0: physical_rect.origin.y,
            x1: physical_rect.max_x(),
            y1: physical_rect.max_y(),
        };
        let transform = self.current_transform();
        self.scene.fill(Fill::NonZero, transform, Paint::Solid(color), Shape::Rect(rect));
    }
}

} // verus!
