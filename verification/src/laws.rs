//! What holds of the item renderer over whole runs of calls: how the clip
//! layers that it opens are closed again, and what clipping, turning and
//! opacity do to its state.

use vstd::prelude::*;
use crate::brush::Brush;
use crate::fixed::{Fixed, MAX_RAW, ONE_RAW};
use crate::fixed::lemma_mul_one;
use crate::geometry::{Affine, BorderRadius, PhysicalRect, Rect, Rotation, Size, Vector};
use crate::geometry::{lemma_compose_identity, lemma_rotated_bounds_by_none};
use crate::image::{FitResult, ImageSource, IntSize, RawPixels};
use crate::image::{cache_image, decoded_image, raw_image};
use crate::itemrenderer::{RendererView, VelloBrush};
use crate::itemrenderer::{fit_target, fitted_transform, pixel_rect, slice_transform};
use crate::itemrenderer::spec_image_has_area;
use crate::itemrenderer::{border_outline, effective_border_width, inset_rect};
use crate::items::{BoxShadow, Path, PositionedGlyph, RenderBorderRectangle, RenderImage};
use crate::scene::{DrawOpView, Font, ImageAlphaType, ImageDataView, PaintView};
use crate::scene::{lemma_counts_concat, lemma_counts_pop_run, lemma_counts_push};
use crate::scene::{open_layers, pop_run, pops, pushes};

verus! {

/// A call of the item renderer: one that saves or restores the state,
/// clips, moves, turns or stretches the coordinate system, applies an
/// opacity, or draws. A drawing stands for any call that leaves the states
/// alone: it is told by the operations that it adds to the scene and by the
/// image cache that it leaves.
pub enum StackCall {
    SaveState,
    RestoreState,
    CombineClip { rect: Rect, radius: BorderRadius },
    Translate { distance: Vector },
    Rotate { rotation: Rotation },
    Scale { x_factor: Fixed, y_factor: Fixed },
    ApplyOpacity { opacity: Fixed },
    Draw { ops: Seq<DrawOpView>, cache: Map<usize, Seq<u8>> },
}

/// Whether a list of operations closes as many layers as it opens.
pub open spec fn is_balanced(ops: Seq<DrawOpView>) -> bool {
    pushes(ops) == pops(ops)
}

/// Whether a call is a drawing that closes the layers that it opens, or no
/// drawing at all.
pub open spec fn is_orderly(call: StackCall) -> bool {
    match call {
        StackCall::Draw { ops, cache } => is_balanced(ops),
        _ => true,
    }
}

/// Whether every call of a run is orderly.
pub open spec fn all_orderly(calls: Seq<StackCall>) -> bool {
    forall|i: int| 0 <= i < calls.len() ==> is_orderly(#[trigger] calls[i])
}

/// The view after one call.
pub open spec fn after_call(view: RendererView, call: StackCall) -> RendererView {
    match call {
        StackCall::SaveState => view.save_state(),
        StackCall::RestoreState => view.restore_state(),
        StackCall::CombineClip { rect, radius } => view.combine_clip(rect, radius),
        StackCall::Translate { distance } => view.translate(distance),
        StackCall::Rotate { rotation } => view.rotate(rotation),
        StackCall::Scale { x_factor, y_factor } => view.scale(x_factor, y_factor),
        StackCall::ApplyOpacity { opacity } => view.apply_opacity(opacity),
        StackCall::Draw { ops, cache } => RendererView { ops: view.ops + ops, cache, ..view },
    }
}

/// Whether an opacity lies between zero and one.
pub open spec fn in_unit_range(alpha: Fixed) -> bool {
    0 <= alpha.raw <= ONE_RAW
}

/// Whether the opacity that an operation carries, if it carries one, lies
/// between zero and one.
pub open spec fn alpha_is_clamped(op: DrawOpView) -> bool {
    match op {
        DrawOpView::PushLayer { alpha, transform, clip } => in_unit_range(alpha),
        DrawOpView::Fill { rule, transform, paint, shape } => match paint {
            PaintView::Image { image, alpha } => in_unit_range(alpha),
            _ => true,
        },
        DrawOpView::Stroke { style, transform, paint, shape } => match paint {
            PaintView::Image { image, alpha } => in_unit_range(alpha),
            _ => true,
        },
        _ => true,
    }
}

/// Whether every operation of a list carries a clamped opacity.
pub open spec fn alphas_are_clamped(ops: Seq<DrawOpView>) -> bool {
    forall|i: int| 0 <= i < ops.len() ==> alpha_is_clamped(#[trigger] ops[i])
}

/// Whether `after` is `before` after a drawing: the states are as they
/// were, and the scene has gained operations that close the layers that they
/// open and carry no opacity outside the range from zero to one.
pub open spec fn draws(before: RendererView, after: RendererView) -> bool {
    exists|ops: Seq<DrawOpView>|
        is_balanced(ops) && alphas_are_clamped(ops) && after == #[trigger] after_call(
            before,
            StackCall::Draw { ops, cache: after.cache },
        )
}

/// The view after a run of calls, in their order.
pub open spec fn after_calls(view: RendererView, calls: Seq<StackCall>) -> RendererView
    decreases calls.len(),
{
    if calls.len() == 0 {
        view
    } else {
        after_call(after_calls(view, calls.drop_last()), calls.last())
    }
}

/// For each saved state, bottom first, the number of clips that were made
/// under it since it was saved, after one more call: a save starts a new
/// count at zero, a clip adds one to the last count, and a restore drops the
/// last count unless it is the only one. No other call touches the counts.
pub open spec fn clips_after_call(clips: Seq<nat>, call: StackCall) -> Seq<nat> {
    match call {
        StackCall::SaveState => clips.push(0),
        StackCall::RestoreState => if clips.len() > 1 {
            clips.drop_last()
        } else {
            clips
        },
        StackCall::CombineClip { rect, radius } => clips.update(
            clips.len() - 1,
            clips.last() + 1,
        ),
        _ => clips,
    }
}

/// The counts of clips per saved state after a run of calls.
pub open spec fn clips_after_calls(clips: Seq<nat>, calls: Seq<StackCall>) -> Seq<nat>
    decreases calls.len(),
{
    if calls.len() == 0 {
        clips
    } else {
        clips_after_call(clips_after_calls(clips, calls.drop_last()), calls.last())
    }
}

/// The counts of open clip layers that the states of a view hold, bottom
/// first.
pub open spec fn layer_counts(view: RendererView) -> Seq<nat> {
    Seq::new(view.states.len(), |i: int| view.states[i].clip_layer_count)
}

/// The sum of a list of counts.
pub open spec fn total(counts: Seq<nat>) -> nat
    decreases counts.len(),
{
    if counts.len() == 0 {
        0
    } else {
        total(counts.drop_last()) + counts.last()
    }
}

/// Whether a run holds neither a save nor a restore, and orderly drawings
/// only: it may clip, move, turn, stretch, apply opacities and draw.
pub open spec fn clips_and_draws(calls: Seq<StackCall>) -> bool {
    forall|i: int|
        0 <= i < calls.len() ==> is_orderly(#[trigger] calls[i]) && !(calls[i] is SaveState)
            && !(calls[i] is RestoreState)
}

/// The number of clips in a run.
pub open spec fn clip_count(calls: Seq<StackCall>) -> nat
    decreases calls.len(),
{
    if calls.len() == 0 {
        0
    } else {
        clip_count(calls.drop_last()) + if calls.last() is CombineClip {
            1nat
        } else {
            0nat
        }
    }
}

/// The calls of a save, a run without saves and restores, and a restore.
pub open spec fn clipped_group(inner: Seq<StackCall>) -> Seq<StackCall> {
    seq![StackCall::SaveState] + inner + seq![StackCall::RestoreState]
}

proof fn lemma_total_update(counts: Seq<nat>, i: int, value: nat)
    requires
        0 <= i < counts.len(),
    ensures
        total(counts.update(i, value)) == total(counts) - counts[i] + value,
    decreases counts.len(),
{
    if i == counts.len() - 1 {
        assert(counts.update(i, value).drop_last() =~= counts.drop_last());
    } else {
        lemma_total_update(counts.drop_last(), i, value);
        assert(counts.update(i, value).drop_last() =~= counts.drop_last().update(i, value));
    }
}

/// One call keeps a view well formed, moves its counts as the call says,
/// and opens or closes as many layers as its counts gain or lose.
pub proof fn lemma_after_call(view: RendererView, call: StackCall)
    requires
        view.wf(),
        is_orderly(call),
    ensures
        after_call(view, call).wf(),
        layer_counts(after_call(view, call)) == clips_after_call(layer_counts(view), call),
        open_layers(after_call(view, call).ops) - open_layers(view.ops) == total(
            layer_counts(after_call(view, call)),
        ) - total(layer_counts(view)),
        after_call(view, call).scale_factor == view.scale_factor,
        after_call(view, call).texture_reader == view.texture_reader,
{
    let next = after_call(view, call);
    let before = layer_counts(view);
    match call {
        StackCall::SaveState => {
            assert(layer_counts(next) =~= before.push(0));
            assert(before.push(0).drop_last() =~= before);
        },
        StackCall::RestoreState => {
            if view.states.len() > 1 {
                let closed = view.current().clip_layer_count;
                assert(layer_counts(next) =~= before.drop_last());
                lemma_counts_concat(view.ops, pop_run(closed));
                lemma_counts_pop_run(closed);
                assert(before.last() == closed);
            }
        },
        StackCall::CombineClip { rect, radius } => {
            let last = view.states.len() - 1;
            let count = view.current().clip_layer_count;
            assert(layer_counts(next) =~= before.update(last, count + 1));
            lemma_total_update(before, last, count + 1);
            let pushed = DrawOpView::PushLayer {
                alpha: Fixed::spec_one(),
                transform: view.current().transform,
                clip: view.clip_shape(rect, radius),
            };
            lemma_counts_push(view.ops, pushed);
            assert(next.ops == view.ops.push(pushed));
        },
        StackCall::Draw { ops, cache } => {
            assert(layer_counts(next) =~= before);
            lemma_counts_concat(view.ops, ops);
        },
        _ => {
            // the call puts a state with the same count in place of the
            // current one and leaves the scene alone
            assert(next.ops == view.ops);
            assert(layer_counts(next) =~= before);
        },
    }
}

/// After any run of calls with orderly drawings (saves, restores, clips,
/// translations, rotations, scalings, opacities and drawings in any order),
/// each state counts exactly the clips that were made under it since it was
/// saved, and the scene has gained as many open layers as the counts have
/// gained in sum.
pub proof fn lemma_counts_follow_calls(view: RendererView, calls: Seq<StackCall>)
    requires
        view.wf(),
        all_orderly(calls),
    ensures
        after_calls(view, calls).wf(),
        layer_counts(after_calls(view, calls)) == clips_after_calls(layer_counts(view), calls),
        open_layers(after_calls(view, calls).ops) - open_layers(view.ops) == total(
            layer_counts(after_calls(view, calls)),
        ) - total(layer_counts(view)),
    decreases calls.len(),
{
    if calls.len() > 0 {
        lemma_counts_follow_calls(view, calls.drop_last());
        lemma_after_call(after_calls(view, calls.drop_last()), calls.last());
    }
}

/// A restore closes exactly the layers that the clips since the matching
/// save opened: the scene gains that many closing operations and nothing
/// else, and the saved state is dropped.
pub proof fn lemma_restore_closes_clips_since_save(view: RendererView, calls: Seq<StackCall>)
    requires
        view.wf(),
        all_orderly(calls),
        after_calls(view, calls).states.len() > 1,
    ensures
        ({
            let before = after_calls(view, calls);
            let closed = clips_after_calls(layer_counts(view), calls).last();
            &&& before.restore_state().ops == before.ops + pop_run(closed)
            &&& pops(before.restore_state().ops) == pops(before.ops) + closed
            &&& pushes(before.restore_state().ops) == pushes(before.ops)
            &&& before.restore_state().states == before.states.drop_last()
        }),
{
    lemma_counts_follow_calls(view, calls);
    let before = after_calls(view, calls);
    let closed = before.current().clip_layer_count;
    assert(layer_counts(before).last() == closed);
    lemma_counts_concat(before.ops, pop_run(closed));
    lemma_counts_pop_run(closed);
}

proof fn lemma_after_calls_concat(view: RendererView, a: Seq<StackCall>, b: Seq<StackCall>)
    ensures
        after_calls(view, a + b) == after_calls(after_calls(view, a), b),
    decreases b.len(),
{
    if b.len() == 0 {
        assert(a + b =~= a);
    } else {
        lemma_after_calls_concat(view, a, b.drop_last());
        assert((a + b).drop_last() =~= a + b.drop_last());
        assert((a + b).last() == b.last());
    }
}

proof fn lemma_clips_keep_lower_states(view: RendererView, inner: Seq<StackCall>)
    requires
        view.wf(),
        view.states.len() > 1,
        clips_and_draws(inner),
    ensures
        ({
            let after = after_calls(view, inner);
            &&& after.wf()
            &&& after.states.len() == view.states.len()
            &&& after.states.drop_last() == view.states.drop_last()
            &&& after.current().clip_layer_count == view.current().clip_layer_count
                + clip_count(inner)
            &&& open_layers(after.ops) == open_layers(view.ops) + clip_count(inner)
        }),
    decreases inner.len(),
{
    if inner.len() > 0 {
        let fewer = inner.drop_last();
        assert(clips_and_draws(fewer)) by {
            assert forall|i: int| 0 <= i < fewer.len() implies is_orderly(#[trigger] fewer[i])
                && !(fewer[i] is SaveState) && !(fewer[i] is RestoreState) by {
                assert(fewer[i] == inner[i]);
            }
        }
        lemma_clips_keep_lower_states(view, fewer);
        let mid = after_calls(view, fewer);
        let call = inner.last();
        assert(is_orderly(inner[inner.len() - 1]));
        lemma_after_call(mid, call);
        let after = after_call(mid, call);
        match call {
            StackCall::CombineClip { rect, radius } => {
                let pushed = DrawOpView::PushLayer {
                    alpha: Fixed::spec_one(),
                    transform: mid.current().transform,
                    clip: mid.clip_shape(rect, radius),
                };
                lemma_counts_push(mid.ops, pushed);
                assert(after.ops == mid.ops.push(pushed));
                assert(after.states.drop_last() =~= mid.states.drop_last());
            },
            StackCall::Draw { ops, cache } => {
                lemma_counts_concat(mid.ops, ops);
            },
            _ => {
                assert(after.ops == mid.ops);
                assert(after.states.drop_last() =~= mid.states.drop_last());
            },
        }
    }
}

/// A save, any run without saves and restores (clips, translations,
/// rotations, scalings, opacities and orderly drawings in any order), and a
/// restore leave the stack of states as it was, the current state with its
/// clip, transform, opacity and count, and as many layers open as before: the
/// restore closes one layer for each clip of the run.
pub proof fn lemma_clipped_group_is_balanced(view: RendererView, inner: Seq<StackCall>)
    requires
        view.wf(),
        clips_and_draws(inner),
    ensures
        ({
            let before = after_calls(view, seq![StackCall::SaveState] + inner);
            let after = after_calls(view, clipped_group(inner));
            &&& after.wf()
            &&& after.states == view.states
            &&& after.ops == before.ops + pop_run(clip_count(inner))
            &&& open_layers(after.ops) == open_layers(view.ops)
        }),
{
    let save = seq![StackCall::SaveState];
    let restore = seq![StackCall::RestoreState];
    lemma_after_calls_concat(view, save + inner, restore);
    lemma_after_calls_concat(view, save, inner);
    assert(save.drop_last() =~= Seq::<StackCall>::empty());
    assert(restore.drop_last() =~= Seq::<StackCall>::empty());
    let saved = view.save_state();
    assert(after_calls(view, save.drop_last()) == view);
    assert(save.last() == StackCall::SaveState);
    assert(after_calls(view, save) == saved);
    lemma_after_call(view, StackCall::SaveState);
    assert(saved.states.drop_last() =~= view.states);
    lemma_clips_keep_lower_states(saved, inner);
    let clipped = after_calls(saved, inner);
    assert(after_calls(clipped, restore.drop_last()) == clipped);
    assert(restore.last() == StackCall::RestoreState);
    assert(after_calls(clipped, restore) == clipped.restore_state());
    let closed = clipped.current().clip_layer_count;
    assert(closed == clip_count(inner));
    lemma_counts_concat(clipped.ops, pop_run(closed));
    lemma_counts_pop_run(closed);
}

/// A run of calls after which every state counts what it counted before
/// leaves as many layers open as before.
pub proof fn lemma_same_counts_same_open_layers(view: RendererView, calls: Seq<StackCall>)
    requires
        view.wf(),
        all_orderly(calls),
        clips_after_calls(layer_counts(view), calls) == layer_counts(view),
    ensures
        open_layers(after_calls(view, calls).ops) == open_layers(view.ops),
{
    lemma_counts_follow_calls(view, calls);
}

proof fn lemma_single_counts(op: DrawOpView)
    ensures
        pushes(seq![op]) == if op is PushLayer {
            1nat
        } else {
            0nat
        },
        pops(seq![op]) == if op is PopLayer {
            1nat
        } else {
            0nat
        },
{
    lemma_counts_push(Seq::<DrawOpView>::empty(), op);
    assert(Seq::<DrawOpView>::empty().push(op) =~= seq![op]);
}

proof fn lemma_nothing_draws(view: RendererView)
    ensures
        draws(view, view),
{
    let ops = Seq::<DrawOpView>::empty();
    assert(view.ops + ops =~= view.ops);
    assert(view == after_call(view, StackCall::Draw { ops, cache: view.cache }));
}

proof fn lemma_cache_draws(view: RendererView, cache: Map<usize, Seq<u8>>)
    ensures
        draws(view, RendererView { cache, ..view }),
{
    let ops = Seq::<DrawOpView>::empty();
    let after = RendererView { cache, ..view };
    assert(view.ops + ops =~= view.ops);
    assert(after == after_call(view, StackCall::Draw { ops, cache: after.cache }));
}

proof fn lemma_record_draws(view: RendererView, op: DrawOpView)
    requires
        !(op is PushLayer),
        !(op is PopLayer),
        alpha_is_clamped(op),
    ensures
        draws(view, view.record(op)),
{
    let ops = seq![op];
    lemma_single_counts(op);
    assert(view.ops + ops =~= view.ops.push(op));
    let after = view.record(op);
    assert(is_balanced(ops));
    assert(after == after_call(view, StackCall::Draw { ops, cache: after.cache }));
}

proof fn lemma_draws_twice(a: RendererView, b: RendererView, c: RendererView)
    requires
        draws(a, b),
        draws(b, c),
    ensures
        draws(a, c),
{
    let first = choose|ops: Seq<DrawOpView>|
        is_balanced(ops) && alphas_are_clamped(ops) && b == #[trigger] after_call(
            a,
            StackCall::Draw { ops, cache: b.cache },
        );
    let second = choose|ops: Seq<DrawOpView>|
        is_balanced(ops) && alphas_are_clamped(ops) && c == #[trigger] after_call(
            b,
            StackCall::Draw { ops, cache: c.cache },
        );
    let ops = first + second;
    lemma_counts_concat(first, second);
    assert(alphas_are_clamped(ops)) by {
        assert forall|i: int| 0 <= i < ops.len() implies alpha_is_clamped(#[trigger] ops[i]) by {
            if i < first.len() {
                assert(ops[i] == first[i]);
            } else {
                assert(ops[i] == second[i - first.len()]);
            }
        }
    }
    assert(a.ops + ops =~= (a.ops + first) + second);
    assert(c == after_call(a, StackCall::Draw { ops, cache: c.cache }));
}

proof fn lemma_clipped_image_draws(
    view: RendererView,
    image: ImageDataView,
    clip: PhysicalRect,
    transform: Affine,
    area: PhysicalRect,
)
    ensures
        draws(view, view.draw_clipped_image(image, clip, transform, area)),
{
    let after = view.draw_clipped_image(image, clip, transform, area);
    let n = view.ops.len() as int;
    let ops = seq![after.ops[n], after.ops[n + 1], after.ops[n + 2]];
    lemma_single_counts(after.ops[n]);
    lemma_single_counts(after.ops[n + 1]);
    lemma_single_counts(after.ops[n + 2]);
    lemma_counts_concat(seq![after.ops[n]], seq![after.ops[n + 1]]);
    lemma_counts_concat(seq![after.ops[n], after.ops[n + 1]], seq![after.ops[n + 2]]);
    assert(seq![after.ops[n]] + seq![after.ops[n + 1]] =~= seq![after.ops[n], after.ops[n + 1]]);
    assert(seq![after.ops[n], after.ops[n + 1]] + seq![after.ops[n + 2]] =~= ops);
    assert(view.ops + ops =~= after.ops);
    assert(after == after_call(view, StackCall::Draw { ops, cache: after.cache }));
}

proof fn lemma_slices_draw(view: RendererView, image: ImageDataView, fits: Seq<FitResult>)
    ensures
        draws(view, view.draw_slices(image, fits)),
    decreases fits.len(),
{
    if fits.len() == 0 {
        lemma_nothing_draws(view);
    } else {
        lemma_slices_draw(view, image, fits.drop_last());
        let drawn = view.draw_slices(image, fits.drop_last());
        if !fits.last().clip_rect.spec_is_empty() {
            lemma_clipped_image_draws(
                drawn,
                image,
                fit_target(fits.last()),
                slice_transform(drawn.current().transform, fits.last()),
                pixel_rect(image.width, image.height),
            );
            lemma_draws_twice(view, drawn, drawn.draw_slice(image, fits.last()));
        }
    }
}

/// Drawing a rectangle leaves the states alone and opens no layer.
pub proof fn lemma_draw_rectangle_draws(view: RendererView, background: Brush, size: Size)
    ensures
        draws(view, view.draw_rectangle(background, size)),
{
    let after = view.draw_rectangle(background, size);
    lemma_record_draws(view, after.ops.last());
}

/// Drawing a bordered rectangle leaves the states alone and opens no layer.
pub proof fn lemma_draw_border_rectangle_draws(
    view: RendererView,
    item: RenderBorderRectangle,
    size: Size,
)
    ensures
        draws(view, view.draw_border_rectangle(item, size)),
{
    let after = view.draw_border_rectangle(item, size);
    if size.spec_is_empty() {
        lemma_nothing_draws(view);
    } else {
        let n = view.ops.len() as int;
        let filled = view.record(after.ops[n]);
        lemma_record_draws(view, after.ops[n]);
        if after.ops.len() == n + 2 {
            lemma_record_draws(filled, after.ops[n + 1]);
            lemma_draws_twice(view, filled, after);
        }
    }
}

/// Drawing a path leaves the states alone and opens no layer.
pub proof fn lemma_draw_path_draws(view: RendererView, path: Path, bounds: PhysicalRect)
    ensures
        draws(view, view.draw_path(path, bounds)),
{
    let after = view.draw_path(path, bounds);
    if path.fitted is None {
        lemma_nothing_draws(view);
    } else {
        let n = view.ops.len() as int;
        let filled = view.record(after.ops[n]);
        lemma_record_draws(view, after.ops[n]);
        if !path.stroke.spec_is_transparent() {
            lemma_record_draws(filled, after.ops[n + 1]);
            lemma_draws_twice(view, filled, after);
        }
    }
}

/// Drawing a shadow leaves the states alone and opens no layer.
pub proof fn lemma_draw_box_shadow_draws(view: RendererView, shadow: BoxShadow)
    ensures
        draws(view, view.draw_box_shadow(shadow)),
{
    let after = view.draw_box_shadow(shadow);
    if !RendererView::shadow_shows(shadow) {
        lemma_nothing_draws(view);
    } else {
        lemma_record_draws(view, after.ops.last());
    }
}

/// Drawing an image leaves the states alone and closes every layer that it
/// opens, whatever the source.
pub proof fn lemma_draw_image_draws(view: RendererView, image: RenderImage, size: Size)
    ensures
        draws(view, view.draw_image(image, size)),
{
    let after = view.draw_image(image, size);
    let transform = view.current().transform;
    if !spec_image_has_area(size, image.source_size) {
        lemma_nothing_draws(view);
    } else {
        match image.source {
            ImageSource::EmbeddedImage(buffer) => {
                let cached = view.with_cached(buffer);
                lemma_cache_draws(view, cached.cache);
                lemma_clipped_image_draws(
                    cached,
                    cache_image(view.cache, buffer),
                    fit_target(image.fit),
                    fitted_transform(transform, image.fit, image.source_clip),
                    pixel_rect(buffer.width, buffer.height),
                );
                lemma_draws_twice(view, cached, after);
            },
            ImageSource::StaticTextures { size: texture_size, data } => {
                lemma_clipped_image_draws(
                    view,
                    ImageDataView {
                        data: data@,
                        alpha_type: ImageAlphaType::AlphaPremultiplied,
                        width: texture_size.width,
                        height: texture_size.height,
                    },
                    view.physical_extent(size),
                    transform,
                    view.physical_extent(size),
                );
            },
            ImageSource::NineSlice { inner, fits } => {
                match inner {
                    Some(buffer) => {
                        let cached = view.with_cached(buffer);
                        lemma_cache_draws(view, cached.cache);
                        lemma_slices_draw(
                            cached,
                            cache_image(view.cache, buffer),
                            fits@,
                        );
                        lemma_draws_twice(view, cached, after);
                    },
                    None => {
                        lemma_nothing_draws(view);
                    },
                }
            },
            ImageSource::Svg { size: svg_size, fit, raster } => {
                match raster {
                    Some(buffer) => {
                        lemma_clipped_image_draws(
                            view,
                            decoded_image(buffer),
                            fit_target(fit),
                            transform.spec_compose(
                                Affine::spec_translation(fit.offset.x, fit.offset.y),
                            ),
                            pixel_rect(buffer.width, buffer.height),
                        );
                    },
                    None => {
                        lemma_nothing_draws(view);
                    },
                }
            },
            ImageSource::WGPUTexture { readback } => {
                match readback {
                    Some(pixels) => {
                        if view.texture_reader {
                            lemma_clipped_image_draws(
                                view,
                                raw_image(pixels),
                                view.physical_extent(size),
                                transform,
                                view.physical_extent(size),
                            );
                        } else {
                            lemma_nothing_draws(view);
                        }
                    },
                    None => {
                        lemma_nothing_draws(view);
                    },
                }
            },
            ImageSource::HTMLImage { pixels } => {
                match pixels {
                    Some(pixels) => {
                        lemma_clipped_image_draws(
                            view,
                            raw_image(pixels),
                            view.physical_extent(size),
                            transform,
                            view.physical_extent(size),
                        );
                    },
                    None => {
                        lemma_nothing_draws(view);
                    },
                }
            },
            _ => {
                lemma_nothing_draws(view);
            },
        }
    }
}

/// Drawing a cached pixmap leaves the states alone and opens no layer.
pub proof fn lemma_draw_cached_pixmap_draws(view: RendererView, pixmap: Option<RawPixels>)
    ensures
        draws(view, view.draw_cached_pixmap(pixmap)),
{
    let after = view.draw_cached_pixmap(pixmap);
    if pixmap is None {
        lemma_nothing_draws(view);
    } else {
        lemma_record_draws(view, after.ops.last());
    }
}

/// Drawing an image directly leaves the states alone and opens no layer.
pub proof fn lemma_draw_image_direct_draws(
    view: RendererView,
    source: ImageSource,
    image_size: IntSize,
)
    ensures
        draws(view, view.draw_image_direct(source, image_size)),
{
    let after = view.draw_image_direct(source, image_size);
    if image_size.width != 0 && image_size.height != 0 && source is EmbeddedImage {
        lemma_record_draws(view, after.ops.last());
    } else {
        lemma_nothing_draws(view);
    }
}

/// Drawing a run of glyphs leaves the states alone and opens no layer.
pub proof fn lemma_draw_glyph_run_draws(
    view: RendererView,
    font: Font,
    font_size: Fixed,
    brush: VelloBrush,
    y_offset: Fixed,
    glyphs: Seq<PositionedGlyph>,
)
    ensures
        draws(view, view.draw_glyph_run(font, font_size, brush, y_offset, glyphs)),
{
    let after = view.draw_glyph_run(font, font_size, brush, y_offset, glyphs);
    if glyphs.len() == 0 {
        lemma_nothing_draws(view);
    } else {
        lemma_record_draws(view, after.ops.last());
    }
}

/// Filling a rectangle for text leaves the states alone and opens no
/// layer.
pub proof fn lemma_fill_rectangle_draws(view: RendererView, physical_rect: Rect, brush: VelloBrush)
    ensures
        draws(view, view.fill_rectangle(physical_rect, brush)),
{
    let after = view.fill_rectangle(physical_rect, brush);
    lemma_record_draws(view, after.ops.last());
}

/// Under a border that hides what is beneath it, the stroke of the border
/// fills the band between the edge of the rectangle and the background, on
/// all four sides: its outline lies half the width of the border inside the
/// edge and half the width outside the background. This is stated for a
/// border whose width has an exact half and leaves room for a background:
/// twice the width does not exceed either extent of the rectangle.
pub proof fn lemma_opaque_border_fills_its_band(item: RenderBorderRectangle, size: Size)
    requires
        item.border_color.spec_is_opaque(),
        item.border_width.raw >= 0,
        item.border_width.raw % 2 == 0,
        2 * item.border_width.raw <= size.width.raw,
        2 * item.border_width.raw <= size.height.raw,
    ensures
        ({
            let width = item.border_width.raw;
            let outline = border_outline(item, size);
            let background = inset_rect(item.border_width, size);
            &&& effective_border_width(item) == item.border_width
            &&& outline.origin.x.raw - width / 2 == 0
            &&& outline.origin.y.raw - width / 2 == 0
            &&& outline.origin.x.raw + width / 2 == background.origin.x.raw
            &&& outline.origin.y.raw + width / 2 == background.origin.y.raw
            &&& outline.spec_max_x().raw + width / 2 == size.width.raw
            &&& outline.spec_max_y().raw + width / 2 == size.height.raw
            &&& outline.spec_max_x().raw - width / 2 == background.spec_max_x().raw
            &&& outline.spec_max_y().raw - width / 2 == background.spec_max_y().raw
        }),
{
}

/// Clipping by a rectangle that does not overlap the current clip leaves the
/// rectangle of no size at zero as the clip.
pub proof fn lemma_disjoint_clip_is_empty(view: RendererView, rect: Rect, radius: BorderRadius)
    requires
        view.wf(),
        !view.current().clip.overlaps(rect),
    ensures
        view.combine_clip(rect, radius).current().clip == Rect::spec_zero(),
        view.combine_clip(rect, radius).current().clip.spec_is_empty(),
{
}

/// A clip that covers no area overlaps no rectangle: clipping it by any
/// rectangle leaves a clip that covers no area.
pub proof fn lemma_empty_clip_stays_empty(view: RendererView, rect: Rect, radius: BorderRadius)
    requires
        view.wf(),
        view.current().clip.spec_is_empty(),
    ensures
        !view.current().clip.overlaps(rect),
        view.combine_clip(rect, radius).current().clip == Rect::spec_zero(),
        view.combine_clip(rect, radius).current().clip.spec_is_empty(),
{
}

/// A rotation by no angle leaves the state as it is, if the extents of the
/// clip are not negative and its far corner lies within the range of the
/// numbers.
pub proof fn lemma_rotate_by_none_is_identity(view: RendererView)
    requires
        view.wf(),
        view.current().clip.size.width.raw >= 0,
        view.current().clip.size.height.raw >= 0,
        view.current().clip.origin.x.raw + view.current().clip.size.width.raw <= MAX_RAW,
        view.current().clip.origin.y.raw + view.current().clip.size.height.raw <= MAX_RAW,
    ensures
        view.rotate(Rotation::spec_none()).current().clip == view.current().clip,
        view.rotate(Rotation::spec_none()) == view,
{
    lemma_rotated_bounds_by_none(view.current().clip);
    lemma_compose_identity(view.current().transform);
    assert(Affine::spec_rotation(Rotation::spec_none()) == Affine::spec_identity());
    assert(view.rotate(Rotation::spec_none()).states =~= view.states);
}

/// Two opacities applied one after the other multiply: the state holds the
/// product of what it held and the two. From a state that holds one, it
/// holds the product of the two.
pub proof fn lemma_nested_opacity_multiplies(view: RendererView, a: Fixed, b: Fixed)
    requires
        view.wf(),
    ensures
        view.apply_opacity(a).apply_opacity(b).current().alpha == view.current().alpha.spec_mul(
            a,
        ).spec_mul(b),
        view.current().alpha == Fixed::spec_one() ==> view.apply_opacity(a).apply_opacity(
            b,
        ).current().alpha == a.spec_mul(b),
{
    lemma_mul_one(a);
}

/// The opacity that drawing operations get lies between zero and one,
/// whatever opacities were applied.
pub proof fn lemma_draw_alpha_is_clamped(view: RendererView)
    ensures
        0 <= view.alpha().raw <= ONE_RAW,
        0 <= view.current().alpha.raw <= ONE_RAW ==> view.alpha() == view.current().alpha,
{
}

} // verus!
