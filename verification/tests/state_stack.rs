use vello_renderer::brush::{Brush, Color};
use vello_renderer::fixed::{Fixed, ONE_RAW};
use vello_renderer::geometry::{Affine, PhysicalRect, Point, Rect, Rotation, Size, Vector};
use vello_renderer::image::ImageCache;
use vello_renderer::geometry::BorderRadius;
use vello_renderer::itemrenderer::VelloItemRenderer;
use vello_renderer::scene::{DrawOp, Paint, Rgba8, Scene, Shape};

fn fx(n: i32) -> Fixed {
    Fixed::from_int(n)
}

fn rect(x: i32, y: i32, w: i32, h: i32) -> Rect {
    Rect::new(Point::new(fx(x), fx(y)), Size::new(fx(w), fx(h)))
}

fn renderer(width: i32, height: i32) -> VelloItemRenderer {
    VelloItemRenderer::new(Scene::new(), fx(1), Size::new(fx(width), fx(height)), ImageCache::new())
}

fn no_radius() -> BorderRadius {
    BorderRadius::uniform(fx(0))
}

fn count_pushes(r: &VelloItemRenderer) -> usize {
    r.scene().ops().iter().filter(|op| matches!(op, DrawOp::PushLayer { .. })).count()
}

fn count_pops(r: &VelloItemRenderer) -> usize {
    r.scene().ops().iter().filter(|op| matches!(op, DrawOp::PopLayer)).count()
}

#[test]
fn frame_starts_with_one_state() {
    let r = renderer(100, 50);
    assert_eq!(r.depth(), 1);
    assert_eq!(r.get_current_clip(), rect(0, 0, 100, 50));
    assert_eq!(r.current_transform(), Affine::identity());
    assert_eq!(r.current_alpha(), fx(1));
    assert_eq!(r.scale_factor(), fx(1));
    assert_eq!(r.scene().len(), 0);
}

#[test]
fn frame_can_start_under_a_transform() {
    let t = Affine::translation(fx(3), fx(4));
    let r = VelloItemRenderer::new_with_transform(
        Scene::new(),
        fx(2),
        Size::new(fx(10), fx(10)),
        ImageCache::new(),
        t,
    );
    assert_eq!(r.current_transform(), t);
    assert_eq!(r.scale_factor(), fx(2));
}

#[test]
fn restore_pops_the_layers_of_its_own_state() {
    let mut r = renderer(100, 100);
    r.save_state();
    assert!(r.combine_clip(rect(0, 0, 50, 50), no_radius(), fx(0)));
    assert!(r.combine_clip(rect(10, 10, 20, 20), no_radius(), fx(0)));
    assert_eq!(count_pushes(&r), 2);
    assert_eq!(count_pops(&r), 0);
    r.restore_state();
    assert_eq!(count_pushes(&r), 2);
    assert_eq!(count_pops(&r), 2);
    assert_eq!(r.depth(), 1);
    assert_eq!(r.get_current_clip(), rect(0, 0, 100, 100));
}

#[test]
fn nested_states_pop_their_own_layers_only() {
    let mut r = renderer(100, 100);
    r.save_state();
    r.combine_clip(rect(0, 0, 90, 90), no_radius(), fx(0));
    r.save_state();
    r.combine_clip(rect(0, 0, 80, 80), no_radius(), fx(0));
    r.combine_clip(rect(0, 0, 70, 70), no_radius(), fx(0));
    r.combine_clip(rect(0, 0, 60, 60), no_radius(), fx(0));
    r.restore_state();
    // the inner state opened three layers
    assert_eq!(count_pops(&r), 3);
    assert_eq!(r.get_current_clip(), rect(0, 0, 90, 90));
    r.restore_state();
    // the outer state opened one
    assert_eq!(count_pops(&r), 4);
    assert_eq!(count_pushes(&r), 4);
    assert_eq!(r.depth(), 1);
}

#[test]
fn save_clip_draw_restore_leaves_no_layer_open() {
    let mut r = renderer(100, 100);
    r.draw_rectangle(&Brush::SolidColor(Color::from_rgb_u8(1, 2, 3)), Size::new(fx(5), fx(5)));
    for depth in 1..4 {
        r.save_state();
        for _ in 0..depth {
            r.combine_clip(rect(0, 0, 50, 50), BorderRadius::uniform(fx(3)), fx(0));
            r.draw_rectangle(&Brush::SolidColor(Color::from_rgb_u8(1, 2, 3)), Size::new(fx(5), fx(5)));
        }
    }
    assert_eq!(r.depth(), 4);
    assert_eq!(count_pushes(&r), 6);
    assert_eq!(count_pops(&r), 0);
    r.restore_state();
    assert_eq!(count_pops(&r), 3);
    r.restore_state();
    assert_eq!(count_pops(&r), 5);
    r.restore_state();
    assert_eq!(count_pops(&r), 6);
    assert_eq!(r.depth(), 1);
    // the pops come last, after everything that was drawn under the clips
    let ops = r.scene().ops();
    assert!(matches!(ops[ops.len() - 1], DrawOp::PopLayer));
    assert!(matches!(ops[0], DrawOp::Fill { .. }));
}

#[test]
fn save_without_clip_pops_nothing() {
    let mut r = renderer(100, 100);
    r.combine_clip(rect(0, 0, 50, 50), no_radius(), fx(0));
    r.save_state();
    r.restore_state();
    assert_eq!(count_pops(&r), 0);
    assert_eq!(r.scene().len(), 1);
}

#[test]
fn bottom_state_is_never_popped() {
    let mut r = renderer(100, 100);
    r.combine_clip(rect(0, 0, 50, 50), no_radius(), fx(0));
    r.restore_state();
    r.restore_state();
    assert_eq!(r.depth(), 1);
    assert_eq!(count_pops(&r), 0);
    assert_eq!(r.get_current_clip(), rect(0, 0, 50, 50));
}

#[test]
fn restore_brings_back_transform_and_opacity() {
    let mut r = renderer(100, 100);
    r.save_state();
    r.translate(Vector::new(fx(10), fx(20)));
    r.apply_opacity(Fixed::from_raw(ONE_RAW / 2));
    assert_ne!(r.current_transform(), Affine::identity());
    r.restore_state();
    assert_eq!(r.current_transform(), Affine::identity());
    assert_eq!(r.current_alpha(), fx(1));
    assert_eq!(r.get_current_clip(), rect(0, 0, 100, 100));
}

#[test]
fn clip_layer_is_a_plain_rectangle_without_radius() {
    let mut r = renderer(100, 100);
    r.combine_clip(rect(10, 20, 30, 40), no_radius(), fx(0));
    assert_eq!(
        r.scene().ops()[0],
        DrawOp::PushLayer {
            alpha: fx(1),
            transform: Affine::identity(),
            clip: Shape::Rect(PhysicalRect::new(fx(10), fx(20), fx(40), fx(60))),
        }
    );
    assert_eq!(r.get_current_clip(), rect(10, 20, 30, 40));
}

#[test]
fn clip_layer_is_rounded_with_a_clamped_radius() {
    let mut r = VelloItemRenderer::new(Scene::new(), fx(2), Size::new(fx(100), fx(100)), ImageCache::new());
    // the radius is clamped to half the smaller extent, 10, and doubled by the scale factor
    r.combine_clip(rect(0, 0, 20, 40), BorderRadius::uniform(fx(50)), fx(0));
    assert_eq!(
        r.scene().ops()[0],
        DrawOp::PushLayer {
            alpha: fx(1),
            transform: Affine::identity(),
            clip: Shape::RoundedRect(PhysicalRect::new(fx(0), fx(0), fx(40), fx(80)), fx(20)),
        }
    );
}

#[test]
fn disjoint_clip_is_empty_and_reported() {
    let mut r = renderer(100, 100);
    let valid = r.combine_clip(rect(200, 200, 10, 10), no_radius(), fx(0));
    assert!(!valid);
    assert_eq!(r.get_current_clip(), rect(0, 0, 0, 0));
    assert!(r.get_current_clip().is_empty());
    // the layer is opened all the same
    assert_eq!(count_pushes(&r), 1);
}

#[test]
fn empty_clip_stays_empty() {
    let mut r = renderer(100, 100);
    assert!(!r.combine_clip(rect(200, 200, 10, 10), no_radius(), fx(0)));
    assert!(!r.combine_clip(rect(0, 0, 100, 100), no_radius(), fx(0)));
    assert!(r.get_current_clip().is_empty());
    assert!(!r.combine_clip(rect(-50, -50, 100, 100), no_radius(), fx(0)));
    assert!(r.get_current_clip().is_empty());
    assert_eq!(count_pushes(&r), 3);
}

#[test]
fn translate_moves_the_clip_the_other_way() {
    let mut r = VelloItemRenderer::new(Scene::new(), fx(2), Size::new(fx(100), fx(100)), ImageCache::new());
    r.translate(Vector::new(fx(10), fx(20)));
    assert_eq!(r.get_current_clip(), rect(-10, -20, 100, 100));
    // the transform is in physical pixels
    assert_eq!(r.current_transform(), Affine::translation(fx(20), fx(40)));
}

#[test]
fn rotate_by_no_angle_keeps_the_clip() {
    let mut r = renderer(100, 50);
    r.translate(Vector::new(fx(-7), fx(3)));
    let clip = r.get_current_clip();
    let transform = r.current_transform();
    r.rotate(Rotation::none());
    assert_eq!(r.get_current_clip(), clip);
    assert_eq!(r.current_transform(), transform);
}

#[test]
fn rotate_turns_the_clip_into_its_bounds() {
    let mut r = renderer(10, 20);
    r.rotate(Rotation { sin: fx(1), cos: fx(0) });
    assert_eq!(r.get_current_clip(), rect(-20, 0, 20, 10));
    assert_eq!(
        r.current_transform(),
        Affine { a: fx(0), b: fx(1), c: fx(-1), d: fx(0), e: fx(0), f: fx(0) }
    );
}

#[test]
fn scale_divides_the_extents_of_the_clip() {
    let mut r = renderer(100, 60);
    r.scale(fx(2), fx(3));
    assert_eq!(r.get_current_clip(), rect(0, 0, 50, 20));
    assert_eq!(r.current_transform(), Affine::scaling(fx(2), fx(3)));
}

#[test]
fn nested_opacities_multiply() {
    let mut r = renderer(10, 10);
    r.apply_opacity(Fixed::from_raw(ONE_RAW / 2));
    r.apply_opacity(Fixed::from_raw(ONE_RAW / 2));
    assert_eq!(r.current_alpha(), Fixed::from_raw(ONE_RAW / 4));
    r.apply_opacity(Fixed::from_raw(ONE_RAW / 5));
    assert_eq!(r.current_alpha().raw, (ONE_RAW / 4) * (ONE_RAW / 5) / ONE_RAW);
}

#[test]
fn opacity_is_clamped_before_it_reaches_a_draw() {
    let mut r = renderer(10, 10);
    r.apply_opacity(fx(3));
    assert_eq!(r.current_alpha(), fx(1));
    r.draw_rectangle(&Brush::SolidColor(Color::from_argb_u8(200, 1, 2, 3)), Size::new(fx(1), fx(1)));
    let mut below = renderer(10, 10);
    below.apply_opacity(fx(-1));
    assert_eq!(below.current_alpha(), fx(0));
    below.draw_rectangle(&Brush::SolidColor(Color::from_argb_u8(200, 1, 2, 3)), Size::new(fx(1), fx(1)));
    match (&r.scene().ops()[0], &below.scene().ops()[0]) {
        (DrawOp::Fill { paint: above_paint, .. }, DrawOp::Fill { paint: below_paint, .. }) => {
            assert_eq!(*above_paint, Paint::Solid(Rgba8 { r: 1, g: 2, b: 3, a: 200 }));
            assert_eq!(*below_paint, Paint::Solid(Rgba8 { r: 1, g: 2, b: 3, a: 0 }));
        }
        _ => panic!("two fills expected"),
    }
}

#[test]
fn finish_hands_back_scene_and_cache() {
    let mut r = renderer(10, 10);
    r.draw_rectangle(&Brush::SolidColor(Color::from_rgb_u8(1, 2, 3)), Size::new(fx(1), fx(1)));
    let (scene, cache) = r.finish();
    assert_eq!(scene.len(), 1);
    assert_eq!(cache.len(), 0);
}
