use vello_renderer::brush::{Brush, Color, GradientStop};
use vello_renderer::fixed::{Fixed, ONE_RAW};
use vello_renderer::geometry::{Affine, PhysicalRect, Point, Rect, Size, Vector};
use vello_renderer::image::ImageCache;
use vello_renderer::geometry::BorderRadius;
use vello_renderer::itemrenderer::{VelloBrush, VelloItemRenderer};
use vello_renderer::items::{
    BoxShadow, FillRule, FittedPath, LineCap, Path, PathEvent, PositionedGlyph,
    RenderBorderRectangle,
};
use vello_renderer::scene::{
    Cap, ColorStop, DrawOp, Fill, Font, Glyph, Join, Paint, PathEl, Rgba8, Scene, Shape, Stroke,
};

fn fx(n: i32) -> Fixed {
    Fixed::from_int(n)
}

fn half() -> Fixed {
    Fixed::from_raw(ONE_RAW / 2)
}

fn renderer(scale: i32) -> VelloItemRenderer {
    VelloItemRenderer::new(Scene::new(), fx(scale), Size::new(fx(1000), fx(1000)), ImageCache::new())
}

fn p(x: i32, y: i32) -> Point {
    Point::new(fx(x), fx(y))
}

fn red() -> Brush {
    Brush::SolidColor(Color::from_rgb_u8(255, 0, 0))
}

fn black() -> Rgba8 {
    Rgba8 { r: 0, g: 0, b: 0, a: 255 }
}

#[test]
fn red_rectangle_is_one_opaque_fill_of_its_physical_area() {
    let mut r = renderer(1);
    r.draw_rectangle(&red(), Size::new(fx(100), fx(100)));
    assert_eq!(r.scene().len(), 1);
    assert_eq!(
        r.scene().ops()[0],
        DrawOp::Fill {
            rule: Fill::NonZero,
            transform: Affine::identity(),
            paint: Paint::Solid(Rgba8 { r: 255, g: 0, b: 0, a: 255 }),
            shape: Shape::Rect(PhysicalRect::new(fx(0), fx(0), fx(100), fx(100))),
        }
    );
}

#[test]
fn rectangle_is_scaled_to_physical_pixels() {
    let mut r = renderer(2);
    r.translate(Vector::new(fx(5), fx(5)));
    r.draw_rectangle(&red(), Size::new(fx(100), fx(30)));
    assert_eq!(
        r.scene().ops()[0],
        DrawOp::Fill {
            rule: Fill::NonZero,
            transform: Affine::translation(fx(10), fx(10)),
            paint: Paint::Solid(Rgba8 { r: 255, g: 0, b: 0, a: 255 }),
            shape: Shape::Rect(PhysicalRect::new(fx(0), fx(0), fx(200), fx(60))),
        }
    );
}

#[test]
fn half_opacity_halves_the_alpha_of_a_white_rectangle() {
    let mut r = renderer(1);
    r.apply_opacity(half());
    assert_eq!(r.current_alpha(), half());
    r.draw_rectangle(&Brush::SolidColor(Color::from_rgb_u8(255, 255, 255)), Size::new(fx(10), fx(10)));
    match &r.scene().ops()[0] {
        DrawOp::Fill { paint, .. } => {
            assert_eq!(*paint, Paint::Solid(Rgba8 { r: 255, g: 255, b: 255, a: 127 }));
        }
        _ => panic!("a fill expected"),
    }
}

#[test]
fn gradient_rectangle_is_painted_against_its_own_bounds() {
    let mut r = renderer(1);
    let stops = vec![GradientStop { color: Color::from_rgb_u8(1, 2, 3), position: fx(0) }];
    r.draw_rectangle(&Brush::LinearGradient { angle: fx(90), stops }, Size::new(fx(40), fx(20)));
    let bounds = PhysicalRect::new(fx(0), fx(0), fx(40), fx(20));
    assert_eq!(
        r.scene().ops()[0],
        DrawOp::Fill {
            rule: Fill::NonZero,
            transform: Affine::identity(),
            paint: Paint::LinearGradient {
                angle: fx(90),
                bounds,
                stops: vec![ColorStop { offset: fx(0), color: Rgba8 { r: 1, g: 2, b: 3, a: 255 } }],
            },
            shape: Shape::Rect(bounds),
        }
    );
}

#[test]
fn window_background_is_drawn_like_a_rectangle() {
    let mut a = renderer(1);
    let mut b = renderer(1);
    a.draw_window_background(&red(), Size::new(fx(7), fx(9)));
    b.draw_rectangle(&red(), Size::new(fx(7), fx(9)));
    assert_eq!(a.scene().ops(), b.scene().ops());
}

fn bordered(border_color: Color, border_width: i32, radius: i32) -> RenderBorderRectangle {
    RenderBorderRectangle {
        background: red(),
        border_width: fx(border_width),
        border_radius: BorderRadius::uniform(fx(radius)),
        border_color: Brush::SolidColor(border_color),
    }
}

#[test]
fn opaque_border_draws_the_background_inset_by_its_width() {
    let mut r = renderer(1);
    r.draw_border_rectangle(&bordered(Color::from_rgb_u8(0, 0, 0), 10, 4), Size::new(fx(80), fx(80)));
    // the background covers the 60 by 60 inner area
    let inner = Shape::RoundedRect(PhysicalRect::new(fx(10), fx(10), fx(70), fx(70)), fx(4));
    assert_eq!(r.scene().len(), 2);
    assert_eq!(
        r.scene().ops()[0],
        DrawOp::Fill {
            rule: Fill::NonZero,
            transform: Affine::identity(),
            paint: Paint::Solid(Rgba8 { r: 255, g: 0, b: 0, a: 255 }),
            shape: inner,
        }
    );
    // the border is a ring of width 10 around it: its outline lies 5 inside
    // the edge, so the stroke reaches from the edge to the inner area
    assert_eq!(
        r.scene().ops()[1],
        DrawOp::Stroke {
            style: Stroke { width: fx(10), cap: Cap::Butt, join: Join::Miter, miter_limit: fx(4) },
            transform: Affine::identity(),
            paint: Paint::Solid(black()),
            shape: Shape::RoundedRect(PhysicalRect::new(fx(5), fx(5), fx(75), fx(75)), fx(4)),
        }
    );
}

#[test]
fn opaque_border_ring_is_scaled_with_the_rectangle() {
    let mut r = renderer(2);
    r.draw_border_rectangle(&bordered(Color::from_rgb_u8(0, 0, 0), 6, 0), Size::new(fx(40), fx(20)));
    match (&r.scene().ops()[0], &r.scene().ops()[1]) {
        (DrawOp::Fill { shape: background, .. }, DrawOp::Stroke { style, shape: ring, .. }) => {
            assert_eq!(
                *background,
                Shape::RoundedRect(PhysicalRect::new(fx(12), fx(12), fx(68), fx(28)), fx(0))
            );
            assert_eq!(style.width, fx(12));
            assert_eq!(*ring, Shape::RoundedRect(PhysicalRect::new(fx(6), fx(6), fx(74), fx(34)), fx(0)));
        }
        _ => panic!("a fill and a stroke expected"),
    }
}

#[test]
fn opacity_weakens_every_stop_of_a_gradient() {
    let stops = vec![
        GradientStop { color: Color::from_rgb_u8(1, 2, 3), position: fx(0) },
        GradientStop { color: Color::from_argb_u8(100, 4, 5, 6), position: fx(1) },
    ];
    let weakened = vec![
        ColorStop { offset: fx(0), color: Rgba8 { r: 1, g: 2, b: 3, a: 127 } },
        ColorStop { offset: fx(1), color: Rgba8 { r: 4, g: 5, b: 6, a: 50 } },
    ];
    let bounds = PhysicalRect::new(fx(0), fx(0), fx(6), fx(8));
    // a rectangle with a linear gradient
    let mut r = renderer(1);
    r.apply_opacity(half());
    r.draw_rectangle(&Brush::LinearGradient { angle: fx(90), stops: stops.clone() }, Size::new(fx(6), fx(8)));
    match &r.scene().ops()[0] {
        DrawOp::Fill { paint, .. } => {
            assert_eq!(
                *paint,
                Paint::LinearGradient { angle: fx(90), bounds, stops: weakened.clone() }
            );
        }
        _ => panic!("a fill expected"),
    }
    // a bordered rectangle with a radial background and a linear border
    let mut r = renderer(1);
    r.apply_opacity(half());
    let item = RenderBorderRectangle {
        background: Brush::RadialGradient { stops: stops.clone() },
        border_width: fx(2),
        border_radius: BorderRadius::uniform(fx(0)),
        border_color: Brush::LinearGradient { angle: fx(0), stops: stops.clone() },
    };
    r.draw_border_rectangle(&item, Size::new(fx(6), fx(8)));
    match (&r.scene().ops()[0], &r.scene().ops()[1]) {
        (DrawOp::Fill { paint: background, .. }, DrawOp::Stroke { paint: border, .. }) => {
            assert_eq!(
                *background,
                Paint::RadialGradient { center: p(3, 4), radius: fx(5), stops: weakened.clone() }
            );
            assert!(matches!(border, Paint::LinearGradient { stops, .. } if *stops == weakened));
        }
        _ => panic!("a fill and a stroke expected"),
    }
    // a path with a gradient fill and a gradient stroke
    let mut r = renderer(1);
    r.apply_opacity(half());
    let mut path = triangle(Brush::RadialGradient { stops: stops.clone() });
    path.fill = Brush::LinearGradient { angle: fx(0), stops };
    r.draw_path(&path, bounds);
    match (&r.scene().ops()[0], &r.scene().ops()[1]) {
        (DrawOp::Fill { paint: fill, .. }, DrawOp::Stroke { paint: stroke, .. }) => {
            assert_eq!(*fill, Paint::LinearGradient { angle: fx(0), bounds, stops: weakened.clone() });
            assert_eq!(
                *stroke,
                Paint::RadialGradient { center: p(3, 4), radius: fx(5), stops: weakened }
            );
        }
        _ => panic!("a fill and a stroke expected"),
    }
}

#[test]
fn translucent_border_draws_the_background_at_full_size() {
    let mut r = renderer(1);
    r.draw_border_rectangle(
        &bordered(Color::from_argb_u8(128, 0, 0, 0), 10, 4),
        Size::new(fx(80), fx(80)),
    );
    assert_eq!(r.scene().len(), 2);
    // the outer radius is the radius of the corners and half the border
    assert_eq!(
        r.scene().ops()[0],
        DrawOp::Fill {
            rule: Fill::NonZero,
            transform: Affine::identity(),
            paint: Paint::Solid(Rgba8 { r: 255, g: 0, b: 0, a: 255 }),
            shape: Shape::RoundedRect(PhysicalRect::new(fx(0), fx(0), fx(80), fx(80)), fx(9)),
        }
    );
    assert_eq!(
        r.scene().ops()[1],
        DrawOp::Stroke {
            style: Stroke { width: fx(10), cap: Cap::Butt, join: Join::Miter, miter_limit: fx(4) },
            transform: Affine::identity(),
            paint: Paint::Solid(Rgba8 { r: 0, g: 0, b: 0, a: 128 }),
            shape: Shape::RoundedRect(PhysicalRect::new(fx(10), fx(10), fx(70), fx(70)), fx(4)),
        }
    );
}

#[test]
fn transparent_border_counts_as_no_border() {
    let mut r = renderer(1);
    r.draw_border_rectangle(
        &bordered(Color::from_argb_u8(0, 9, 9, 9), 10, 4),
        Size::new(fx(80), fx(80)),
    );
    assert_eq!(r.scene().len(), 1);
    assert_eq!(
        r.scene().ops()[0],
        DrawOp::Fill {
            rule: Fill::NonZero,
            transform: Affine::identity(),
            paint: Paint::Solid(Rgba8 { r: 255, g: 0, b: 0, a: 255 }),
            shape: Shape::RoundedRect(PhysicalRect::new(fx(0), fx(0), fx(80), fx(80)), fx(4)),
        }
    );
}

#[test]
fn border_of_no_width_is_not_stroked() {
    let mut r = renderer(1);
    r.draw_border_rectangle(&bordered(Color::from_rgb_u8(0, 0, 0), 0, 4), Size::new(fx(80), fx(80)));
    assert_eq!(r.scene().len(), 1);
}

#[test]
fn corner_radius_is_clamped_to_half_the_smaller_extent() {
    let mut r = renderer(1);
    r.draw_border_rectangle(
        &bordered(Color::from_argb_u8(0, 0, 0, 0), 0, 500),
        Size::new(fx(80), fx(20)),
    );
    match &r.scene().ops()[0] {
        DrawOp::Fill { shape, .. } => {
            assert_eq!(*shape, Shape::RoundedRect(PhysicalRect::new(fx(0), fx(0), fx(80), fx(20)), fx(10)));
        }
        _ => panic!("a fill expected"),
    }
}

#[test]
fn bordered_rectangle_without_area_is_skipped() {
    let mut r = renderer(1);
    let item = bordered(Color::from_rgb_u8(0, 0, 0), 10, 4);
    r.draw_border_rectangle(&item, Size::new(fx(0), fx(80)));
    r.draw_border_rectangle(&item, Size::new(fx(80), fx(-1)));
    assert_eq!(r.scene().len(), 0);
}

fn triangle(stroke: Brush) -> Path {
    Path {
        fitted: Some(FittedPath {
            offset: Vector::new(fx(1), fx(2)),
            events: vec![
                PathEvent::Begin { at: p(0, 0) },
                PathEvent::Line { from: p(0, 0), to: p(10, 0) },
                PathEvent::Quadratic { from: p(10, 0), ctrl: p(10, 10), to: p(5, 10) },
                PathEvent::Cubic { from: p(5, 10), ctrl1: p(4, 9), ctrl2: p(3, 8), to: p(0, 10) },
                PathEvent::End { last: p(0, 10), first: p(0, 0), close: true },
                PathEvent::Begin { at: p(20, 20) },
                PathEvent::Line { from: p(20, 20), to: p(30, 30) },
                PathEvent::End { last: p(30, 30), first: p(20, 20), close: false },
            ],
        }),
        fill: red(),
        fill_rule: FillRule::Evenodd,
        stroke,
        stroke_width: fx(3),
        stroke_line_cap: LineCap::Round,
    }
}

fn triangle_elements() -> Vec<PathEl> {
    // moved by (1, 2), then doubled
    vec![
        PathEl::MoveTo(p(2, 4)),
        PathEl::LineTo(p(22, 4)),
        PathEl::QuadTo(p(22, 24), p(12, 24)),
        PathEl::CurveTo(p(10, 22), p(8, 20), p(2, 24)),
        PathEl::ClosePath,
        PathEl::MoveTo(p(42, 44)),
        PathEl::LineTo(p(62, 64)),
    ]
}

#[test]
fn path_events_become_elements_in_physical_pixels() {
    let r = renderer(2);
    let path = triangle(red());
    assert_eq!(r.path_elements(path.fitted.as_ref().unwrap()), triangle_elements());
    let empty = FittedPath { offset: Vector::new(fx(0), fx(0)), events: Vec::new() };
    assert_eq!(r.path_elements(&empty), Vec::new());
}

#[test]
fn path_is_filled_and_stroked() {
    let mut r = renderer(2);
    let bounds = PhysicalRect::new(fx(2), fx(4), fx(62), fx(64));
    r.draw_path(&triangle(Brush::SolidColor(Color::from_rgb_u8(0, 0, 0))), bounds);
    assert_eq!(r.scene().len(), 2);
    assert_eq!(
        r.scene().ops()[0],
        DrawOp::Fill {
            rule: Fill::EvenOdd,
            transform: Affine::identity(),
            paint: Paint::Solid(Rgba8 { r: 255, g: 0, b: 0, a: 255 }),
            shape: Shape::Path(triangle_elements()),
        }
    );
    assert_eq!(
        r.scene().ops()[1],
        DrawOp::Stroke {
            style: Stroke { width: fx(6), cap: Cap::Round, join: Join::Miter, miter_limit: fx(4) },
            transform: Affine::identity(),
            paint: Paint::Solid(black()),
            shape: Shape::Path(triangle_elements()),
        }
    );
}

#[test]
fn fill_rules_and_caps_map_one_to_one() {
    let caps = [(LineCap::Butt, Cap::Butt), (LineCap::Round, Cap::Round), (LineCap::Square, Cap::Square)];
    for (line_cap, cap) in caps {
        let mut r = renderer(1);
        let mut path = triangle(red());
        path.stroke_line_cap = line_cap;
        path.fill_rule = FillRule::Nonzero;
        r.draw_path(&path, PhysicalRect::new(fx(0), fx(0), fx(1), fx(1)));
        match (&r.scene().ops()[0], &r.scene().ops()[1]) {
            (DrawOp::Fill { rule, .. }, DrawOp::Stroke { style, .. }) => {
                assert_eq!(*rule, Fill::NonZero);
                assert_eq!(style.cap, cap);
                assert_eq!(style.join, Join::Miter);
                assert_eq!(style.miter_limit, fx(4));
            }
            _ => panic!("a fill and a stroke expected"),
        }
    }
}

#[test]
fn transparent_solid_stroke_is_skipped() {
    let mut r = renderer(1);
    r.draw_path(
        &triangle(Brush::SolidColor(Color::from_argb_u8(0, 1, 2, 3))),
        PhysicalRect::new(fx(0), fx(0), fx(1), fx(1)),
    );
    assert_eq!(r.scene().len(), 1);
    assert!(matches!(r.scene().ops()[0], DrawOp::Fill { .. }));
}

#[test]
fn gradient_stroke_is_drawn_against_the_bounds_of_the_path() {
    let mut r = renderer(1);
    let bounds = PhysicalRect::new(fx(1), fx(2), fx(31), fx(32));
    r.draw_path(&triangle(Brush::RadialGradient { stops: Vec::new() }), bounds);
    match &r.scene().ops()[1] {
        DrawOp::Stroke { paint, .. } => {
            assert_eq!(
                *paint,
                Paint::RadialGradient {
                    center: p(16, 17),
                    radius: fx(30).hypot(fx(30)).half(),
                    stops: Vec::new(),
                }
            );
        }
        _ => panic!("a stroke expected"),
    }
}

#[test]
fn path_without_outline_draws_nothing() {
    let mut r = renderer(1);
    let mut path = triangle(red());
    path.fitted = None;
    r.draw_path(&path, PhysicalRect::new(fx(0), fx(0), fx(1), fx(1)));
    assert_eq!(r.scene().len(), 0);
}

fn shadow(alpha: u8, blur: i32, ox: i32, oy: i32) -> BoxShadow {
    BoxShadow {
        color: Color::from_argb_u8(alpha, 0, 0, 0),
        blur: fx(blur),
        offset_x: fx(ox),
        offset_y: fx(oy),
        border_radius: fx(3),
        width: fx(50),
        height: fx(40),
    }
}

#[test]
fn blurred_shadow_uses_half_the_blur_as_deviation() {
    let mut r = renderer(2);
    r.draw_box_shadow(&shadow(255, 8, 1, 2));
    assert_eq!(r.scene().len(), 1);
    assert_eq!(
        r.scene().ops()[0],
        DrawOp::BlurredRoundedRect {
            transform: Affine::identity(),
            rect: PhysicalRect::new(fx(2), fx(4), fx(102), fx(84)),
            color: black(),
            radius: fx(6),
            std_dev: fx(8),
        }
    );
}

#[test]
fn shadow_without_blur_is_a_plain_rounded_rectangle() {
    let mut r = renderer(1);
    r.apply_opacity(half());
    r.draw_box_shadow(&shadow(200, 0, 5, 0));
    assert_eq!(
        r.scene().ops()[0],
        DrawOp::Fill {
            rule: Fill::NonZero,
            transform: Affine::identity(),
            paint: Paint::Solid(Rgba8 { r: 0, g: 0, b: 0, a: 100 }),
            shape: Shape::RoundedRect(PhysicalRect::new(fx(5), fx(0), fx(55), fx(40)), fx(3)),
        }
    );
}

#[test]
fn invisible_shadows_are_skipped() {
    let mut r = renderer(1);
    // a color that shows nothing
    r.draw_box_shadow(&shadow(0, 8, 1, 2));
    // neither blur nor offset
    r.draw_box_shadow(&shadow(255, 0, 0, 0));
    assert_eq!(r.scene().len(), 0);
    // an offset alone is enough
    r.draw_box_shadow(&shadow(255, 0, 0, 1));
    assert_eq!(r.scene().len(), 1);
}

#[test]
fn text_brushes() {
    let mut r = renderer(1);
    let size = Size::new(fx(10), fx(10));
    assert_eq!(r.platform_text_fill_brush(&red(), size), Some(VelloBrush::Fill(Rgba8 { r: 255, g: 0, b: 0, a: 255 })));
    assert_eq!(r.platform_text_fill_brush(&Brush::RadialGradient { stops: Vec::new() }, size), None);
    assert_eq!(
        r.platform_text_stroke_brush(&red(), fx(2), size),
        Some(VelloBrush::Stroke(Rgba8 { r: 255, g: 0, b: 0, a: 255 }, fx(2)))
    );
    assert_eq!(r.platform_text_stroke_brush(&Brush::Other { opaque: false }, fx(2), size), None);
    assert_eq!(r.platform_brush_for_color(&Color::from_argb_u8(0, 1, 2, 3)), None);
    assert_eq!(
        r.platform_brush_for_color(&Color::from_argb_u8(1, 1, 2, 3)),
        Some(VelloBrush::Fill(Rgba8 { r: 1, g: 2, b: 3, a: 1 }))
    );
    assert_eq!(r.scene().len(), 0);
}

fn run() -> Vec<PositionedGlyph> {
    vec![
        PositionedGlyph { id: 7, x: fx(0), y: fx(1) },
        PositionedGlyph { id: 8, x: fx(10), y: fx(-1) },
    ]
}

#[test]
fn glyph_run_is_moved_by_its_offset() {
    let mut r = renderer(2);
    r.apply_opacity(half());
    let font = Font { data_id: 11, index: 0 };
    r.draw_glyph_run(font, fx(12), VelloBrush::Fill(black()), fx(20), &run());
    assert_eq!(
        r.scene().ops()[0],
        DrawOp::Glyphs {
            font,
            font_size: fx(12),
            transform: Affine::identity(),
            color: Rgba8 { r: 0, g: 0, b: 0, a: 127 },
            glyphs: vec![Glyph { id: 7, x: fx(0), y: fx(21) }, Glyph { id: 8, x: fx(10), y: fx(19) }],
        }
    );
}

#[test]
fn stroked_glyphs_are_drawn_larger_by_the_stroke() {
    let mut r = renderer(2);
    let font = Font { data_id: 11, index: 1 };
    r.draw_glyph_run(font, fx(12), VelloBrush::Stroke(black(), fx(3)), fx(0), &run());
    match &r.scene().ops()[0] {
        DrawOp::Glyphs { font_size, .. } => assert_eq!(*font_size, fx(18)),
        _ => panic!("glyphs expected"),
    }
}

#[test]
fn empty_glyph_run_is_skipped() {
    let mut r = renderer(1);
    r.draw_glyph_run(Font { data_id: 1, index: 0 }, fx(12), VelloBrush::Fill(black()), fx(0), &[]);
    assert_eq!(r.scene().len(), 0);
}

#[test]
fn text_rectangle_is_filled_as_it_is() {
    let mut r = renderer(2);
    r.apply_opacity(half());
    let area = Rect::new(p(1, 2), Size::new(fx(3), fx(4)));
    r.fill_rectangle(area, VelloBrush::Stroke(Rgba8 { r: 1, g: 2, b: 3, a: 200 }, fx(9)));
    assert_eq!(
        r.scene().ops()[0],
        DrawOp::Fill {
            rule: Fill::NonZero,
            transform: Affine::identity(),
            paint: Paint::Solid(Rgba8 { r: 1, g: 2, b: 3, a: 200 }),
            shape: Shape::Rect(PhysicalRect::new(fx(1), fx(2), fx(4), fx(6))),
        }
    );
}

#[test]
fn later_operations_come_later_in_the_scene() {
    let mut r = renderer(1);
    r.draw_rectangle(&red(), Size::new(fx(1), fx(1)));
    r.draw_box_shadow(&shadow(255, 8, 0, 0));
    r.draw_rectangle(&red(), Size::new(fx(2), fx(2)));
    let ops = r.scene().ops();
    assert!(matches!(ops[0], DrawOp::Fill { .. }));
    assert!(matches!(ops[1], DrawOp::BlurredRoundedRect { .. }));
    assert!(matches!(ops[2], DrawOp::Fill { .. }));
    assert_eq!(r.scene().op(2), &ops[2]);
}
