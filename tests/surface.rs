use egui_plotter::backend::SUBPIXELS;
use egui_plotter::style::{
    Align, Align2, BackendColor, BackendStyle, ChartFontFamily, EguiBackendColor, FontTransform,
    HPos, PainterFontFamily, Stroke, VPos,
};
use egui_plotter::style::Align::{Center as C, Max, Min};
use egui_plotter::triangulate::triangulate;
use egui_plotter::{EguiBackend, EguiBackendError, Fixed, Region, ScreenPos, Shape, TextStyle};

fn region() -> Region {
    Region {
        min_x: Fixed::from_int(10),
        min_y: Fixed::from_int(20),
        width: Fixed::from_int(200),
        height: Fixed::from_int(100),
    }
}

fn px(x: i128, y: i128) -> ScreenPos {
    ScreenPos { x: x * SUBPIXELS, y: y * SUBPIXELS }
}

fn red() -> BackendStyle {
    BackendStyle { color: BackendColor { alpha: Fixed::one(), rgb: (255, 0, 0) }, stroke_width: 3 }
}

fn red32() -> EguiBackendColor {
    EguiBackendColor { r: 255, g: 0, b: 0, a: 255 }
}

fn dist2(p: ScreenPos, c: ScreenPos) -> i128 {
    let dx = (p.x - c.x) / SUBPIXELS;
    let dy = (p.y - c.y) / SUBPIXELS;
    dx * dx + dy * dy
}

#[test]
fn identity_transform_only_adds_corner() {
    let b = EguiBackend::new(region());
    for (x, y) in [(0, 0), (3, 4), (-50, 700), (199, 99)] {
        assert_eq!(b.point_transform((x, y)), px(10 + x as i128, 20 + y as i128));
    }
}

#[test]
fn offset_pans_without_scaling() {
    let b = EguiBackend::new(region()).offset((5, -7)).scale(Fixed::from_int(2));
    // center (100, 50): (3 - 100) * 2 + 100 + 5 + 10 = -79; (4 - 50) * 2 + 50 - 7 + 20 = -29
    assert_eq!(b.point_transform((3, 4)), px(-79, -29));
}

#[test]
fn zoom_is_about_the_center() {
    let center = px(110, 70);
    for s in [1i32, 2, 5] {
        let b = EguiBackend::new(region()).scale(Fixed::from_int(s));
        assert_eq!(b.point_transform((100, 50)), center);
    }
    let one = EguiBackend::new(region()).point_transform((0, 0));
    let two = EguiBackend::new(region()).scale(Fixed::from_int(2)).point_transform((0, 0));
    let half = EguiBackend::new(region()).scale(Fixed::from_micros(500_000)).point_transform((0, 0));
    assert!(dist2(two, center) > dist2(one, center));
    assert!(dist2(half, center) < dist2(one, center));
    assert_eq!(two, px(-90, -30));
    assert_eq!(half, px(60, 45));
}

#[test]
fn half_pixel_center_is_exact() {
    let r = Region {
        min_x: Fixed::zero(),
        min_y: Fixed::zero(),
        width: Fixed::from_int(3),
        height: Fixed::from_int(3),
    };
    let b = EguiBackend::new(r).scale(Fixed::from_int(2));
    // center 1.5: (0 - 1.5) * 2 + 1.5 = -1.5
    assert_eq!(b.point_transform((0, 0)), ScreenPos { x: -3 * SUBPIXELS / 2, y: -3 * SUBPIXELS / 2 });
}

#[test]
fn size_in_whole_pixels() {
    let r = Region {
        min_x: Fixed::zero(),
        min_y: Fixed::zero(),
        width: Fixed::from_micros(640_900_000),
        height: Fixed::from_micros(-5_000_000),
    };
    assert_eq!(EguiBackend::new(r).get_size(), (640, 0));
}

#[test]
fn prepare_and_present_succeed() {
    let mut b = EguiBackend::new(region());
    assert_eq!(b.ensure_prepared(), Ok(()));
    assert_eq!(b.present(), Ok(()));
}

#[test]
fn pixel_is_one_pixel_segment() {
    let b = EguiBackend::new(region());
    let c = BackendColor { alpha: Fixed::from_micros(500_000), rgb: (1, 2, 3) };
    match b.draw_pixel((1, 1), c) {
        Shape::LineSegment { from, to, stroke } => {
            assert_eq!(from, px(11, 21));
            assert_eq!(to, px(12, 22));
            assert_eq!(stroke, Stroke { width: 1, color: EguiBackendColor { r: 1, g: 2, b: 3, a: 127 } });
        }
        other => panic!("unexpected {:?}", other),
    }
}

#[test]
fn alpha_to_byte() {
    let c = |a: i64| EguiBackendColor::from_backend(BackendColor { alpha: Fixed::from_micros(a), rgb: (9, 8, 7) }).a;
    assert_eq!(c(1_000_000), 255);
    assert_eq!(c(0), 0);
    assert_eq!(c(-300_000), 0);
    assert_eq!(c(2_000_000), 255);
    assert_eq!(c(100_000), 25);
}

#[test]
fn line_rect_and_circle() {
    let b = EguiBackend::new(region());
    match b.draw_line((0, 0), (5, 6), &red()) {
        Shape::LineSegment { from, to, stroke } => {
            assert_eq!((from, to), (px(10, 20), px(15, 26)));
            assert_eq!(stroke, Stroke { width: 3, color: red32() });
        }
        other => panic!("unexpected {:?}", other),
    }
    match b.draw_rect((0, 0), (5, 6), &red(), true) {
        Shape::Rect { min, max, fill, stroke } => {
            assert_eq!((min, max), (px(10, 20), px(15, 26)));
            assert_eq!(fill, red32());
            assert_eq!(stroke, Stroke::none());
        }
        other => panic!("unexpected {:?}", other),
    }
    match b.draw_rect((0, 0), (5, 6), &red(), false) {
        Shape::Rect { fill, stroke, .. } => {
            assert_eq!(fill, EguiBackendColor::transparent());
            assert_eq!(stroke, Stroke { width: 3, color: red32() });
        }
        other => panic!("unexpected {:?}", other),
    }
    let zoomed = b.scale(Fixed::from_int(2));
    match zoomed.draw_circle((100, 50), 4, &red(), false) {
        Shape::Circle { center, radius, fill, stroke } => {
            assert_eq!(center, px(110, 70));
            assert_eq!(radius, 8 * SUBPIXELS);
            assert_eq!(fill, EguiBackendColor::transparent());
            assert_eq!(stroke.width, 3);
        }
        other => panic!("unexpected {:?}", other),
    }
}

#[test]
fn path_keeps_order() {
    let b = EguiBackend::new(region()).offset((1, 1));
    match b.draw_path(&vec![(0, 0), (2, 0), (2, 2)], &red()) {
        Shape::Path { points, stroke } => {
            assert_eq!(points, vec![px(11, 21), px(13, 21), px(13, 23)]);
            assert_eq!(stroke.width, 3);
        }
        other => panic!("unexpected {:?}", other),
    }
}

#[test]
fn polygon_fill_triangulates() {
    let b = EguiBackend::new(region());
    let square = vec![(0, 0), (4, 0), (4, 4), (0, 4)];
    match b.fill_polygon(&square, &red()) {
        Ok(Shape::Mesh { points, triangles, color }) => {
            assert_eq!(points.len(), 4);
            assert_eq!(triangles.len(), 2);
            assert_eq!(color, red32());
        }
        other => panic!("unexpected {:?}", other),
    }
}

#[test]
fn concave_polygon_has_n_minus_two_triangles() {
    // An L shape: its reflex corner cannot be an ear.
    let l = vec![(0, 0), (6, 0), (6, 2), (2, 2), (2, 6), (0, 6)];
    let tris = triangulate(&l).unwrap();
    assert_eq!(tris.len(), 4);
    let area2: i64 = tris
        .iter()
        .map(|&(a, b, c)| {
            let (pa, pb, pc) = (l[a], l[b], l[c]);
            ((pb.0 - pa.0) as i64 * (pc.1 - pa.1) as i64 - (pb.1 - pa.1) as i64 * (pc.0 - pa.0) as i64).abs()
        })
        .sum();
    // The L covers 6*2 + 2*4 = 20 square units: twice that in doubled areas.
    assert_eq!(area2, 40);
}

#[test]
fn degenerate_polygon_is_an_error() {
    let b = EguiBackend::new(region());
    let flat = vec![(0, 0), (1, 0), (2, 0), (3, 0)];
    assert_eq!(b.fill_polygon(&flat, &red()).err(), Some(EguiBackendError));
    assert!(triangulate(&vec![(0, 0), (1, 1)]).unwrap().is_empty());
}

#[test]
fn text_family_and_anchor() {
    let b = EguiBackend::new(region());
    let style = TextStyle {
        size: Fixed::from_int(12),
        family: ChartFontFamily::SansSerif,
        color: BackendColor { alpha: Fixed::one(), rgb: (0, 0, 0) },
        transform: FontTransform::Rotate90,
        h_pos: HPos::Left,
        v_pos: VPos::Top,
    };
    let t = b.draw_text(&style, (0, 0));
    assert_eq!(t.pos, px(10, 20));
    assert_eq!(t.family, PainterFontFamily::Proportional);
    assert_eq!(t.quarter_turns, 1);
    assert_eq!(t.anchor, Align2 { x: Align::Max, y: Align::Min });
    assert_eq!(ChartFontFamily::Serif.to_painter(), PainterFontFamily::Proportional);
    assert_eq!(ChartFontFamily::Monospace.to_painter(), PainterFontFamily::Monospace);
    assert_eq!(
        ChartFontFamily::Name("Fira".to_string()).to_painter(),
        PainterFontFamily::Name("Fira".to_string())
    );
}

#[test]
fn anchor_rotation_table() {
    let a = |x, y| Align2 { x, y };
    assert_eq!(a(Min, Min).rotated(1), a(Max, Min));
    assert_eq!(a(Max, Min).rotated(1), a(Max, Max));
    assert_eq!(a(Max, Max).rotated(1), a(Min, Max));
    assert_eq!(a(Min, Max).rotated(1), a(Min, Min));
    assert_eq!(a(Min, C).rotated(1), a(C, Min));
    assert_eq!(a(C, Min).rotated(1), a(Max, C));
    assert_eq!(a(Max, C).rotated(1), a(C, Max));
    assert_eq!(a(C, Max).rotated(1), a(Min, C));
    assert_eq!(a(C, C).rotated(3), a(C, C));
    assert_eq!(a(Min, Min).rotated(2), a(Max, Max));
    assert_eq!(a(Max, C).rotated(4), a(Max, C));
    assert_eq!(Align2::from_pos(HPos::Right, VPos::Center), a(Max, C));
}

#[test]
fn triangle_is_cut_unless_flat() {
    assert_eq!(triangulate(&vec![(0, 0), (1, 0), (0, 1)]).unwrap(), vec![(0, 1, 2)]);
    assert_eq!(triangulate(&vec![(0, 0), (1, 1), (2, 2)]), Err(EguiBackendError));
}

fn directed_uses(tris: &[(usize, usize, usize)], a: usize, b: usize) -> usize {
    tris.iter()
        .map(|&(x, y, z)| [(x, y), (y, z), (z, x)].iter().filter(|&&e| e == (a, b)).count())
        .sum()
}

#[test]
fn convex_polygon_is_always_cut() {
    let hexagon = vec![(10, 0), (20, 5), (20, 15), (10, 20), (0, 15), (0, 5)];
    let tris = triangulate(&hexagon).unwrap();
    assert_eq!(tris.len(), 4);
    let clockwise: Vec<(i32, i32)> = hexagon.iter().rev().cloned().collect();
    assert_eq!(triangulate(&clockwise).unwrap().len(), 4);
}

#[test]
fn triangles_cover_polygon_edge_by_edge() {
    let l = vec![(0, 0), (6, 0), (6, 2), (2, 2), (2, 6), (0, 6)];
    let tris = triangulate(&l).unwrap();
    let n = l.len();
    for a in 0..n {
        for b in 0..n {
            if a == b {
                continue;
            }
            let ab = directed_uses(&tris, a, b);
            let ba = directed_uses(&tris, b, a);
            if b == (a + 1) % n {
                assert_eq!((ab, ba), (1, 0));
            } else if a == (b + 1) % n {
                assert_eq!((ab, ba), (0, 1));
            } else {
                assert_eq!(ab, ba);
                assert!(ab <= 1);
            }
        }
    }
}
