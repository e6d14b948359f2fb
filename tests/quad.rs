use solstice_glyph::quad::{build_quad, clip_axis, Quad, Rect, TexCoord, TexRect};

fn rect(min_x: i32, min_y: i32, max_x: i32, max_y: i32) -> Rect {
    Rect { min_x, min_y, max_x, max_y }
}

fn tex(min_x: u32, min_y: u32, max_x: u32, max_y: u32) -> TexRect {
    TexRect { min_x, min_y, max_x, max_y }
}

fn texels(c: TexCoord) -> f64 {
    c.num as f64 / c.den as f64
}

fn same(c: TexCoord, num: i128, den: i128) -> bool {
    c.num * den == num * c.den && c.den > 0
}

#[test]
fn end_to_end_single_glyph() {
    let color: [f32; 4] = [0.0, 0.0, 0.0, 1.0];
    let q: Quad<[f32; 4]> = build_quad(tex(0, 0, 20, 30), rect(10, 10, 30, 40), rect(0, 0, 100, 100), color);
    let corners: Vec<(i32, i32)> = q.vertices.iter().map(|v| (v.x, v.y)).collect();
    assert_eq!(corners, vec![(10, 10), (30, 10), (10, 40), (30, 40)]);
    let uvs: Vec<(f64, f64)> = q.vertices.iter().map(|v| (texels(v.u) / 20.0, texels(v.v) / 30.0)).collect();
    assert_eq!(uvs, vec![(0.0, 0.0), (1.0, 0.0), (0.0, 1.0), (1.0, 1.0)]);
    for v in q.vertices.iter() {
        assert_eq!(v.color, color);
    }
}

#[test]
fn inside_bounds_keeps_uv() {
    let q = build_quad(tex(7, 3, 19, 11), rect(-5, 2, 20, 50), rect(-5, 0, 20, 60), 1u8);
    assert!(same(q.vertices[0].u, 7, 1) && same(q.vertices[0].v, 3, 1));
    assert!(same(q.vertices[1].u, 19, 1) && same(q.vertices[1].v, 3, 1));
    assert!(same(q.vertices[2].u, 7, 1) && same(q.vertices[2].v, 11, 1));
    assert!(same(q.vertices[3].u, 19, 1) && same(q.vertices[3].v, 11, 1));
}

#[test]
fn right_clip_keeps_aspect() {
    let q = build_quad(tex(0, 0, 20, 30), rect(10, 10, 30, 40), rect(0, 0, 25, 100), 0u8);
    assert_eq!((q.vertices[0].x, q.vertices[1].x), (10, 25));
    assert_eq!(q.vertices[1].u, TexCoord { num: 300, den: 20 });
    let clipped = (texels(q.vertices[1].u) - texels(q.vertices[0].u)) / (25.0 - 10.0);
    let original = 20.0 / 20.0;
    assert!((clipped - original).abs() < 1e-5);
}

#[test]
fn left_clip_moves_low_uv() {
    let a = clip_axis(10, 30, 15, 100, 4, 24);
    assert_eq!((a.lo, a.hi), (15, 30));
    assert_eq!(a.t_lo, TexCoord { num: 180, den: 20 });
    assert_eq!(a.t_hi, TexCoord { num: 480, den: 20 });
}

#[test]
fn top_and_bottom_clip() {
    let q = build_quad(tex(0, 0, 20, 30), rect(10, 10, 30, 40), rect(0, 20, 100, 35), 0u8);
    assert_eq!((q.vertices[0].y, q.vertices[2].y), (20, 35));
    assert!(same(q.vertices[0].v, 10, 1));
    assert!(same(q.vertices[2].v, 25, 1));
    let ratio = (texels(q.vertices[2].v) - texels(q.vertices[0].v)) / (35.0 - 20.0);
    assert!((ratio - 1.0).abs() < 1e-5);
}

#[test]
fn fractional_texel_is_exact() {
    let a = clip_axis(0, 3, 0, 1, 0, 2);
    assert_eq!(a.hi, 1);
    assert!(same(a.t_hi, 2, 3));
}

#[test]
fn outside_bounds_is_degenerate() {
    let q = build_quad(tex(0, 0, 20, 30), rect(110, 10, 130, 40), rect(0, 0, 100, 100), 0u8);
    assert!(q.vertices[1].x <= q.vertices[0].x);
    let q = build_quad(tex(0, 0, 20, 30), rect(10, -50, 30, -20), rect(0, 0, 100, 100), 0u8);
    assert!(q.vertices[2].y <= q.vertices[0].y);
}

#[test]
fn zero_width_span_keeps_uv() {
    let a = clip_axis(5, 5, 10, 20, 3, 9);
    assert_eq!((a.lo, a.hi), (10, 5));
    assert_eq!(a.t_lo, TexCoord { num: 3, den: 1 });
    assert_eq!(a.t_hi, TexCoord { num: 9, den: 1 });
}

#[test]
fn extreme_coordinates_do_not_overflow() {
    let a = clip_axis(i32::MIN, i32::MAX, 0, 1, 0, u32::MAX);
    assert_eq!((a.lo, a.hi), (0, 1));
    assert_eq!(a.t_lo.den, u32::MAX as i128);
    assert_eq!(a.t_lo.num, u32::MAX as i128 * (-(i32::MIN as i128)));
}
