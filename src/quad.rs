use vstd::prelude::*;

verus! {

/// A rectangle in screen space. Coordinates are integers in whatever unit the
/// caller chooses (whole pixels, or a fixed fraction of one).
#[derive(Clone, Copy, Debug, PartialEq, Eq, Structural)]
pub struct Rect {
    pub min_x: i32,
    pub min_y: i32,
    pub max_x: i32,
    pub max_y: i32,
}

/// A rectangle of the atlas texture, in an integer unit of the caller's
/// choosing (texels, or a fixed fraction of the texture's size).
#[derive(Clone, Copy, Debug, PartialEq, Eq, Structural)]
pub struct TexRect {
    pub min_x: u32,
    pub min_y: u32,
    pub max_x: u32,
    pub max_y: u32,
}

/// A texture coordinate, in the unit of the `TexRect` it was computed from,
/// held exactly as the fraction `num / den`.
#[derive(Clone, Copy, Debug, PartialEq, Eq, Structural)]
pub struct TexCoord {
    pub num: i128,
    pub den: i128,
}

/// The result of clipping one axis of a glyph: the clipped screen span
/// `lo..hi` and the texture coordinates at its two ends.
#[derive(Clone, Copy, Debug, PartialEq, Eq, Structural)]
pub struct AxisClip {
    pub lo: i32,
    pub hi: i32,
    pub t_lo: TexCoord,
    pub t_hi: TexCoord,
}

/// One corner of a quad: screen position, texture coordinate and color.
#[derive(Clone, Copy, Debug)]
pub struct Vertex<C> {
    pub x: i32,
    pub y: i32,
    pub u: TexCoord,
    pub v: TexCoord,
    pub color: C,
}

/// Four vertices in the order (min-x, min-y), (max-x, min-y), (min-x, max-y),
/// (max-x, max-y).
#[derive(Clone, Copy, Debug)]
pub struct Quad<C> {
    pub vertices: [Vertex<C>; 4],
}

/// The low end of a span after clipping it to a bound.
pub open spec fn clip_lo(p: int, b: int) -> int {
    if p < b { b } else { p }
}

/// The high end of a span after clipping it to a bound.
pub open spec fn clip_hi(p: int, b: int) -> int {
    if p > b { b } else { p }
}

/// The denominator of the texture coordinates of an axis: the length of the
/// original screen span, or 1 where that span is empty.
pub open spec fn span_den(p_lo: int, p_hi: int) -> int {
    if p_lo < p_hi {
        p_hi - p_lo
    } else if p_hi < p_lo {
        p_lo - p_hi
    } else {
        1
    }
}

/// The texture coordinate at screen position `x`, times `span_den(p_lo, p_hi)`,
/// under the affine map that takes `p_lo` to `t_lo` and `p_hi` to `t_hi`
/// (for `p_lo != p_hi`).
pub open spec fn tex_num(p_lo: int, p_hi: int, t_lo: int, t_hi: int, x: int) -> int {
    if p_lo < p_hi {
        t_lo * (p_hi - p_lo) + (t_hi - t_lo) * (x - p_lo)
    } else {
        t_lo * (p_lo - p_hi) - (t_hi - t_lo) * (x - p_lo)
    }
}

/// What clipping one axis yields. A span of zero length has no map onto the
/// texture: its texture coordinates are kept as they are.
pub open spec fn axis_matches(
    a: AxisClip,
    p_lo: int,
    p_hi: int,
    b_lo: int,
    b_hi: int,
    t_lo: int,
    t_hi: int,
) -> bool {
    &&& a.lo == clip_lo(p_lo, b_lo)
    &&& a.hi == clip_hi(p_hi, b_hi)
    &&& a.t_lo.den == span_den(p_lo, p_hi)
    &&& a.t_hi.den == span_den(p_lo, p_hi)
    &&& a.t_lo.num == (if p_lo == p_hi { t_lo } else { tex_num(p_lo, p_hi, t_lo, t_hi, a.lo as int) })
    &&& a.t_hi.num == (if p_lo == p_hi { t_hi } else { tex_num(p_lo, p_hi, t_lo, t_hi, a.hi as int) })
}

/// Clips the screen span `p_lo..p_hi` to the bounds `b_lo..b_hi`, edge by edge,
/// and moves each clipped end of the texture span `t_lo..t_hi` along with it,
/// so that texels keep their size on screen.
pub fn clip_axis(p_lo: i32, p_hi: i32, b_lo: i32, b_hi: i32, t_lo: u32, t_hi: u32) -> (r: AxisClip)
    ensures
        axis_matches(r, p_lo as int, p_hi as int, b_lo as int, b_hi as int, t_lo as int, t_hi as int),
{
    let lo: i32 = if p_lo < b_lo { b_lo } else { p_lo };
    let hi: i32 = if p_hi > b_hi { b_hi } else { p_hi };
    if p_lo == p_hi {
        return AxisClip {
            lo,
            hi,
            t_lo: TexCoord { num: t_lo as i128, den: 1 },
            t_hi: TexCoord { num: t_hi as i128, den: 1 },
        };
    }
    let ascending = p_lo < p_hi;
    let w: i128 = if ascending { p_hi as i128 - p_lo as i128 } else { p_lo as i128 - p_hi as i128 };
    let span: i128 = t_hi as i128 - t_lo as i128;
    let d_lo: i128 = lo as i128 - p_lo as i128;
    let d_hi: i128 = hi as i128 - p_lo as i128;
    proof {
        lemma_product_bound(t_lo as int, w as int);
        lemma_product_bound(span as int, d_lo as int);
        lemma_product_bound(span as int, d_hi as int);
    }
    let base: i128 = t_lo as i128 * w;
    let (n_lo, n_hi) = if ascending {
        (base + span * d_lo, base + span * d_hi)
    } else {
        (base - span * d_lo, base - span * d_hi)
    };
    AxisClip { lo, hi, t_lo: TexCoord { num: n_lo, den: w }, t_hi: TexCoord { num: n_hi, den: w } }
}

/// Products of two factors of at most 33 bits stay well inside `i128`.
proof fn lemma_product_bound(a: int, b: int)
    requires
        -0x2_0000_0000 <= a <= 0x2_0000_0000,
        -0x2_0000_0000 <= b <= 0x2_0000_0000,
    ensures
        -0x4_0000_0000_0000_0000 <= a * b <= 0x4_0000_0000_0000_0000,
{
    assert(-0x4_0000_0000_0000_0000 <= a * b <= 0x4_0000_0000_0000_0000) by (nonlinear_arith)
        requires
            -0x2_0000_0000 <= a <= 0x2_0000_0000,
            -0x2_0000_0000 <= b <= 0x2_0000_0000,
    ;
}

/// The vertex that stands at the chosen ends of two clipped axes.
pub open spec fn vertex_at<C>(v: Vertex<C>, x: AxisClip, x_hi: bool, y: AxisClip, y_hi: bool, color: C) -> bool {
    &&& v.x == (if x_hi { x.hi } else { x.lo })
    &&& v.u == (if x_hi { x.t_hi } else { x.t_lo })
    &&& v.y == (if y_hi { y.hi } else { y.lo })
    &&& v.v == (if y_hi { y.t_hi } else { y.t_lo })
    &&& v.color == color
}

/// The horizontal axis of a glyph, clipped to its bounds.
pub open spec fn x_axis_matches(a: AxisClip, tex: TexRect, px: Rect, bounds: Rect) -> bool {
    axis_matches(a, px.min_x as int, px.max_x as int, bounds.min_x as int, bounds.max_x as int, tex.min_x as int, tex.max_x as int)
}

/// The vertical axis of a glyph, clipped to its bounds.
pub open spec fn y_axis_matches(a: AxisClip, tex: TexRect, px: Rect, bounds: Rect) -> bool {
    axis_matches(a, px.min_y as int, px.max_y as int, bounds.min_y as int, bounds.max_y as int, tex.min_y as int, tex.max_y as int)
}

/// The quad of a glyph: the corners of its clipped screen rectangle, in the
/// fixed winding order, each with its remapped texture coordinate and the
/// glyph's color.
pub open spec fn quad_matches<C>(q: Quad<C>, tex: TexRect, px: Rect, bounds: Rect, color: C) -> bool {
    exists|x: AxisClip, y: AxisClip|
        #![trigger x_axis_matches(x, tex, px, bounds), y_axis_matches(y, tex, px, bounds)]
        {
            &&& x_axis_matches(x, tex, px, bounds)
            &&& y_axis_matches(y, tex, px, bounds)
            &&& vertex_at(q.vertices[0], x, false, y, false, color)
            &&& vertex_at(q.vertices[1], x, true, y, false, color)
            &&& vertex_at(q.vertices[2], x, false, y, true, color)
            &&& vertex_at(q.vertices[3], x, true, y, true, color)
        }
}

/// Builds the quad of one glyph: `tex_coords` is where its bitmap lies in the
/// atlas, `pixel_coords` where it is meant to stand on screen, `bounds` the
/// layout bounds it is clipped to. Where clipping leaves a span empty or
/// inverted, the quad is degenerate and is returned all the same.
pub fn build_quad<C: Copy>(tex_coords: TexRect, pixel_coords: Rect, bounds: Rect, color: C) -> (r: Quad<C>)
    ensures
        quad_matches(r, tex_coords, pixel_coords, bounds, color),
{
    let x = clip_axis(pixel_coords.min_x, pixel_coords.max_x, bounds.min_x, bounds.max_x, tex_coords.min_x, tex_coords.max_x);
    let y = clip_axis(pixel_coords.min_y, pixel_coords.max_y, bounds.min_y, bounds.max_y, tex_coords.min_y, tex_coords.max_y);
    let q = Quad {
        vertices: [
            Vertex { x: x.lo, y: y.lo, u: x.t_lo, v: y.t_lo, color },
            Vertex { x: x.hi, y: y.lo, u: x.t_hi, v: y.t_lo, color },
            Vertex { x: x.lo, y: y.hi, u: x.t_lo, v: y.t_hi, color },
            Vertex { x: x.hi, y: y.hi, u: x.t_hi, v: y.t_hi, color },
        ],
    };
    assert(x_axis_matches(x, tex_coords, pixel_coords, bounds) && y_axis_matches(y, tex_coords, pixel_coords, bounds));
    q
}

/// The texture coordinate `c` stands for the coordinate `t` exactly.
pub open spec fn denotes(c: TexCoord, t: int) -> bool {
    c.den > 0 && c.num == t * c.den
}

/// A span that already lies within its bounds keeps its texture coordinates.
proof fn lemma_axis_inside(a: AxisClip, p_lo: int, p_hi: int, b_lo: int, b_hi: int, t_lo: int, t_hi: int)
    requires
        axis_matches(a, p_lo, p_hi, b_lo, b_hi, t_lo, t_hi),
        b_lo <= p_lo,
        p_hi <= b_hi,
    ensures
        a.lo == p_lo,
        a.hi == p_hi,
        denotes(a.t_lo, t_lo),
        denotes(a.t_hi, t_hi),
{
    let w = p_hi - p_lo;
    assert(t_lo * w + (t_hi - t_lo) * w == t_hi * w) by (nonlinear_arith);
    assert(t_lo * (-w) - (t_hi - t_lo) * w == t_hi * (-w)) by (nonlinear_arith);
}

/// A glyph whose screen rectangle lies within its bounds is drawn with the
/// texture coordinates of its atlas rectangle, unchanged.
pub proof fn lemma_unclipped_quad_keeps_uv<C>(q: Quad<C>, tex: TexRect, px: Rect, bounds: Rect, color: C)
    requires
        quad_matches(q, tex, px, bounds, color),
        bounds.min_x <= px.min_x,
        px.max_x <= bounds.max_x,
        bounds.min_y <= px.min_y,
        px.max_y <= bounds.max_y,
    ensures
        q.vertices[0].x == px.min_x && q.vertices[0].y == px.min_y,
        q.vertices[1].x == px.max_x && q.vertices[1].y == px.min_y,
        q.vertices[2].x == px.min_x && q.vertices[2].y == px.max_y,
        q.vertices[3].x == px.max_x && q.vertices[3].y == px.max_y,
        denotes(q.vertices[0].u, tex.min_x as int) && denotes(q.vertices[0].v, tex.min_y as int),
        denotes(q.vertices[1].u, tex.max_x as int) && denotes(q.vertices[1].v, tex.min_y as int),
        denotes(q.vertices[2].u, tex.min_x as int) && denotes(q.vertices[2].v, tex.max_y as int),
        denotes(q.vertices[3].u, tex.max_x as int) && denotes(q.vertices[3].v, tex.max_y as int),
{
    let (x, y) = choose|x: AxisClip, y: AxisClip|
        #![trigger x_axis_matches(x, tex, px, bounds), y_axis_matches(y, tex, px, bounds)]
        {
            &&& x_axis_matches(x, tex, px, bounds)
            &&& y_axis_matches(y, tex, px, bounds)
            &&& vertex_at(q.vertices[0], x, false, y, false, color)
            &&& vertex_at(q.vertices[1], x, true, y, false, color)
            &&& vertex_at(q.vertices[2], x, false, y, true, color)
            &&& vertex_at(q.vertices[3], x, true, y, true, color)
        };
    lemma_axis_inside(x, px.min_x as int, px.max_x as int, bounds.min_x as int, bounds.max_x as int, tex.min_x as int, tex.max_x as int);
    lemma_axis_inside(y, px.min_y as int, px.max_y as int, bounds.min_y as int, bounds.max_y as int, tex.min_y as int, tex.max_y as int);
}

/// On a span of non-zero length, clipping keeps the ratio of texture span to
/// screen span: `(t_hi' - t_lo') / (hi - lo) == (t_hi - t_lo) / (p_hi - p_lo)`,
/// written without division.
proof fn lemma_axis_ratio(a: AxisClip, p_lo: int, p_hi: int, b_lo: int, b_hi: int, t_lo: int, t_hi: int)
    requires
        axis_matches(a, p_lo, p_hi, b_lo, b_hi, t_lo, t_hi),
        p_lo != p_hi,
    ensures
        a.t_lo.den == a.t_hi.den > 0,
        (a.t_hi.num - a.t_lo.num) * (p_hi - p_lo) == (t_hi - t_lo) * a.t_lo.den * (a.hi - a.lo),
{
    let s = t_hi - t_lo;
    let w = p_hi - p_lo;
    let dl = a.lo - p_lo;
    let dh = a.hi - p_lo;
    assert((s * dh - s * dl) * w == s * w * (dh - dl)) by (nonlinear_arith);
    assert((-(s * dh) + s * dl) * w == s * (-w) * (dh - dl)) by (nonlinear_arith);
}

/// Clipping never distorts a glyph: on each axis whose screen span has
/// non-zero length, the clipped texture span over the clipped screen span
/// equals the original texture span over the original screen span.
pub proof fn lemma_clip_preserves_aspect<C>(q: Quad<C>, tex: TexRect, px: Rect, bounds: Rect, color: C)
    requires
        quad_matches(q, tex, px, bounds, color),
    ensures
        px.min_x != px.max_x ==> q.vertices[0].u.den > 0 && (q.vertices[1].u.num - q.vertices[0].u.num) * (px.max_x - px.min_x)
            == (tex.max_x - tex.min_x) * q.vertices[0].u.den * (q.vertices[1].x - q.vertices[0].x),
        px.min_y != px.max_y ==> q.vertices[0].v.den > 0 && (q.vertices[2].v.num - q.vertices[0].v.num) * (px.max_y - px.min_y)
            == (tex.max_y - tex.min_y) * q.vertices[0].v.den * (q.vertices[2].y - q.vertices[0].y),
{
    let (x, y) = choose|x: AxisClip, y: AxisClip|
        #![trigger x_axis_matches(x, tex, px, bounds), y_axis_matches(y, tex, px, bounds)]
        {
            &&& x_axis_matches(x, tex, px, bounds)
            &&& y_axis_matches(y, tex, px, bounds)
            &&& vertex_at(q.vertices[0], x, false, y, false, color)
            &&& vertex_at(q.vertices[1], x, true, y, false, color)
            &&& vertex_at(q.vertices[2], x, false, y, true, color)
            &&& vertex_at(q.vertices[3], x, true, y, true, color)
        };
    if px.min_x != px.max_x {
        lemma_axis_ratio(x, px.min_x as int, px.max_x as int, bounds.min_x as int, bounds.max_x as int, tex.min_x as int, tex.max_x as int);
    }
    if px.min_y != px.max_y {
        lemma_axis_ratio(y, px.min_y as int, px.max_y as int, bounds.min_y as int, bounds.max_y as int, tex.min_y as int, tex.max_y as int);
    }
}

/// A glyph that lies wholly outside its bounds on one axis yields a quad of
/// zero or negative extent on that axis.
pub proof fn lemma_outside_bounds_is_degenerate<C>(q: Quad<C>, tex: TexRect, px: Rect, bounds: Rect, color: C)
    requires
        quad_matches(q, tex, px, bounds, color),
    ensures
        (px.max_x < bounds.min_x || px.min_x > bounds.max_x) ==> q.vertices[1].x <= q.vertices[0].x
            && q.vertices[3].x <= q.vertices[2].x,
        (px.max_y < bounds.min_y || px.min_y > bounds.max_y) ==> q.vertices[2].y <= q.vertices[0].y
            && q.vertices[3].y <= q.vertices[1].y,
{
}

} // verus!
