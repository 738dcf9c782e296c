//! Triangulation of filled polygons by ear clipping.
//!
//! Chart fills need not be convex, so a polygon is cut into triangles
//! before it is filled. The cut is made on the chart's integer coordinates,
//! where orientation tests are exact; the point transform turns no triangle
//! inside out, so the same triangles serve on screen.
use vstd::prelude::*;

verus! {

/// Twice the signed area of the triangle `a`, `b`, `c`: positive when the
/// three turn one way, negative when they turn the other, zero when they
/// lie on a line.
pub open spec fn cross(a: (i32, i32), b: (i32, i32), c: (i32, i32)) -> int {
    (b.0 - a.0) * (c.1 - a.1) - (b.1 - a.1) * (c.0 - a.0)
}

/// The triangle's orientation, for three indices into `pts`.
pub open spec fn tri_cross(pts: Seq<(i32, i32)>, t: (usize, usize, usize)) -> int {
    cross(pts[t.0 as int], pts[t.1 as int], pts[t.2 as int])
}

/// A triangle over `n` vertices: three distinct indices, each in range.
pub open spec fn valid_triangle(n: int, t: (usize, usize, usize)) -> bool {
    &&& t.0 < n
    &&& t.1 < n
    &&& t.2 < n
    &&& t.0 != t.1
    &&& t.1 != t.2
    &&& t.0 != t.2
}

/// What a cut of `pts` into `tris` gives: no triangle for fewer than three
/// vertices, otherwise two fewer triangles than vertices, each of three
/// distinct vertices, none flat and all turning the same way, together
/// covering the polygon edge by edge (see `covers`).
pub open spec fn is_triangulation(pts: Seq<(i32, i32)>, tris: Seq<(usize, usize, usize)>) -> bool {
    &&& pts.len() < 3 ==> tris.len() == 0
    &&& pts.len() >= 3 ==> tris.len() == pts.len() - 2
    &&& pts.len() >= 3 ==> covers(pts.len() as int, tris)
    &&& forall|i: int| 0 <= i < tris.len() ==> valid_triangle(pts.len() as int, #[trigger] tris[i])
    &&& forall|i: int, j: int|
        0 <= i < tris.len() && 0 <= j < tris.len() ==> (tri_cross(pts, #[trigger] tris[i]) > 0
            <==> tri_cross(pts, #[trigger] tris[j]) > 0)
    &&& forall|i: int| 0 <= i < tris.len() ==> tri_cross(pts, #[trigger] tris[i]) != 0
}

/// Every three vertices, taken in the polygon's order, turn strictly the
/// way `sign` says.
pub open spec fn convex_with(pts: Seq<(i32, i32)>, sign: int) -> bool {
    forall|i: int, j: int, k: int|
        0 <= i < j < k < pts.len() ==> sign * #[trigger] cross(pts[i], pts[j], pts[k]) > 0
}

/// The vertex after `i` round a polygon of `n` vertices.
pub open spec fn succ(n: int, i: int) -> int {
    if i + 1 == n {
        0
    } else {
        i + 1
    }
}

/// Every vertex off an edge lies strictly on the side of it that `sign`
/// says.
pub open spec fn convex_edges_with(pts: Seq<(i32, i32)>, sign: int) -> bool {
    forall|i: int, j: int|
        0 <= i < pts.len() && 0 <= j < pts.len() && j != i && j != succ(pts.len() as int, i)
            ==> sign * #[trigger] cross(pts[i], pts[succ(pts.len() as int, i)], pts[j]) > 0
}

/// A strictly convex polygon: for one sign, every vertex that is not on an
/// edge lies strictly on that side of it.
pub open spec fn strictly_convex(pts: Seq<(i32, i32)>) -> bool {
    convex_edges_with(pts, 1) || convex_edges_with(pts, -1)
}

/// One coordinate of the plane identity `(a×b)c + (b×c)a + (c×a)b = 0`.
proof fn lemma_triple_zero(ax: int, ay: int, bx: int, by: int, cx: int, cy: int)
    ensures
        (ax * by - ay * bx) * cx + (bx * cy - by * cx) * ax + (cx * ay - cy * ax) * bx == 0,
        (ax * by - ay * bx) * cy + (bx * cy - by * cx) * ay + (cx * ay - cy * ax) * by == 0,
{
    assert((ax * by - ay * bx) * cx + (bx * cy - by * cx) * ax + (cx * ay - cy * ax) * bx == 0) by (nonlinear_arith);
    assert((ax * by - ay * bx) * cy + (bx * cy - by * cx) * ay + (cx * ay - cy * ax) * by == 0) by (nonlinear_arith);
}

/// `k (dx cy - dy cx) = dx (k cy) - dy (k cx)`.
proof fn lemma_spread(k: int, dx: int, dy: int, cx: int, cy: int)
    ensures
        k * (dx * cy - dy * cx) == dx * (k * cy) - dy * (k * cx),
{
    assert(k * (dx * cy - dy * cx) == dx * (k * cy) - dy * (k * cx)) by (nonlinear_arith);
}

/// `d p + d q + d r = d (p + q + r)`.
proof fn lemma_gather(d: int, p: int, q: int, r: int)
    ensures
        d * p + d * q + d * r == d * (p + q + r),
{
    assert(d * p + d * q + d * r == d * (p + q + r)) by (nonlinear_arith);
}

/// The plane identity behind the order of directions about a point.
proof fn lemma_cross_identity(o: (i32, i32), a: (i32, i32), b: (i32, i32), c: (i32, i32), d: (i32, i32))
    ensures
        cross(o, a, b) * cross(o, d, c) + cross(o, b, c) * cross(o, d, a) + cross(o, c, a) * cross(o, d, b) == 0,
{
    let (ax, ay) = (a.0 - o.0, a.1 - o.1);
    let (bx, by) = (b.0 - o.0, b.1 - o.1);
    let (cx, cy) = (c.0 - o.0, c.1 - o.1);
    let (dx, dy) = (d.0 - o.0, d.1 - o.1);
    let ab = ax * by - ay * bx;
    let bc = bx * cy - by * cx;
    let ca = cx * ay - cy * ax;
    assert(cross(o, a, b) == ab);
    assert(cross(o, b, c) == bc);
    assert(cross(o, c, a) == ca);
    assert(cross(o, d, c) == dx * cy - dy * cx);
    assert(cross(o, d, a) == dx * ay - dy * ax);
    assert(cross(o, d, b) == dx * by - dy * bx);
    lemma_triple_zero(ax, ay, bx, by, cx, cy);
    let ex = ab * cx + bc * ax + ca * bx;
    let ey = ab * cy + bc * ay + ca * by;
    lemma_spread(ab, dx, dy, cx, cy);
    lemma_spread(bc, dx, dy, ax, ay);
    lemma_spread(ca, dx, dy, bx, by);
    lemma_gather(dx, ab * cy, bc * ay, ca * by);
    lemma_gather(dy, ab * cx, bc * ax, ca * bx);
    assert(dx * ey - dy * ex == 0) by (nonlinear_arith)
        requires
            ex == 0,
            ey == 0,
    ;
}

/// Directions about `o` on one side of `d` are ordered: `a` before `b`
/// before `c` puts `a` before `c`.
proof fn lemma_cross_trans(o: (i32, i32), d: (i32, i32), a: (i32, i32), b: (i32, i32), c: (i32, i32), sign: int)
    requires
        sign == 1 || sign == -1,
        sign * cross(o, d, a) > 0,
        sign * cross(o, d, b) > 0,
        sign * cross(o, d, c) > 0,
        sign * cross(o, a, b) > 0,
        sign * cross(o, b, c) > 0,
    ensures
        sign * cross(o, a, c) > 0,
{
    lemma_cross_identity(o, a, b, c, d);
    lemma_cross_swap(o, a, c);
    let (ab, dc, bc, da, ca, db) = (
        cross(o, a, b),
        cross(o, d, c),
        cross(o, b, c),
        cross(o, d, a),
        cross(o, c, a),
        cross(o, d, b),
    );
    assert(sign * ca < 0) by (nonlinear_arith)
        requires
            sign == 1 || sign == -1,
            ab * dc + bc * da + ca * db == 0,
            sign * ab > 0,
            sign * dc > 0,
            sign * bc > 0,
            sign * da > 0,
            sign * db > 0,
    ;
    lemma_sign_neg(sign, ca);
}

/// In a strictly convex polygon, seen from vertex `i`, the vertices from
/// `j` on come in order.
proof fn lemma_edges_chain(pts: Seq<(i32, i32)>, sign: int, i: int, j: int, k: int)
    requires
        sign == 1 || sign == -1,
        convex_edges_with(pts, sign),
        0 <= i < j < k < pts.len(),
    ensures
        sign * cross(pts[i], pts[j], pts[k]) > 0,
    decreases k - j,
{
    let n = pts.len() as int;
    if j == i + 1 {
        assert(sign * cross(pts[i], pts[succ(n, i)], pts[k]) > 0);
    } else if k == j + 1 {
        assert(sign * cross(pts[j], pts[succ(n, j)], pts[i]) > 0);
        lemma_cross_rotate(pts[i], pts[j], pts[k]);
    } else {
        lemma_edges_chain(pts, sign, i, j, k - 1);
        assert(sign * cross(pts[k - 1], pts[succ(n, k - 1)], pts[i]) > 0);
        lemma_cross_rotate(pts[i], pts[k - 1], pts[k]);
        let d = pts[i + 1];
        assert(sign * cross(pts[i], pts[succ(n, i)], pts[j]) > 0);
        assert(sign * cross(pts[i], pts[succ(n, i)], pts[k - 1]) > 0);
        assert(sign * cross(pts[i], pts[succ(n, i)], pts[k]) > 0);
        lemma_cross_trans(pts[i], d, pts[j], pts[k - 1], pts[k], sign);
    }
}

/// A strictly convex polygon turns the same way at every three vertices
/// taken in order.
proof fn lemma_edges_triples(pts: Seq<(i32, i32)>, sign: int)
    requires
        sign == 1 || sign == -1,
        convex_edges_with(pts, sign),
    ensures
        convex_with(pts, sign),
{
    assert forall|i: int, j: int, k: int| 0 <= i < j < k < pts.len() implies sign * #[trigger] cross(
        pts[i],
        pts[j],
        pts[k],
    ) > 0 by {
        lemma_edges_chain(pts, sign, i, j, k);
    }
}

/// One triple of a strictly convex polygon.
proof fn lemma_convex_triple(pts: Seq<(i32, i32)>, sign: int, i: int, j: int, k: int)
    requires
        convex_with(pts, sign),
        0 <= i < j < k < pts.len(),
    ensures
        sign * cross(pts[i], pts[j], pts[k]) > 0,
{
}

/// Swapping the last two corners of a triangle turns it over.
proof fn lemma_cross_swap(a: (i32, i32), b: (i32, i32), c: (i32, i32))
    ensures
        cross(a, c, b) == -cross(a, b, c),
{
    assert(cross(a, c, b) == -cross(a, b, c)) by (nonlinear_arith);
}

/// `sign * x > 0` for a sign of one and `-x` for a sign of minus one.
proof fn lemma_sign_neg(sign: int, x: int)
    requires
        sign == 1 || sign == -1,
    ensures
        sign * -x == -(sign * x),
        sign * x > 0 <==> (sign == 1 && x > 0 || sign == -1 && x < 0),
{
    assert(sign * -x == -(sign * x)) by (nonlinear_arith);
    if sign == 1 {
        assert(sign * x == x);
    } else {
        assert(sign * x == -x) by (nonlinear_arith)
            requires
                sign == -1,
        ;
    }
}

/// Turning the corners of a triangle round keeps its orientation.
proof fn lemma_cross_rotate(a: (i32, i32), b: (i32, i32), c: (i32, i32))
    ensures
        cross(a, b, c) == cross(b, c, a),
        cross(a, b, c) == cross(c, a, b),
{
    assert(cross(a, b, c) == cross(b, c, a)) by (nonlinear_arith);
    assert(cross(a, b, c) == cross(c, a, b)) by (nonlinear_arith);
}

/// How often the triangle `t` runs along the directed edge from `a` to `b`.
pub open spec fn has_edge(t: (usize, usize, usize), a: int, b: int) -> int {
    (if t.0 == a && t.1 == b { 1int } else { 0int }) + (if t.1 == a && t.2 == b { 1int } else { 0int }) + (
    if t.2 == a && t.0 == b { 1int } else { 0int })
}

/// How many triangles of `tris` run along the directed edge from `a` to `b`.
pub open spec fn edge_count(tris: Seq<(usize, usize, usize)>, a: int, b: int) -> int
    decreases tris.len(),
{
    if tris.len() == 0 {
        0
    } else {
        edge_count(tris.drop_last(), a, b) + has_edge(tris.last(), a, b)
    }
}

/// Whether the polygon of `n` vertices has an edge from `a` to `b`.
pub open spec fn poly_edge(n: int, a: int, b: int) -> bool {
    0 <= a < n && b == (if a + 1 == n { 0 } else { a + 1 })
}

/// The triangles tile the polygon edge by edge: each edge of the polygon
/// lies, in the polygon's direction, in exactly one triangle and in none the
/// other way; any other segment between two vertices lies in no triangle or
/// in exactly one triangle each way.
pub open spec fn covers(n: int, tris: Seq<(usize, usize, usize)>) -> bool {
    forall|a: int, b: int|
        0 <= a < n && 0 <= b < n && a != b ==> {
            &&& poly_edge(n, a, b) ==> #[trigger] edge_count(tris, a, b) == 1
            &&& poly_edge(n, b, a) ==> edge_count(tris, a, b) == 0
            &&& !poly_edge(n, a, b) && !poly_edge(n, b, a) ==> edge_count(tris, a, b) == edge_count(tris, b, a)
                && edge_count(tris, a, b) <= 1
        }
}

/// Whether `v` lies strictly after `a` and before `b`, going round the
/// vertex indices.
spec fn cyc_between(a: int, v: int, b: int) -> bool {
    if a < b {
        a < v && v < b
    } else {
        v > a || v < b
    }
}

/// Whether `a` to `b` is an edge of the polygon of the vertices still
/// marked in `alive`.
spec fn rest_edge(alive: Seq<bool>, a: int, b: int) -> bool {
    &&& 0 <= a < alive.len()
    &&& 0 <= b < alive.len()
    &&& alive[a]
    &&& alive[b]
    &&& a != b
    &&& forall|v: int| 0 <= v < alive.len() && cyc_between(a, v, b) ==> !#[trigger] alive[v]
}

spec fn ind(b: bool) -> int {
    if b {
        1
    } else {
        0
    }
}

/// Edge uses so far: by the triangles cut, and by the polygon still left.
spec fn sides(tris: Seq<(usize, usize, usize)>, alive: Seq<bool>, a: int, b: int) -> int {
    edge_count(tris, a, b) + ind(rest_edge(alive, a, b))
}

/// What `covers` asks, of the triangles cut and the polygon left together.
#[verifier::opaque]
spec fn pair_inv(n: int, tris: Seq<(usize, usize, usize)>, alive: Seq<bool>) -> bool {
    forall|a: int, b: int|
        0 <= a < n && 0 <= b < n && a != b ==> {
            &&& poly_edge(n, a, b) ==> #[trigger] sides(tris, alive, a, b) == 1
            &&& poly_edge(n, b, a) ==> sides(tris, alive, a, b) == 0
            &&& !poly_edge(n, a, b) && !poly_edge(n, b, a) ==> sides(tris, alive, a, b) == sides(tris, alive, b, a)
                && sides(tris, alive, a, b) <= 1
        }
}

/// A used segment between two vertices still left is an edge of what is
/// left.
#[verifier::opaque]
spec fn touch_inv(n: int, tris: Seq<(usize, usize, usize)>, alive: Seq<bool>) -> bool {
    forall|a: int, b: int|
        0 <= a < n && 0 <= b < n && a != b && alive[a] && alive[b] && #[trigger] sides(tris, alive, a, b) >= 1
            ==> rest_edge(alive, a, b) || rest_edge(alive, b, a)
}

/// `rest` lists, in increasing order, exactly the vertices marked in `alive`.
#[verifier::opaque]
spec fn listed(n: int, rest: Seq<usize>, alive: Seq<bool>) -> bool {
    &&& alive.len() == n
    &&& rest.len() >= 1
    &&& forall|j: int| 0 <= j < rest.len() ==> #[trigger] rest[j] < n
    &&& forall|j: int, l: int| 0 <= j < l < rest.len() ==> rest[j] < rest[l]
    &&& forall|j: int| 0 <= j < rest.len() ==> alive[#[trigger] rest[j] as int]
    &&& forall|j: int, v: int| 0 <= j < rest.len() - 1 && rest[j] < v < rest[j + 1] && v < n ==> !#[trigger] alive[v]
        && #[trigger] rest[j] == rest[j]
    &&& forall|v: int| 0 <= v < rest[0] ==> !#[trigger] alive[v]
    &&& forall|v: int| rest[rest.len() - 1] < v < n ==> !#[trigger] alive[v]
}

proof fn lemma_edge_count_push(tris: Seq<(usize, usize, usize)>, t: (usize, usize, usize), a: int, b: int)
    ensures
        edge_count(tris.push(t), a, b) == edge_count(tris, a, b) + has_edge(t, a, b),
{
    assert(tris.push(t).drop_last() =~= tris);
}

/// An alive vertex at or after `rest[i]` is one of `rest`.
proof fn lemma_alive_from(n: int, rest: Seq<usize>, alive: Seq<bool>, v: int, i: int) -> (j: int)
    requires
        listed(n, rest, alive),
        0 <= v < n,
        alive[v],
        0 <= i < rest.len(),
        rest[i] <= v,
    ensures
        0 <= j < rest.len(),
        rest[j] == v,
    decreases rest.len() - i,
{
    reveal(listed);
    if rest[i] == v {
        i
    } else if i + 1 == rest.len() {
        assert(!alive[v]);
        i
    } else if rest[i + 1] <= v {
        lemma_alive_from(n, rest, alive, v, i + 1)
    } else {
        assert(!alive[v] && rest[i] == rest[i]);
        i
    }
}

/// An alive vertex is one of `rest`.
proof fn lemma_alive_listed(n: int, rest: Seq<usize>, alive: Seq<bool>, v: int) -> (j: int)
    requires
        listed(n, rest, alive),
        0 <= v < n,
        alive[v],
    ensures
        0 <= j < rest.len(),
        rest[j] == v,
{
    reveal(listed);
    if v < rest[0] {
        assert(!alive[v]);
        0
    } else {
        lemma_alive_from(n, rest, alive, v, 0)
    }
}

/// Consecutive vertices of `rest`, the last with the first, are edges of
/// what is left.
proof fn lemma_listed_edge(n: int, rest: Seq<usize>, alive: Seq<bool>, j: int)
    requires
        listed(n, rest, alive),
        rest.len() >= 2,
        0 <= j < rest.len(),
    ensures
        rest_edge(alive, rest[j] as int, rest[if j + 1 == rest.len() { 0 } else { j + 1 }] as int),
{
    reveal(listed);
    let a = rest[j] as int;
    let b = rest[if j + 1 == rest.len() { 0 } else { j + 1 }] as int;
    assert forall|v: int| 0 <= v < alive.len() && cyc_between(a, v, b) implies !#[trigger] alive[v] by {
        if j + 1 < rest.len() {
            assert(rest[j] == rest[j]);
        }
    }
}

/// The ear at position `k` of `rest`: the vertex there with its neighbours.
spec fn ear(rest: Seq<usize>, k: int) -> (usize, usize, usize) {
    (
        rest[if k == 0 { rest.len() - 1 } else { k - 1 }],
        rest[k],
        rest[if k + 1 == rest.len() { 0 } else { k + 1 }],
    )
}

proof fn lemma_cyc_rotate(p: int, a: int, c: int)
    requires
        p != a,
        a != c,
        p != c,
    ensures
        !cyc_between(p, a, c) ==> cyc_between(a, p, c),
        !cyc_between(p, a, c) ==> cyc_between(p, c, a),
{
}

proof fn lemma_cyc_split(p: int, c: int, x: int, v: int)
    requires
        cyc_between(p, c, x),
        cyc_between(p, v, x),
        v != c,
    ensures
        cyc_between(p, v, c) || cyc_between(c, v, x),
{
}

proof fn lemma_cyc_unique(a: int, b: int, p: int, c: int, x: int)
    requires
        p != c,
        c != x,
        p != x,
        a != c,
        b != c,
        a != b,
        cyc_between(p, c, x),
        a != p ==> !cyc_between(p, a, c),
        a != x ==> !cyc_between(c, a, x),
        b != p ==> !cyc_between(p, b, c),
        b != x ==> !cyc_between(c, b, x),
        p != a && p != b ==> !cyc_between(a, p, b),
        x != a && x != b ==> !cyc_between(a, x, b),
        cyc_between(a, c, b),
    ensures
        a == p && b == x,
{
}

/// Edge counts are never negative.
proof fn lemma_edge_count_nonneg(tris: Seq<(usize, usize, usize)>, a: int, b: int)
    ensures
        edge_count(tris, a, b) >= 0,
    decreases tris.len(),
{
    if tris.len() > 0 {
        lemma_edge_count_nonneg(tris.drop_last(), a, b);
    }
}

/// The vertices around the ear at `k`, and the edges of what is left once
/// its middle vertex is cut.
proof fn lemma_cut_edges(n: int, rest: Seq<usize>, alive: Seq<bool>, k: int)
    requires
        listed(n, rest, alive),
        rest.len() > 3,
        0 <= k < rest.len(),
    ensures
        ({
            let (p, c, x) = ear(rest, k);
            let alive2 = alive.update(c as int, false);
            &&& p != c && c != x && p != x
            &&& alive[p as int] && alive[c as int] && alive[x as int]
            &&& p < n && c < n && x < n
            &&& !rest_edge(alive, p as int, x as int)
            &&& !rest_edge(alive, x as int, p as int)
            &&& forall|a: int, b: int|
                0 <= a < n && 0 <= b < n ==> #[trigger] rest_edge(alive2, a, b) == ((rest_edge(alive, a, b) && a != c
                    && b != c) || (a == p && b == x))
            &&& forall|a: int, b: int|
                0 <= a < n && 0 <= b < n && #[trigger] rest_edge(alive, a, b) && (a == c || b == c) ==> (a == p && b
                    == c) || (a == c && b == x)
        }),
{
    reveal(listed);
    let m = rest.len() as int;
    let kp = if k == 0 { m - 1 } else { k - 1 };
    let kx = if k + 1 == m { 0 } else { k + 1 };
    let ky = if kx + 1 == m { 0 } else { kx + 1 };
    let p = rest[kp] as int;
    let c = rest[k] as int;
    let x = rest[kx] as int;
    let y = rest[ky] as int;
    let alive2 = alive.update(c, false);
    assert(p != c && c != x && p != x && y != p && y != c && y != x);
    lemma_listed_edge(n, rest, alive, kp);
    lemma_listed_edge(n, rest, alive, k);
    assert(rest_edge(alive, p, c));
    assert(rest_edge(alive, c, x));
    assert(cyc_between(p, c, x));
    assert(cyc_between(x, y, p));
    assert(alive[c] && alive[y] && alive[p] && alive[x]);
    assert(!rest_edge(alive, p, x));
    assert(!rest_edge(alive, x, p));
    assert forall|a: int, b: int| 0 <= a < n && 0 <= b < n implies #[trigger] rest_edge(alive2, a, b) == (
    (rest_edge(alive, a, b) && a != c && b != c) || (a == p && b == x)) by {
        if a == p && b == x {
            assert forall|v: int| 0 <= v < alive2.len() && cyc_between(a, v, b) implies !#[trigger] alive2[v] by {
                if v != c {
                    lemma_cyc_split(p, c, x, v);
                    assert(!alive[v]);
                }
            }
        } else if rest_edge(alive2, a, b) {
            assert(alive[a] && alive[b] && alive2[p] && alive2[x]);
            if cyc_between(a, c, b) {
                lemma_cyc_unique(a, b, p, c, x);
            }
            assert forall|v: int| 0 <= v < alive.len() && cyc_between(a, v, b) implies !#[trigger] alive[v] by {
                assert(!alive2[v]);
            }
        } else if rest_edge(alive, a, b) && a != c && b != c {
            assert forall|v: int| 0 <= v < alive2.len() && cyc_between(a, v, b) implies !#[trigger] alive2[v] by {
                assert(!alive[v]);
            }
        }
    }
    assert forall|a: int, b: int|
        0 <= a < n && 0 <= b < n && #[trigger] rest_edge(alive, a, b) && (a == c || b == c) implies (a == p && b == c)
        || (a == c && b == x) by {
        if a == c && b != x {
            assert(alive[b]);
            lemma_cyc_rotate(c, b, x);
            assert(alive[x]);
        }
        if b == c && a != p {
            assert(alive[a]);
            lemma_cyc_rotate(p, a, c);
            assert(alive[p]);
        }
    }
}

/// After the cut, `rest` without the ear's middle still lists what is left.
proof fn lemma_cut_listed(n: int, rest: Seq<usize>, alive: Seq<bool>, k: int)
    requires
        listed(n, rest, alive),
        rest.len() > 3,
        0 <= k < rest.len(),
    ensures
        listed(n, rest.remove(k), alive.update(rest[k] as int, false)),
{
    reveal(listed);
    let m = rest.len() as int;
    let c = rest[k] as int;
    let alive2 = alive.update(c, false);
    let rest2 = rest.remove(k);
    assert(rest2.len() == m - 1);
    assert forall|j: int| 0 <= j < rest2.len() implies rest2[j] == (if j < k { rest[j] } else { rest[j + 1] }) by {}
    assert forall|j: int| 0 <= j < rest2.len() implies #[trigger] rest2[j] < n by {
        assert(rest2[j] == (if j < k { rest[j] } else { rest[j + 1] }));
    }
    assert forall|j: int, l: int| 0 <= j < l < rest2.len() implies rest2[j] < rest2[l] by {
        assert(rest2[j] == (if j < k { rest[j] } else { rest[j + 1] }));
        assert(rest2[l] == (if l < k { rest[l] } else { rest[l + 1] }));
    }
    assert forall|j: int| 0 <= j < rest2.len() implies alive2[#[trigger] rest2[j] as int] by {
        assert(rest2[j] == (if j < k { rest[j] } else { rest[j + 1] }));
    }
    assert forall|j: int, v: int| 0 <= j < rest2.len() - 1 && rest2[j] < v < rest2[j + 1] && v < n implies !#[trigger] alive2[v]
        && #[trigger] rest2[j] == rest2[j] by {
        assert(rest2[j] == (if j < k { rest[j] } else { rest[j + 1] }));
        assert(rest2[j + 1] == (if j + 1 < k { rest[j + 1] } else { rest[j + 2] }));
        if j + 1 < k {
            assert(!alive[v] && rest[j] == rest[j]);
        } else if j + 1 == k {
            if v < c {
                assert(!alive[v] && rest[j] == rest[j]);
            } else if v > c {
                assert(!alive[v] && rest[k] == rest[k]);
            }
        } else {
            assert(!alive[v] && rest[j + 1] == rest[j + 1]);
        }
    }
    assert forall|v: int| 0 <= v < rest2[0] implies !#[trigger] alive2[v] by {
        if k == 0 {
            assert(rest2[0] == rest[1]);
            if v > rest[0] {
                assert(!alive[v] && rest[0] == rest[0]);
            }
        } else {
            assert(rest2[0] == rest[0]);
        }
    }
    assert forall|v: int| rest2[rest2.len() - 1] < v < n implies !#[trigger] alive2[v] by {
        if k == m - 1 {
            assert(rest2[rest2.len() - 1] == rest[m - 2]);
            if v < rest[m - 1] {
                assert(!alive[v] && rest[m - 2] == rest[m - 2]);
            }
        } else {
            assert(rest2[rest2.len() - 1] == rest[m - 1]);
        }
    }
}

/// Cutting the ear at `k` keeps the listing, the edge uses and the link
/// between used segments and what is left.
proof fn lemma_clip(n: int, rest: Seq<usize>, alive: Seq<bool>, tris: Seq<(usize, usize, usize)>, k: int)
    requires
        n >= 3,
        listed(n, rest, alive),
        rest.len() > 3,
        0 <= k < rest.len(),
        pair_inv(n, tris, alive),
        touch_inv(n, tris, alive),
    ensures
        listed(n, rest.remove(k), alive.update(rest[k] as int, false)),
        pair_inv(n, tris.push(ear(rest, k)), alive.update(rest[k] as int, false)),
        touch_inv(n, tris.push(ear(rest, k)), alive.update(rest[k] as int, false)),
{
    reveal(listed);
    reveal(pair_inv);
    reveal(touch_inv);
    let t = ear(rest, k);
    let (p, c, x) = t;
    let (p, c, x) = (p as int, c as int, x as int);
    let alive2 = alive.update(c, false);
    let tris2 = tris.push(t);
    lemma_cut_listed(n, rest, alive, k);
    lemma_cut_edges(n, rest, alive, k);
    lemma_edge_count_nonneg(tris, p, x);
    lemma_edge_count_nonneg(tris, x, p);
    assert(sides(tris, alive, p, x) >= 0);
    assert(sides(tris, alive, p, x) == 0);
    assert(sides(tris, alive, x, p) == 0);
    assert forall|a: int, b: int| 0 <= a < n && 0 <= b < n && a != b implies #[trigger] sides(tris2, alive2, a, b)
        == sides(tris, alive, a, b) + ind(a == p && b == x) + ind(a == x && b == p) by {
        lemma_edge_count_push(tris, t, a, b);
        assert(rest_edge(alive2, a, b) == ((rest_edge(alive, a, b) && a != c && b != c) || (a == p && b == x)));
        if rest_edge(alive, a, b) && (a == c || b == c) {
            assert((a == p && b == c) || (a == c && b == x));
        }
    }
    assert forall|a: int, b: int| 0 <= a < n && 0 <= b < n && a != b implies {
        &&& poly_edge(n, a, b) ==> #[trigger] sides(tris2, alive2, a, b) == 1
        &&& poly_edge(n, b, a) ==> sides(tris2, alive2, a, b) == 0
        &&& !poly_edge(n, a, b) && !poly_edge(n, b, a) ==> sides(tris2, alive2, a, b) == sides(tris2, alive2, b, a)
            && sides(tris2, alive2, a, b) <= 1
    } by {
        assert(sides(tris2, alive2, a, b) == sides(tris, alive, a, b) + ind(a == p && b == x) + ind(a == x && b == p));
        assert(sides(tris2, alive2, b, a) == sides(tris, alive, b, a) + ind(b == p && a == x) + ind(b == x && a == p));
        assert(sides(tris, alive, p, x) == sides(tris, alive, p, x));
        assert(sides(tris, alive, x, p) == sides(tris, alive, x, p));
    }
    assert forall|a: int, b: int|
        0 <= a < n && 0 <= b < n && a != b && alive2[a] && alive2[b] && #[trigger] sides(tris2, alive2, a, b) >= 1
            implies rest_edge(alive2, a, b) || rest_edge(alive2, b, a) by {
        assert(sides(tris2, alive2, a, b) == sides(tris, alive, a, b) + ind(a == p && b == x) + ind(a == x && b == p));
        assert(rest_edge(alive2, a, b) == ((rest_edge(alive, a, b) && a != c && b != c) || (a == p && b == x)));
        assert(rest_edge(alive2, b, a) == ((rest_edge(alive, b, a) && b != c && a != c) || (b == p && a == x)));
    }
}

/// Before any cut, the polygon left is the whole polygon.
proof fn lemma_start(n: int, rest: Seq<usize>, alive: Seq<bool>)
    requires
        n >= 3,
        rest.len() == n,
        forall|j: int| 0 <= j < n ==> rest[j] == j,
        alive == Seq::new(n as nat, |i: int| true),
    ensures
        listed(n, rest, alive),
        pair_inv(n, Seq::<(usize, usize, usize)>::empty(), alive),
        touch_inv(n, Seq::<(usize, usize, usize)>::empty(), alive),
{
    reveal(listed);
    reveal(pair_inv);
    reveal(touch_inv);
    let tris = Seq::<(usize, usize, usize)>::empty();
    assert forall|a: int, b: int| 0 <= a < n && 0 <= b < n && a != b implies #[trigger] rest_edge(alive, a, b)
        == poly_edge(n, a, b) by {
        if !poly_edge(n, a, b) {
            let w = if a + 1 < n { a + 1 } else { 0 };
            assert(alive[w] && cyc_between(a, w, b));
        } else {
            assert forall|v: int| 0 <= v < alive.len() && cyc_between(a, v, b) implies !#[trigger] alive[v] by {}
        }
    }
    assert forall|a: int, b: int| 0 <= a < n && 0 <= b < n && a != b implies #[trigger] sides(tris, alive, a, b)
        == ind(poly_edge(n, a, b)) by {
        assert(rest_edge(alive, a, b) == poly_edge(n, a, b));
    }
    assert forall|a: int, b: int| 0 <= a < n && 0 <= b < n && a != b implies {
        &&& poly_edge(n, a, b) ==> #[trigger] sides(tris, alive, a, b) == 1
        &&& poly_edge(n, b, a) ==> sides(tris, alive, a, b) == 0
        &&& !poly_edge(n, a, b) && !poly_edge(n, b, a) ==> sides(tris, alive, a, b) == sides(tris, alive, b, a)
            && sides(tris, alive, a, b) <= 1
    } by {
        assert(sides(tris, alive, a, b) == ind(poly_edge(n, a, b)));
        assert(sides(tris, alive, b, a) == ind(poly_edge(n, b, a)));
    }
    assert forall|a: int, b: int|
        0 <= a < n && 0 <= b < n && a != b && alive[a] && alive[b] && #[trigger] sides(tris, alive, a, b) >= 1
            implies rest_edge(alive, a, b) || rest_edge(alive, b, a) by {
        assert(sides(tris, alive, a, b) == ind(poly_edge(n, a, b)));
        assert(rest_edge(alive, a, b) == poly_edge(n, a, b));
    }
}

/// The last three vertices left make the last triangle, and with it the
/// triangles cover the polygon.
proof fn lemma_finish(n: int, rest: Seq<usize>, alive: Seq<bool>, tris: Seq<(usize, usize, usize)>)
    requires
        n >= 3,
        rest.len() == 3,
        listed(n, rest, alive),
        pair_inv(n, tris, alive),
    ensures
        covers(n, tris.push((rest[0], rest[1], rest[2]))),
{
    reveal(listed);
    reveal(pair_inv);
    let t = (rest[0], rest[1], rest[2]);
    let tris2 = tris.push(t);
    let (r0, r1, r2) = (rest[0] as int, rest[1] as int, rest[2] as int);
    lemma_listed_edge(n, rest, alive, 0);
    lemma_listed_edge(n, rest, alive, 1);
    lemma_listed_edge(n, rest, alive, 2);
    assert(alive[r0] && alive[r1] && alive[r2]);
    assert forall|a: int, b: int| 0 <= a < n && 0 <= b < n && a != b implies #[trigger] edge_count(tris2, a, b)
        == sides(tris, alive, a, b) by {
        lemma_edge_count_push(tris, t, a, b);
        if rest_edge(alive, a, b) {
            let ja = lemma_alive_listed(n, rest, alive, a);
            let jb = lemma_alive_listed(n, rest, alive, b);
            if ja == 1 && jb == 0 {
                assert(cyc_between(a, r2, b));
            } else if ja == 2 && jb == 1 {
                assert(cyc_between(a, r0, b));
            } else if ja == 0 && jb == 2 {
                assert(cyc_between(a, r1, b));
            }
        }
    }
    assert forall|a: int, b: int| 0 <= a < n && 0 <= b < n && a != b implies {
        &&& poly_edge(n, a, b) ==> #[trigger] edge_count(tris2, a, b) == 1
        &&& poly_edge(n, b, a) ==> edge_count(tris2, a, b) == 0
        &&& !poly_edge(n, a, b) && !poly_edge(n, b, a) ==> edge_count(tris2, a, b) == edge_count(tris2, b, a)
            && edge_count(tris2, a, b) <= 1
    } by {
        assert(edge_count(tris2, a, b) == sides(tris, alive, a, b));
        assert(edge_count(tris2, b, a) == sides(tris, alive, b, a));
    }
}

/// `cross`, computed exactly.
fn cross_exec(a: (i32, i32), b: (i32, i32), c: (i32, i32)) -> (r: i128)
    ensures
        r == cross(a, b, c),
{
    let abx: i128 = b.0 as i128 - a.0 as i128;
    let aby: i128 = b.1 as i128 - a.1 as i128;
    let acx: i128 = c.0 as i128 - a.0 as i128;
    let acy: i128 = c.1 as i128 - a.1 as i128;
    proof {
        bound_product(abx as int, acy as int);
        bound_product(aby as int, acx as int);
    }
    abx * acy - aby * acx
}

/// The product of two differences of `i32` values is well within `i128`.
proof fn bound_product(a: int, b: int)
    requires
        -0x1_0000_0000 <= a <= 0x1_0000_0000,
        -0x1_0000_0000 <= b <= 0x1_0000_0000,
    ensures
        -0x1_0000_0000_0000_0000 <= a * b <= 0x1_0000_0000_0000_0000,
{
    assert(-0x1_0000_0000_0000_0000 <= a * b <= 0x1_0000_0000_0000_0000) by (nonlinear_arith)
        requires
            -0x1_0000_0000 <= a <= 0x1_0000_0000,
            -0x1_0000_0000 <= b <= 0x1_0000_0000,
    ;
}

/// Whether `turn` turns the way `sign` says, strictly.
fn agrees(sign: i128, turn: i128) -> (r: bool)
    requires
        sign == 1 || sign == -1,
    ensures
        r == (sign * turn > 0),
{
    proof {
        if sign == 1 {
            assert(sign * turn == turn);
        } else {
            assert(sign * turn == -turn);
        }
    }
    if sign > 0 {
        turn > 0
    } else {
        turn < 0
    }
}

/// Whether `p` lies inside the triangle `a`, `b`, `c` or on its border,
/// for a triangle turning the way `sign` says.
fn in_triangle(a: (i32, i32), b: (i32, i32), c: (i32, i32), p: (i32, i32), sign: i128) -> (r: bool)
    requires
        sign == 1 || sign == -1,
    ensures
        r == if sign > 0 {
            cross(a, b, p) >= 0 && cross(b, c, p) >= 0 && cross(c, a, p) >= 0
        } else {
            cross(a, b, p) <= 0 && cross(b, c, p) <= 0 && cross(c, a, p) <= 0
        },
{
    let d1 = cross_exec(a, b, p);
    let d2 = cross_exec(b, c, p);
    let d3 = cross_exec(c, a, p);
    if sign > 0 {
        d1 >= 0 && d2 >= 0 && d3 >= 0
    } else {
        d1 <= 0 && d2 <= 0 && d3 <= 0
    }
}

/// Index of the lowest vertex, the leftmost among the lowest.
fn lowest_vertex(pts: &Vec<(i32, i32)>) -> (r: usize)
    requires
        pts@.len() > 0,
    ensures
        r < pts@.len(),
        forall|j: int|
            0 <= j < pts@.len() ==> pts@[r as int].1 < #[trigger] pts@[j].1 || (pts@[r as int].1 == pts@[j].1
                && pts@[r as int].0 <= pts@[j].0),
{
    let mut best: usize = 0;
    let mut i: usize = 1;
    while i < pts.len()
        invariant
            best < pts@.len(),
            1 <= i <= pts@.len(),
            forall|j: int|
                0 <= j < i ==> pts@[best as int].1 < #[trigger] pts@[j].1 || (pts@[best as int].1 == pts@[j].1
                    && pts@[best as int].0 <= pts@[j].0),
        decreases pts@.len() - i,
    {
        let p = pts[i];
        let q = pts[best];
        if p.1 < q.1 || (p.1 == q.1 && p.0 < q.0) {
            best = i;
        }
        i = i + 1;
    }
    best
}

/// Cuts the polygon `pts` into triangles of indices into `pts`.
///
/// A polygon of fewer than three vertices has no triangles. Otherwise there
/// are two fewer triangles than vertices, each of three distinct vertices,
/// and all turning strictly the same way. A strictly convex polygon is
/// always cut. Where no ear can be cut, or a triangle would be flat, the
/// polygon is degenerate and the cut fails.
pub fn triangulate(pts: &Vec<(i32, i32)>) -> (r: Result<Vec<(usize, usize, usize)>, crate::backend::EguiBackendError>)
    ensures
        pts@.len() < 3 ==> r is Ok && r->Ok_0@.len() == 0,
        pts@.len() == 3 ==> (r is Ok <==> cross(pts@[0], pts@[1], pts@[2]) != 0),
        pts@.len() >= 3 && strictly_convex(pts@) ==> r is Ok,
        r is Err ==> pts@.len() >= 3 && !strictly_convex(pts@),
        r is Ok ==> is_triangulation(pts@, r->Ok_0@),
{
    let n = pts.len();
    let mut tris: Vec<(usize, usize, usize)> = Vec::new();
    if n < 3 {
        return Ok(tris);
    }
    let low = lowest_vertex(pts);
    let before = if low == 0 { n - 1 } else { low - 1 };
    let after = if low + 1 == n { 0 } else { low + 1 };
    let turn = cross_exec(pts[before], pts[low], pts[after]);
    proof {
        if n == 3 {
            lemma_cross_rotate(pts@[0], pts@[1], pts@[2]);
        }
    }
    proof {
        if convex_edges_with(pts@, 1) {
            lemma_edges_triples(pts@, 1);
        }
        if convex_edges_with(pts@, -1) {
            lemma_edges_triples(pts@, -1);
        }
        if strictly_convex(pts@) {
            let s: int = if convex_with(pts@, 1) { 1 } else { -1 };
            lemma_cross_rotate(pts@[before as int], pts@[low as int], pts@[after as int]);
            if low == 0 {
                lemma_convex_triple(pts@, s, 0, 1, n - 1);
            } else if low + 1 == n {
                lemma_convex_triple(pts@, s, 0, n - 2, n - 1);
            } else {
                lemma_convex_triple(pts@, s, low - 1, low as int, low + 1);
            }
            lemma_sign_neg(s, turn as int);
        }
    }
    if turn == 0 {
        return Err(crate::backend::EguiBackendError);
    }
    let sign: i128 = if turn > 0 { 1 } else { -1 };
    proof {
        if strictly_convex(pts@) {
            lemma_sign_neg(1, turn as int);
            lemma_sign_neg(-1, turn as int);
            if convex_with(pts@, 1) {
                lemma_cross_rotate(pts@[before as int], pts@[low as int], pts@[after as int]);
                if low == 0 {
                    lemma_convex_triple(pts@, 1, 0, 1, n - 1);
                } else if low + 1 == n {
                    lemma_convex_triple(pts@, 1, 0, n - 2, n - 1);
                } else {
                    lemma_convex_triple(pts@, 1, low - 1, low as int, low + 1);
                }
            }
            assert(convex_with(pts@, sign as int));
        }
    }
    proof {
        if n == 3 {
            assert(sign * turn > 0) by (nonlinear_arith)
                requires
                    sign == 1 && turn > 0 || sign == -1 && turn < 0,
            ;
            if low == 0 {
                assert(turn == cross(pts@[2], pts@[0], pts@[1]));
            } else if low == 1 {
                assert(turn == cross(pts@[0], pts@[1], pts@[2]));
            } else {
                assert(turn == cross(pts@[1], pts@[2], pts@[0]));
            }
        }
    }

    let mut rest: Vec<usize> = Vec::new();
    let mut i: usize = 0;
    while i < n
        invariant
            i <= n == pts@.len(),
            rest@.len() == i,
            forall|j: int| 0 <= j < i ==> rest@[j] == j,
        decreases n - i,
    {
        rest.push(i);
        i = i + 1;
    }
    proof {
        if n == 3 {
            assert(rest@ =~= seq![0usize, 1usize, 2usize]);
        }
    }
    let ghost mut alive: Seq<bool> = Seq::new(n as nat, |i: int| true);
    proof {
        lemma_start(n as int, rest@, alive);
        assert(tris@ =~= Seq::<(usize, usize, usize)>::empty());
    }

    while rest.len() > 3
        invariant
            n == pts@.len(),
            n >= 3,
            sign == 1 || sign == -1,
            3 <= rest@.len() <= n,
            tris@.len() + rest@.len() == n,
            forall|j: int| 0 <= j < rest@.len() ==> #[trigger] rest@[j] < n,
            forall|j: int, k: int| 0 <= j < k < rest@.len() ==> rest@[j] < rest@[k],
            strictly_convex(pts@) ==> convex_with(pts@, sign as int),
            forall|t: int| 0 <= t < tris@.len() ==> valid_triangle(n as int, #[trigger] tris@[t]),
            forall|t: int| 0 <= t < tris@.len() ==> sign * tri_cross(pts@, #[trigger] tris@[t]) > 0,
            n == 3 ==> rest@ == seq![0usize, 1usize, 2usize],
            n == 3 ==> sign * cross(pts@[0], pts@[1], pts@[2]) > 0,
            listed(n as int, rest@, alive),
            pair_inv(n as int, tris@, alive),
            touch_inv(n as int, tris@, alive),
        decreases rest@.len(),
    {
        let m = rest.len();
        let mut found: Option<usize> = None;
        let mut k: usize = 0;
        while k < m && found.is_none()
            invariant
                m == rest@.len(),
                k <= m,
                found matches Some(f) ==> f < m,
                n == pts@.len(),
                m > 3,
                sign == 1 || sign == -1,
                forall|j: int| 0 <= j < m ==> #[trigger] rest@[j] < n,
                forall|j: int, l: int| 0 <= j < l < m ==> rest@[j] < rest@[l],
                strictly_convex(pts@) ==> convex_with(pts@, sign as int),
                strictly_convex(pts@) && k > 0 ==> found == Some(0usize),
            decreases m - k + (if found is None { 1int } else { 0int }),
        {
            let prev = rest[if k == 0 { m - 1 } else { k - 1 }];
            let cur = rest[k];
            let next = rest[if k + 1 == m { 0 } else { k + 1 }];
            let a = pts[prev];
            let b = pts[cur];
            let c = pts[next];
            let turn = cross_exec(a, b, c);
            proof {
                if strictly_convex(pts@) && k == 0 {
                    lemma_cross_rotate(a, b, c);
                    lemma_convex_triple(pts@, sign as int, rest@[0] as int, rest@[1] as int, rest@[m - 1] as int);
                }
            }
            if agrees(sign, turn) {
                let mut empty = true;
                let mut q: usize = 0;
                while q < m && empty
                    invariant
                        m == rest@.len(),
                        q <= m,
                        forall|j: int| 0 <= j < m ==> #[trigger] rest@[j] < pts@.len(),
                        forall|j: int, l: int| 0 <= j < l < m ==> rest@[j] < rest@[l],
                        sign == 1 || sign == -1,
                        m > 3,
                        k == 0 ==> prev == rest@[m - 1] && cur == rest@[0] && next == rest@[1],
                        a == pts@[prev as int],
                        b == pts@[cur as int],
                        c == pts@[next as int],
                        strictly_convex(pts@) ==> convex_with(pts@, sign as int),
                        strictly_convex(pts@) && k == 0 ==> empty,
                    decreases m - q,
                {
                    let v = rest[q];
                    proof {
                        if strictly_convex(pts@) && k == 0 && v != prev && v != cur && v != next {
                            assert(q != 0 && q != 1 && q != m - 1);
                            lemma_convex_triple(pts@, sign as int, rest@[1] as int, v as int, rest@[m - 1] as int);
                            lemma_cross_swap(c, pts@[v as int], a);
                            lemma_sign_neg(sign as int, cross(c, pts@[v as int], a));
                        }
                    }
                    if v != prev && v != cur && v != next && in_triangle(a, b, c, pts[v], sign) {
                        empty = false;
                    }
                    q = q + 1;
                }
                if empty {
                    found = Some(k);
                }
            }
            proof {
                if strictly_convex(pts@) && k == 0 {
                    lemma_sign_neg(sign as int, turn as int);
                }
            }
            k = k + 1;
        }
        match found {
            Some(k) => {
                let prev = rest[if k == 0 { m - 1 } else { k - 1 }];
                let cur = rest[k];
                let next = rest[if k + 1 == m { 0 } else { k + 1 }];
                let turn = cross_exec(pts[prev], pts[cur], pts[next]);
                proof {
                    if strictly_convex(pts@) {
                        lemma_cross_rotate(pts@[prev as int], pts@[cur as int], pts@[next as int]);
                        lemma_convex_triple(pts@, sign as int, rest@[0] as int, rest@[1] as int, rest@[m - 1] as int);
                        lemma_sign_neg(sign as int, turn as int);
                    }
                }
                if !agrees(sign, turn) {
                    return Err(crate::backend::EguiBackendError);
                }
                proof {
                    lemma_clip(n as int, rest@, alive, tris@, k as int);
                    assert(ear(rest@, k as int) == (prev, cur, next));
                }
                tris.push((prev, cur, next));
                let ghost old_rest = rest@;
                rest.remove(k);
                proof {
                    alive = alive.update(cur as int, false);
                    assert forall|j: int| 0 <= j < rest@.len() implies #[trigger] rest@[j] < n by {
                        if j < k {
                            assert(rest@[j] == old_rest[j]);
                        } else {
                            assert(rest@[j] == old_rest[j + 1]);
                        }
                    }
                    assert forall|j: int, l: int| 0 <= j < l < rest@.len() implies rest@[j] < rest@[l] by {
                        let oj = if j < k { j } else { j + 1 };
                        let ol = if l < k { l } else { l + 1 };
                        assert(rest@[j] == old_rest[oj]);
                        assert(rest@[l] == old_rest[ol]);
                    }
                }
            },
            None => {
                return Err(crate::backend::EguiBackendError);
            },
        }
    }
    let last = (rest[0], rest[1], rest[2]);
    let turn = cross_exec(pts[last.0], pts[last.1], pts[last.2]);
    proof {
        if strictly_convex(pts@) {
            lemma_convex_triple(pts@, sign as int, rest@[0] as int, rest@[1] as int, rest@[2] as int);
        }
    }
    if !agrees(sign, turn) {
        return Err(crate::backend::EguiBackendError);
    }
    proof {
        lemma_finish(n as int, rest@, alive, tris@);
    }
    tris.push(last);
    proof {
        assert forall|t: int| 0 <= t < tris@.len() implies sign * tri_cross(pts@, #[trigger] tris@[t]) > 0 by {}
    }
    Ok(tris)
}

} // verus!
