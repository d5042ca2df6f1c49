//! Line rasterization by Bresenham's integer error stepping.
use vstd::prelude::*;
use crate::fixed::{c32, div_floor, floor_div, saturate, ONE};
use crate::fragment::Fragment;
use crate::vector::Vec3;
use crate::vertex::Vertex;

verus! {

/// Position and error term of the stepping.
#[derive(Clone, Copy, Debug, PartialEq, Eq, Structural)]
pub struct LineState {
    pub x: i64,
    pub y: i64,
    pub err: i64,
}

/// The pixel of a fixed-point coordinate, truncated toward zero.
pub open spec fn trunc_px(v: int) -> int {
    if v >= 0 { v / (ONE as int) } else { -((-v) / (ONE as int)) }
}

pub open spec fn iabs(v: int) -> int {
    if v < 0 { -v } else { v }
}

/// Start pixel, end pixel, extents and directions of the segment `a b`.
pub struct LineSetup {
    pub x0: int,
    pub y0: int,
    pub x1: int,
    pub y1: int,
    pub dx: int,
    pub dy: int,
    pub sx: int,
    pub sy: int,
}

pub open spec fn setup(a: Vertex, b: Vertex) -> LineSetup {
    let (x0, y0) = (trunc_px(a.transformed_position.x as int), trunc_px(a.transformed_position.y as int));
    let (x1, y1) = (trunc_px(b.transformed_position.x as int), trunc_px(b.transformed_position.y as int));
    LineSetup {
        x0,
        y0,
        x1,
        y1,
        dx: iabs(x1 - x0),
        dy: iabs(y1 - y0),
        sx: if x0 < x1 { 1 } else { -1 },
        sy: if y0 < y1 { 1 } else { -1 },
    }
}

/// The first state: at the start pixel, with half the major extent as error.
pub open spec fn initial(s: LineSetup) -> LineState {
    LineState {
        x: s.x0 as i64,
        y: s.y0 as i64,
        err: (if s.dx > s.dy { s.dx / 2 } else { -(s.dy / 2) }) as i64,
    }
}

/// One step: along x while the error exceeds `-dx`, along y while it is
/// below `dy`.
pub open spec fn step(s: LineSetup, st: LineState) -> LineState {
    let e2 = st.err as int;
    let (x, err) = if e2 > -s.dx { (st.x + s.sx, st.err - s.dy) } else { (st.x as int, st.err as int) };
    let (y, err) = if e2 < s.dy { (st.y + s.sy, err + s.dx) } else { (st.y as int, err) };
    LineState { x: x as i64, y: y as i64, err: err as i64 }
}

/// The state after `n` steps.
pub open spec fn state_at(s: LineSetup, n: nat) -> LineState
    decreases n,
{
    if n == 0 {
        initial(s)
    } else {
        step(s, state_at(s, (n - 1) as nat))
    }
}

pub open spec fn at_end(s: LineSetup, st: LineState) -> bool {
    st.x == s.x1 && st.y == s.y1
}

/// Number of steps from the start pixel to the end pixel: the major extent.
pub open spec fn major(s: LineSetup) -> int {
    if s.dx > s.dy { s.dx } else { s.dy }
}

/// Depth at pixel column `x`: linear in x between the end depths, or the
/// start depth for a segment less than a thousandth of a pixel wide.
pub open spec fn line_depth(a: Vertex, b: Vertex, x: int) -> i32 {
    let (p, q) = (a.transformed_position, b.transformed_position);
    let w = q.x - p.x;
    if iabs(w) > 10 {
        c32(p.z + floor_div((q.z - p.z) * ((x - trunc_px(p.x as int)) * ONE), w))
    } else {
        p.z
    }
}

pub open spec fn line_fragment(a: Vertex, b: Vertex, st: LineState) -> Fragment {
    Fragment {
        x: st.x as i32,
        y: st.y as i32,
        color: Vec3 { x: ONE, y: ONE, z: ONE },
        depth: line_depth(a, b, st.x as int),
    }
}

fn trunc_px_exec(v: i32) -> (r: i64)
    ensures
        r == trunc_px(v as int),
        -214749 <= r <= 214749,
{
    if v >= 0 {
        (v / ONE) as i64
    } else {
        0 - ((0 - (v as i64)) / (ONE as i64))
    }
}

fn depth_at(a: &Vertex, b: &Vertex, x: i64) -> (z: i32)
    requires
        -0x100_0000 <= x <= 0x100_0000,
    ensures
        z == line_depth(*a, *b, x as int),
{
    let (p, q) = (a.transformed_position, b.transformed_position);
    let w = q.x as i64 - p.x as i64;
    let aw = if w < 0 { 0 - w } else { w };
    if aw > 10 {
        let k = (x as i128 - trunc_px_exec(p.x) as i128) * 10000;
        let dz = q.z as i128 - p.z as i128;
        proof {
            assert(-0x1_0000_0000_0000_0000_0000 <= dz * k <= 0x1_0000_0000_0000_0000_0000) by (nonlinear_arith)
                requires
                    -0x1_0000_0000 <= dz <= 0x1_0000_0000,
                    -0x200_0000 * 10000 <= k <= 0x200_0000 * 10000,
            ;
        }
        saturate(p.z as i128 + div_floor(dz * k, w as i128))
    } else {
        p.z
    }
}

/// What the stepping keeps true: the error term against the steps made along
/// each axis, and the bounds that keep every step toward the end pixel.
pub open spec fn stepping_inv(s: LineSetup, st: LineState, n: int) -> bool {
    let ex = (st.x - s.x0) * s.sx;
    let ey = (st.y - s.y0) * s.sy;
    let e0 = initial(s).err as int;
    let d = s.dx * ey - s.dy * ex;
    &&& 0 <= ex <= s.dx
    &&& 0 <= ey <= s.dy
    &&& st.err == e0 + d
    &&& s.dx > s.dy ==> ex == n && -s.dx < d <= s.dx - 1 - e0 && st.err >= -s.dy
    &&& s.dx <= s.dy ==> ey == n && (s.dy == 0 || (d < s.dy && -s.dy < st.err))
        && (st.err < s.dx || (s.dx == 0 && st.err <= 0))
}

#[verifier::spinoff_prover]
proof fn lemma_initial_inv(s: LineSetup)
    requires
        s.dx >= 0,
        s.dy >= 0,
        -0x1000_0000 <= s.x0 <= 0x1000_0000,
        -0x1000_0000 <= s.y0 <= 0x1000_0000,
        s.dx <= 0x1000_0000,
        s.dy <= 0x1000_0000,
    ensures
        stepping_inv(s, state_at(s, 0), 0),
{
    let st = state_at(s, 0);
    assert(st == initial(s));
    assert(st.x == s.x0 && st.y == s.y0);
    let (sx, sy, dx, dy) = (s.sx, s.sy, s.dx, s.dy);
    assert((s.x0 - s.x0) * sx == 0) by (nonlinear_arith);
    assert((s.y0 - s.y0) * sy == 0) by (nonlinear_arith);
    assert(dx * 0 - dy * 0 == 0) by (nonlinear_arith);
    let e0 = initial(s).err as int;
    if dx > dy {
        assert(e0 == dx / 2);
    } else {
        assert(e0 == -(dy / 2));
    }
}

#[verifier::spinoff_prover]
proof fn lemma_step_keeps_inv(s: LineSetup, st: LineState, n: int)
    requires
        s.dx >= 0,
        s.dy >= 0,
        s.sx == 1 || s.sx == -1,
        s.sy == 1 || s.sy == -1,
        s.x1 == s.x0 + s.sx * s.dx,
        s.y1 == s.y0 + s.sy * s.dy,
        stepping_inv(s, st, n),
        !at_end(s, st),
        s.dx <= 0x1000_0000,
        s.dy <= 0x1000_0000,
        -0x1000_0000 <= st.x <= 0x1000_0000,
        -0x1000_0000 <= st.y <= 0x1000_0000,
        -0x1000_0000 <= st.err <= 0x1000_0000,
    ensures
        n < major(s),
        stepping_inv(s, step(s, st), n + 1),
        st.x - 1 <= step(s, st).x <= st.x + 1,
        st.y - 1 <= step(s, st).y <= st.y + 1,
{
    let ex = (st.x - s.x0) * s.sx;
    let ey = (st.y - s.y0) * s.sy;
    let (dx, dy) = (s.dx, s.dy);
    let e0 = initial(s).err as int;
    let e = st.err as int;
    let nx = step(s, st);
    let ex2 = (nx.x - s.x0) * s.sx;
    let ey2 = (nx.y - s.y0) * s.sy;
    assert(s.sx * s.sx == 1 && s.sy * s.sy == 1) by (nonlinear_arith)
        requires
            s.sx == 1 || s.sx == -1,
            s.sy == 1 || s.sy == -1,
    ;
    assert(ex == dx ==> st.x == s.x1) by (nonlinear_arith)
        requires
            ex == (st.x - s.x0) * s.sx,
            s.x1 == s.x0 + s.sx * dx,
            s.sx * s.sx == 1,
    ;
    assert(ey == dy ==> st.y == s.y1) by (nonlinear_arith)
        requires
            ey == (st.y - s.y0) * s.sy,
            s.y1 == s.y0 + s.sy * dy,
            s.sy * s.sy == 1,
    ;
    let xs = e > -dx;
    let ys = e < dy;
    assert(nx.x == st.x + (if xs { s.sx } else { 0 }));
    assert(nx.y == st.y + (if ys { s.sy } else { 0 }));
    assert(ex2 == ex + (if xs { 1int } else { 0int })) by (nonlinear_arith)
        requires
            ex == (st.x - s.x0) * s.sx,
            ex2 == (nx.x - s.x0) * s.sx,
            nx.x == st.x + (if xs { s.sx } else { 0 }),
            s.sx * s.sx == 1,
    ;
    assert(ey2 == ey + (if ys { 1int } else { 0int })) by (nonlinear_arith)
        requires
            ey == (st.y - s.y0) * s.sy,
            ey2 == (nx.y - s.y0) * s.sy,
            nx.y == st.y + (if ys { s.sy } else { 0 }),
            s.sy * s.sy == 1,
    ;
    let d = dx * ey - dy * ex;
    let d2 = dx * ey2 - dy * ex2;
    assert(d2 == d + (if ys { dx } else { 0 }) - (if xs { dy } else { 0 })) by (nonlinear_arith)
        requires
            d == dx * ey - dy * ex,
            d2 == dx * ey2 - dy * ex2,
            ex2 == ex + (if xs { 1int } else { 0int }),
            ey2 == ey + (if ys { 1int } else { 0int }),
    ;
    if dx > dy {
        assert(e0 == dx / 2);
        if ex == dx {
            assert(dx * ey - dy * dx > -dx);
            assert(ey >= dy) by (nonlinear_arith)
                requires
                    dx * ey - dy * dx > -dx,
                    dx > 0,
            ;
        }
        assert(ex < dx);
        if ey == dy {
            assert(e >= dy) by (nonlinear_arith)
                requires
                    e == e0 + dx * dy - dy * ex,
                    ex < dx,
                    e0 >= 0,
                    dy >= 0,
            ;
        }
    } else {
        assert(e0 == -(dy / 2));
        if ey == dy {
            assert(dx * dy - dy * ex < dy);
            assert(ex >= dx) by (nonlinear_arith)
                requires
                    dx * dy - dy * ex < dy,
                    dy > 0,
            ;
        }
        assert(ey < dy);
        if ex == dx {
            assert(e <= -dx) by (nonlinear_arith)
                requires
                    e == e0 + dx * ey - dy * dx,
                    ey < dy,
                    e0 <= 0,
                    dx >= 0,
            ;
        }
    }
}

/// The fragments of the segment from `a` to `b` (screen positions truncated
/// to pixels), white, one per Bresenham step from the start pixel to the end
/// pixel: `max(dx, dy) + 1` of them.
#[verifier::spinoff_prover]
pub fn line(a: &Vertex, b: &Vertex) -> (r: Vec<Fragment>)
    ensures
        r@.len() == major(setup(*a, *b)) + 1,
        forall|i: int| 0 <= i < r@.len() ==> r@[i] == line_fragment(*a, *b, state_at(setup(*a, *b), i as nat)),
        forall|i: int| 0 <= i < r@.len() - 1 ==> !at_end(setup(*a, *b), #[trigger] state_at(setup(*a, *b), i as nat)),
        at_end(setup(*a, *b), state_at(setup(*a, *b), major(setup(*a, *b)) as nat)),
{
    let ghost s = setup(*a, *b);
    let mut x0 = trunc_px_exec(a.transformed_position.x);
    let mut y0 = trunc_px_exec(a.transformed_position.y);
    let x1 = trunc_px_exec(b.transformed_position.x);
    let y1 = trunc_px_exec(b.transformed_position.y);
    let dx = if x1 >= x0 { x1 - x0 } else { x0 - x1 };
    let dy = if y1 >= y0 { y1 - y0 } else { y0 - y1 };
    let sx: i64 = if x0 < x1 { 1 } else { -1 };
    let sy: i64 = if y0 < y1 { 1 } else { -1 };
    let mut err: i64 = if dx > dy { dx / 2 } else { 0 - dy / 2 };
    let mut fragments: Vec<Fragment> = Vec::new();
    let ghost mut n: int = 0;
    proof {
        lemma_initial_inv(s);
        let (sxi, syi, dxi, dyi) = (s.sx, s.sy, s.dx, s.dy);
        if s.x0 < s.x1 {
            assert(sxi == 1 && dxi == s.x1 - s.x0);
            assert(sxi * dxi == dxi) by (nonlinear_arith)
                requires
                    sxi == 1,
            ;
        } else {
            assert(sxi == -1 && dxi == s.x0 - s.x1);
            assert(sxi * dxi == -dxi) by (nonlinear_arith)
                requires
                    sxi == -1,
            ;
        }
        if s.y0 < s.y1 {
            assert(syi == 1 && dyi == s.y1 - s.y0);
            assert(syi * dyi == dyi) by (nonlinear_arith)
                requires
                    syi == 1,
            ;
        } else {
            assert(syi == -1 && dyi == s.y0 - s.y1);
            assert(syi * dyi == -dyi) by (nonlinear_arith)
                requires
                    syi == -1,
            ;
        }
    }
    loop
        invariant
            s == setup(*a, *b),
            dx == s.dx && dy == s.dy && sx == s.sx && sy == s.sy && x1 == s.x1 && y1 == s.y1,
            s.x1 == s.x0 + s.sx * s.dx,
            s.y1 == s.y0 + s.sy * s.dy,
            0 <= dx <= 429498,
            0 <= dy <= 429498,
            -214749 <= s.x0 <= 214749,
            -214749 <= s.y0 <= 214749,
            0 <= n <= major(s),
            fragments@.len() == n,
            (LineState { x: x0, y: y0, err }) == state_at(s, n as nat),
            stepping_inv(s, state_at(s, n as nat), n),
            forall|i: int| 0 <= i < n ==> fragments@[i] == line_fragment(*a, *b, state_at(s, i as nat)),
            forall|i: int| 0 <= i < n ==> !at_end(s, #[trigger] state_at(s, i as nat)),
        decreases major(s) - n,
    {
        proof {
            assert(-0x100_0000 <= x0 <= 0x100_0000) by (nonlinear_arith)
                requires
                    0 <= (x0 - s.x0) * s.sx <= dx,
                    s.sx == 1 || s.sx == -1,
                    -214749 <= s.x0 <= 214749,
                    0 <= dx <= 429498,
            ;
            assert(-0x100_0000 <= y0 <= 0x100_0000) by (nonlinear_arith)
                requires
                    0 <= (y0 - s.y0) * s.sy <= dy,
                    s.sy == 1 || s.sy == -1,
                    -214749 <= s.y0 <= 214749,
                    0 <= dy <= 429498,
            ;
        }
        let z = depth_at(a, b, x0);
        fragments.push(Fragment::new(x0 as i32, y0 as i32, Vec3::new(ONE, ONE, ONE), z));
        if x0 == x1 && y0 == y1 {
            proof {
                if n < major(s) {
                    lemma_step_keeps_inv(s, state_at(s, n as nat), n);
                }
                assert(fragments@[n] == line_fragment(*a, *b, state_at(s, n as nat)));
            }
            return fragments;
        }
        proof {
            lemma_step_keeps_inv(s, state_at(s, n as nat), n);
        }
        let e2 = err;
        if e2 > -dx {
            err = err - dy;
            x0 = x0 + sx;
        }
        if e2 < dy {
            err = err + dx;
            y0 = y0 + sy;
        }
        proof {
            n = n + 1;
        }
    }
}

} // verus!
