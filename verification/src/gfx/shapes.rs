//! Shape settings and the triangle layouts of filled shapes.

use vstd::prelude::*;

use crate::err::Error;
use crate::gfx::{tri_corner, tri_has};
use crate::gl::{lemma_repeated_splits_quads, pattern_ints, repeat_indices, repeated_group, repeated_index, splits_quad};

verus! {

/// How a texture fills an area.
#[derive(Clone, Copy, PartialEq, Eq, Structural, Debug)]
pub enum FillMode {
    Stretch,
    Tiled,
}

/// How points are drawn.
#[derive(Clone, Copy, PartialEq, Eq, Structural, Debug)]
pub enum PointMode {
    Rect,
    Circle,
}

/// How two line segments are joined.
#[derive(Clone, Copy, PartialEq, Eq, Structural, Debug)]
pub enum LineJoin {
    NoJoin,
    Round,
    Bevel,
    Miter,
}

/// How a line ends.
#[derive(Clone, Copy, PartialEq, Eq, Structural, Debug)]
pub enum LineCap {
    Square,
    Butt,
    Round,
}

/// The unit cube, drawn with the current transform.
#[derive(Clone, Copy, PartialEq, Eq, Structural, Debug)]
pub struct Cube;

impl Cube {
    /// The unit cube.
    pub fn new() -> (r: Self)
        ensures
            r == Cube,
    {
        Cube
    }
}

/// The unit cube.
pub fn cube() -> (r: Cube)
    ensures
        r == Cube,
{
    Cube::new()
}

/// The triangle fan over the points of a convex polygon: for each point
/// from the third on, the triangle of the first point, the one before it
/// and itself.
pub open spec fn fan(n: nat) -> Seq<u32> {
    Seq::new(
        if n >= 2 {
            ((n - 2) * 3) as nat
        } else {
            0
        },
        |k: int|
            if k % 3 == 0 {
                0u32
            } else if k % 3 == 1 {
                (k / 3 + 1) as u32
            } else {
                (k / 3 + 2) as u32
            },
    )
}

/// The indices that fill a polygon of `n` points as a triangle fan; none
/// for fewer than three points.
pub fn fan_indices(n: usize) -> (r: Vec<u32>)
    requires
        n <= u32::MAX,
    ensures
        r@ == fan(n as nat),
{
    let mut r: Vec<u32> = Vec::new();
    let mut i: usize = 2;
    if n < 3 {
        assert(r@ =~= fan(n as nat));
        return r;
    }
    while i < n
        invariant
            2 <= i <= n,
            n <= u32::MAX,
            r@.len() == (i - 2) * 3,
            forall|k: int| 0 <= k < r@.len() ==> #[trigger] r@[k] == fan(n as nat)[k],
        decreases n - i,
    {
        let ghost k0 = r@.len() as int;
        r.push(0);
        r.push((i - 1) as u32);
        r.push(i as u32);
        proof {
            assert(k0 == (i - 2) * 3);
            assert((k0 / 3) == i - 2 && k0 % 3 == 0) by (nonlinear_arith)
                requires k0 == (i - 2) * 3, i >= 2;
            assert(((k0 + 1) / 3) == i - 2 && (k0 + 1) % 3 == 1) by (nonlinear_arith)
                requires k0 == (i - 2) * 3, i >= 2;
            assert(((k0 + 2) / 3) == i - 2 && (k0 + 2) % 3 == 2) by (nonlinear_arith)
                requires k0 == (i - 2) * 3, i >= 2;
            assert(fan(n as nat).len() == (n - 2) * 3);
            assert(k0 + 2 < (n - 2) * 3) by (nonlinear_arith)
                requires k0 == (i - 2) * 3, i < n;
        }
        i = i + 1;
    }
    assert(r@ =~= fan(n as nat));
    r
}

/// Every index of a polygon's fan names one of its points.
pub proof fn lemma_fan_in_range(n: nat)
    ensures
        forall|k: int| 0 <= k < fan(n).len() ==> #[trigger] fan(n)[k] < n,
{
    assert forall|k: int| 0 <= k < fan(n).len() implies #[trigger] fan(n)[k] < n by {
        assert(n >= 2);
        assert(k / 3 + 2 < n) by (nonlinear_arith)
            requires 0 <= k < (n - 2) * 3, n >= 2;
    }
}

/// The repeating pattern of a gradient's strip: two triangles per band.
pub open spec fn gradient_pattern() -> Seq<u32> {
    seq![0u32, 1, 2, 1, 2, 3]
}

/// The message of the error for a gradient with too few steps.
pub open spec fn gradient_steps_message() -> Seq<char> {
    "need at least 2 points to draw a gradient"@
}

/// The indices of a gradient of `steps` color stops: one band of two
/// triangles between each stop and the next, each band two vertices on
/// from the one before. Fails for fewer than two stops.
pub fn gradient_indices(steps: usize) -> (r: Result<Vec<u32>, Error>)
    requires
        steps < 2 || (steps - 1) * 6 <= u32::MAX,
    ensures
        match r {
            Ok(v) => {
                &&& steps >= 2
                &&& v@.len() == (steps - 1) * 6
                &&& forall|i: int| 0 <= i < v@.len() ==> v@[i] == repeated_index(gradient_pattern(), 2, i)
            },
            Err(e) => steps < 2 && (e matches Error::Gfx(m) && m@ == gradient_steps_message()),
        },
{
    if steps < 2 {
        return Err(Error::Gfx("need at least 2 points to draw a gradient".to_string()));
    }
    let pattern: [u32; 6] = [0, 1, 2, 1, 2, 3];
    let count = (steps - 1) * 6;
    proof {
        assert(pattern@ =~= gradient_pattern());
        assert forall|i: int| 0 <= i < count implies repeated_index(pattern@, 2, i) <= u32::MAX by {
            assert(pattern@[i % 6] <= 3);
            assert((i / 6) * 2 + 3 <= u32::MAX) by (nonlinear_arith)
                requires 0 <= i < count, count <= u32::MAX;
        }
    }
    Ok(repeat_indices(pattern.as_slice(), count, 2))
}

/// Every index of a gradient of `steps` stops names one of its vertices,
/// two per stop.
pub proof fn lemma_gradient_in_range(steps: nat)
    requires
        steps >= 2,
    ensures
        forall|i: int| 0 <= i < (steps - 1) * 6 ==> #[trigger] repeated_index(gradient_pattern(), 2, i) < steps * 2,
{
    assert forall|i: int| 0 <= i < (steps - 1) * 6 implies #[trigger] repeated_index(gradient_pattern(), 2, i) < steps * 2 by {
        let p = gradient_pattern();
        assert(p[i % 6] <= 3);
        assert(p[i % 6] <= i % 6) by {
            assert(p[0] == 0 && p[1] == 1 && p[2] == 2 && p[3] == 1 && p[4] == 2 && p[5] == 3);
        }
        assert((i / 6) * 2 + 3 < steps * 2) by (nonlinear_arith)
            requires 0 <= i < (steps - 1) * 6;
    }
}

/// Each band of a gradient is drawn whole: the six indices of band `g`
/// are two triangles of three different corners among the four vertices
/// of stops `g` and `g + 1` (two per stop), and together they reach all
/// four.
pub proof fn lemma_gradient_splits_bands(steps: nat, g: int)
    requires
        0 <= g < steps - 1,
    ensures
        splits_quad(repeated_group(gradient_pattern(), 2, g), 2 * g),
{
    let p = pattern_ints(gradient_pattern());
    assert(p[0] == 0 && p[1] == 1 && p[2] == 2 && p[3] == 1 && p[4] == 2 && p[5] == 3);
    assert(p.contains(0) && p.contains(1) && p.contains(2) && p.contains(3));
    lemma_repeated_splits_quads(gradient_pattern(), 2, g);
}

/// Whether `v` is a corner of one of the first `tris` triangles of `ix`.
pub open spec fn reaches(ix: Seq<u32>, tris: int, v: int) -> bool {
    exists|t: int| 0 <= t < tris && #[trigger] tri_has(ix, t, v)
}

/// A polygon's fan fills it: there are `n - 2` triangles, each opening
/// from the first point and running over two more points in the
/// polygon's order (so each turns the way the polygon does), each one
/// sharing its last edge with the next, and every point of the polygon
/// is a corner of one of them.
pub proof fn lemma_fan_fills_polygon(n: nat)
    requires
        3 <= n <= u32::MAX,
    ensures
        fan(n).len() == (n - 2) * 3,
        forall|t: int| 0 <= t < n - 2 ==> {
            &&& #[trigger] tri_corner(fan(n), t, 0) == 0
            &&& 0 < tri_corner(fan(n), t, 1) < tri_corner(fan(n), t, 2) < n
        },
        forall|t: int| 0 <= t < n - 3 ==> #[trigger] tri_corner(fan(n), t, 2) == tri_corner(fan(n), t + 1, 1),
        forall|v: int| 0 <= v < n ==> #[trigger] reaches(fan(n), n - 2, v),
{
    let f = fan(n);
    assert forall|t: int| 0 <= t < n - 2 implies tri_corner(f, t, 0) == 0 && tri_corner(f, t, 1) == t + 1
        && tri_corner(f, t, 2) == t + 2 by {
        assert((3 * t) / 3 == t && (3 * t) % 3 == 0) by (nonlinear_arith)
            requires t >= 0;
        assert((3 * t + 1) / 3 == t && (3 * t + 1) % 3 == 1) by (nonlinear_arith)
            requires t >= 0;
        assert((3 * t + 2) / 3 == t && (3 * t + 2) % 3 == 2) by (nonlinear_arith)
            requires t >= 0;
        assert(3 * t + 2 < (n - 2) * 3) by (nonlinear_arith)
            requires t < n - 2;
        assert(f[3 * t] == 0);
        assert(f[3 * t + 1] == t + 1);
        assert(f[3 * t + 2] == t + 2);
    }
    assert forall|v: int| 0 <= v < n implies #[trigger] reaches(f, n - 2, v) by {
        if v == 0 {
            assert(tri_has(f, 0, v));
        } else if v <= n - 2 {
            assert(tri_has(f, v - 1, v));
        } else {
            assert(tri_has(f, n - 3, v));
        }
    }
}

} // verus!
