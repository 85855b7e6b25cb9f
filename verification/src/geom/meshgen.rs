//! Layouts of generated meshes.

use vstd::prelude::*;

use crate::gl::splits_quad;

verus! {

/// One tile of a checkerboard: its row, its column, and whether it takes
/// the darker of the two colors.
#[derive(Clone, Copy, PartialEq, Eq, Structural, Debug)]
pub struct CheckerCell {
    pub row: usize,
    pub col: usize,
    pub dark: bool,
}

/// The tiles and triangles of a checkerboard.
pub struct CheckerLayout {
    pub cells: Vec<CheckerCell>,
    pub indices: Vec<u32>,
}

/// The tile at position `k` of a board with `c` columns: tiles go row by
/// row, and the color alternates from one tile to the next, starting dark.
pub open spec fn checker_cell(k: int, c: int) -> CheckerCell {
    CheckerCell { row: (k / c) as usize, col: (k % c) as usize, dark: k % 2 == 0 }
}

/// The index at position `n` of a checkerboard's index list: each tile has
/// four vertices and two triangles over them.
pub open spec fn checker_index(n: int) -> int {
    let s = (n / 6) * 4;
    let p = n % 6;
    if p == 0 || p == 3 {
        s
    } else if p == 1 || p == 5 {
        s + 2
    } else if p == 2 {
        s + 1
    } else {
        s + 3
    }
}

/// Position `k * 6 + d` falls in group `k` at place `d`.
proof fn lemma_div_six(k: int, d: int)
    by (nonlinear_arith)
    requires
        k >= 0,
        0 <= d < 6,
    ensures
        (k * 6 + d) / 6 == k,
        (k * 6 + d) % 6 == d,
{
}

/// The layout of a checkerboard of `c` columns and `r` rows: its tiles in
/// order, and six indices per tile over four vertices per tile.
pub fn checkerboard(c: usize, r: usize) -> (res: CheckerLayout)
    requires
        r * c * 4 <= u32::MAX,
    ensures
        res.cells@.len() == r * c,
        forall|k: int| 0 <= k < r * c ==> res.cells@[k] == #[trigger] checker_cell(k, c as int),
        res.indices@.len() == r * c * 6,
        forall|n: int| 0 <= n < r * c * 6 ==> res.indices@[n] == #[trigger] checker_index(n),
{
    let mut cells: Vec<CheckerCell> = Vec::new();
    let mut indices: Vec<u32> = Vec::new();
    let mut b = false;
    let mut i: usize = 0;
    while i < r
        invariant
            i <= r,
            r * c * 4 <= u32::MAX,
            cells@.len() == i * c,
            indices@.len() == i * c * 6,
            b == ((i * c) % 2 == 1),
            forall|k: int| 0 <= k < i * c ==> cells@[k] == #[trigger] checker_cell(k, c as int),
            forall|n: int| 0 <= n < i * c * 6 ==> indices@[n] == #[trigger] checker_index(n),
        decreases r - i,
    {
        let mut j: usize = 0;
        while j < c
            invariant
                i < r,
                j <= c,
                r * c * 4 <= u32::MAX,
                cells@.len() == i * c + j,
                indices@.len() == (i * c + j) * 6,
                b == ((i * c + j) % 2 == 1),
                forall|k: int| 0 <= k < i * c + j ==> cells@[k] == #[trigger] checker_cell(k, c as int),
                forall|n: int| 0 <= n < (i * c + j) * 6 ==> indices@[n] == #[trigger] checker_index(n),
            decreases c - j,
        {
            let ghost k = i * c + j;
            proof {
                assert(k < r * c) by (nonlinear_arith)
                    requires k == i * c + j, i < r, j < c;
                assert(k * 4 + 3 < r * c * 4) by (nonlinear_arith)
                    requires k < r * c;
                assert(k / (c as int) == i && k % (c as int) == j) by (nonlinear_arith)
                    requires k == i * c + j, j < c;
            }
            b = !b;
            cells.push(CheckerCell { row: i, col: j, dark: b });
            let start = ((i * c + j) as u32) * 4;
            let ghost n0 = indices@.len() as int;
            indices.push(start);
            indices.push(start + 2);
            indices.push(start + 1);
            indices.push(start);
            indices.push(start + 3);
            indices.push(start + 2);
            proof {
                assert(n0 == k * 6);
                lemma_div_six(k, 0);
                lemma_div_six(k, 1);
                lemma_div_six(k, 2);
                lemma_div_six(k, 3);
                lemma_div_six(k, 4);
                lemma_div_six(k, 5);
                assert(checker_index(n0) == start);
                assert(checker_index(n0 + 1) == start + 2);
                assert(checker_index(n0 + 2) == start + 1);
                assert(checker_index(n0 + 3) == start);
                assert(checker_index(n0 + 4) == start + 3);
                assert(checker_index(n0 + 5) == start + 2);
                assert(checker_cell(k, c as int) == CheckerCell { row: i, col: j, dark: b });
                assert((i * c + j + 1) * 6 == n0 + 6) by (nonlinear_arith)
                    requires n0 == k * 6, k == i * c + j;
            }
            j = j + 1;
        }
        proof {
            assert((i + 1) * c == i * c + c) by (nonlinear_arith);
        }
        i = i + 1;
    }
    CheckerLayout { cells: cells, indices: indices }
}

/// Every index of a checkerboard of `n` tiles names one of its vertices,
/// four per tile.
pub proof fn lemma_checker_in_range(n: nat)
    ensures
        forall|m: int| 0 <= m < n * 6 ==> #[trigger] checker_index(m) < n * 4,
{
    assert forall|m: int| 0 <= m < n * 6 implies #[trigger] checker_index(m) < n * 4 by {
        assert((m / 6) * 4 + 3 < n * 4) by (nonlinear_arith)
            requires 0 <= m < n * 6;
    }
}

/// Each tile of a checkerboard is drawn whole, from its own vertices: the
/// six indices of tile `k` are two triangles of three different corners
/// among the four vertices `4 * k` to `4 * k + 3`, and together they reach
/// all four.
pub proof fn lemma_checker_splits_tiles(k: int)
    requires
        k >= 0,
    ensures
        splits_quad(Seq::new(6, |j: int| checker_index(6 * k + j)), 4 * k),
{
    let a = Seq::new(6, |j: int| checker_index(6 * k + j));
    lemma_div_six(k, 0);
    lemma_div_six(k, 1);
    lemma_div_six(k, 2);
    lemma_div_six(k, 3);
    lemma_div_six(k, 4);
    lemma_div_six(k, 5);
    assert(k * 6 == 6 * k);
    let s = 4 * k;
    assert(a[0] == s && a[1] == s + 2 && a[2] == s + 1 && a[3] == s && a[4] == s + 3 && a[5] == s + 2);
    assert(a.contains(s) && a.contains(s + 1) && a.contains(s + 2) && a.contains(s + 3));
}

} // verus!
