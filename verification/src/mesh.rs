//! Index layouts of meshes built from other meshes.

use vstd::prelude::*;

use crate::geom::meshgen::{checkerboard, CheckerLayout};

verus! {

/// The indices of an extruded mesh whose base has `n` vertices: the base's
/// triangles, the same triangles over the moved copy of the vertices, and
/// for each edge two triangles that join it to its copy.
pub open spec fn extruded(indices: Seq<u32>, edges: Seq<(u32, u32)>, n: int) -> Seq<u32> {
    indices + indices.map_values(|i: u32| (i + n) as u32) + side_walls(edges, n)
}

/// The two triangles that join each edge to its moved copy.
pub open spec fn side_walls(edges: Seq<(u32, u32)>, n: int) -> Seq<u32>
    decreases edges.len(),
{
    if edges.len() == 0 {
        Seq::empty()
    } else {
        let (a, b) = edges.last();
        side_walls(edges.drop_last(), n) + seq![
            a,
            b,
            (a + n) as u32,
            (a + n) as u32,
            (b + n) as u32,
            b,
        ]
    }
}

/// The indices of a mesh extruded along its normals: `indices` are the
/// base mesh's triangles over its `n` vertices, `edges` the outline to
/// close with side walls. The moved vertices follow the base ones.
pub fn extrude_indices(indices: &[u32], edges: &[(u32, u32)], n: u32) -> (r: Vec<u32>)
    requires
        forall|i: int| 0 <= i < indices@.len() ==> indices@[i] + n <= u32::MAX,
        forall|i: int| 0 <= i < edges@.len() ==> edges@[i].0 + n <= u32::MAX && edges@[i].1 + n <= u32::MAX,
        indices@.len() * 2 + edges@.len() * 6 <= usize::MAX,
    ensures
        r@ == extruded(indices@, edges@, n as int),
{
    let mut r: Vec<u32> = Vec::new();
    let mut i: usize = 0;
    while i < indices.len()
        invariant
            i <= indices@.len(),
            r@ == indices@.take(i as int),
        decreases indices@.len() - i,
    {
        r.push(indices[i]);
        proof {
            assert(indices@.take(i + 1) =~= indices@.take(i as int).push(indices@[i as int]));
        }
        i = i + 1;
    }
    let mut j: usize = 0;
    while j < indices.len()
        invariant
            j <= indices@.len(),
            forall|k: int| 0 <= k < indices@.len() ==> indices@[k] + n <= u32::MAX,
            r@ == indices@ + indices@.take(j as int).map_values(|x: u32| (x + n) as u32),
        decreases indices@.len() - j,
    {
        proof {
            assert(indices@[j as int] + n <= u32::MAX);
        }
        r.push(indices[j] + n);
        proof {
            assert(indices@.take(j + 1).map_values(|x: u32| (x + n) as u32) =~= indices@.take(j as int).map_values(
                |x: u32| (x + n) as u32,
            ).push((indices@[j as int] + n) as u32));
        }
        j = j + 1;
    }
    proof {
        assert(indices@.take(indices@.len() as int) =~= indices@);
    }
    let ghost base = r@;
    let mut k: usize = 0;
    while k < edges.len()
        invariant
            k <= edges@.len(),
            forall|e: int| 0 <= e < edges@.len() ==> edges@[e].0 + n <= u32::MAX && edges@[e].1 + n <= u32::MAX,
            base == indices@ + indices@.map_values(|x: u32| (x + n) as u32),
            r@ == base + side_walls(edges@.take(k as int), n as int),
        decreases edges@.len() - k,
    {
        let (a, b) = edges[k];
        proof {
            assert(edges@.take(k + 1).drop_last() =~= edges@.take(k as int));
            assert(edges@.take(k + 1).last() == (a, b));
            assert(a + n <= u32::MAX && b + n <= u32::MAX);
        }
        let ghost before = r@;
        r.push(a);
        r.push(b);
        r.push(a + n);
        r.push(a + n);
        r.push(b + n);
        r.push(b);
        proof {
            assert(r@ =~= before + seq![a, b, (a + n) as u32, (a + n) as u32, (b + n) as u32, b]);
        }
        k = k + 1;
    }
    proof {
        assert(edges@.take(edges@.len() as int) =~= edges@);
    }
    r
}

/// The side walls of edges between vertices below `n` name vertices below
/// `2 * n`: the base ones and their moved copies.
pub proof fn lemma_side_walls_in_range(edges: Seq<(u32, u32)>, n: int)
    requires
        0 <= n,
        2 * n <= u32::MAX + 1,
        forall|i: int| 0 <= i < edges.len() ==> (#[trigger] edges[i]).0 < n && edges[i].1 < n,
    ensures
        forall|k: int| 0 <= k < side_walls(edges, n).len() ==> #[trigger] side_walls(edges, n)[k] < 2 * n,
    decreases edges.len(),
{
    if edges.len() > 0 {
        let init = edges.drop_last();
        assert forall|i: int| 0 <= i < init.len() implies (#[trigger] init[i]).0 < n && init[i].1 < n by {
            assert(init[i] == edges[i]);
        }
        lemma_side_walls_in_range(init, n);
        let last = edges.len() - 1;
        assert(edges[last].0 < n && edges[last].1 < n);
        let (a, b) = edges.last();
        let tail = seq![a, b, (a + n) as u32, (a + n) as u32, (b + n) as u32, b];
        assert forall|k: int| 0 <= k < tail.len() implies tail[k] < 2 * n by {}
        let whole = side_walls(edges, n);
        assert(whole == side_walls(init, n) + tail);
        assert forall|k: int| 0 <= k < whole.len() implies #[trigger] whole[k] < 2 * n by {
            if k < side_walls(init, n).len() {
                assert(whole[k] == side_walls(init, n)[k]);
            } else {
                assert(whole[k] == tail[k - side_walls(init, n).len()]);
            }
        }
    }
}

/// The side walls hold six indices per edge, and those of edge `i` come
/// from that edge alone.
proof fn lemma_side_walls_at(edges: Seq<(u32, u32)>, n: int, i: int, j: int)
    requires
        0 <= i < edges.len(),
        0 <= j < 6,
    ensures
        side_walls(edges, n).len() == 6 * edges.len(),
        side_walls(edges, n)[6 * i + j] == side_walls(seq![edges[i]], n)[j],
    decreases edges.len(),
{
    let init = edges.drop_last();
    let last = edges.len() - 1;
    let (a, b) = edges.last();
    let tail = seq![a, b, (a + n) as u32, (a + n) as u32, (b + n) as u32, b];
    assert(seq![edges[last]].drop_last() =~= Seq::<(u32, u32)>::empty());
    assert(side_walls(Seq::<(u32, u32)>::empty(), n) =~= Seq::<u32>::empty());
    assert(seq![edges[last]].last() == (a, b));
    assert(side_walls(seq![edges[last]], n) =~= tail);
    if i < last {
        lemma_side_walls_at(init, n, i, j);
        assert(init[i] == edges[i]);
    } else if init.len() > 0 {
        lemma_side_walls_at(init, n, 0, 0);
    }
    assert(side_walls(edges, n) == side_walls(init, n) + tail);
}

/// Each side wall closes the gap between its edge and the edge's moved
/// copy: the six indices of edge `(a, b)` are two triangles, each of three
/// different corners, among `a`, `b` and their copies `a + n`, `b + n`,
/// and together they reach all four.
pub proof fn lemma_side_wall_joins_edge(edges: Seq<(u32, u32)>, n: int, i: int)
    requires
        0 <= i < edges.len(),
        edges[i].0 < n,
        edges[i].1 < n,
        edges[i].0 != edges[i].1,
        2 * n <= u32::MAX + 1,
    ensures
        ({
            let w = side_walls(edges, n).subrange(6 * i, 6 * i + 6);
            let (a, b) = edges[i];
            &&& side_walls(edges, n).len() == 6 * edges.len()
            &&& w[0] != w[1] && w[1] != w[2] && w[0] != w[2]
            &&& w[3] != w[4] && w[4] != w[5] && w[3] != w[5]
            &&& forall|j: int| 0 <= j < 6 ==> #[trigger] w[j] == a || w[j] == b || w[j] == a + n || w[j] == b + n
            &&& w.contains(a) && w.contains(b) && w.contains((a + n) as u32) && w.contains((b + n) as u32)
        }),
{
    let w = side_walls(edges, n).subrange(6 * i, 6 * i + 6);
    let one = side_walls(seq![edges[i]], n);
    let (a, b) = edges[i];
    assert(seq![edges[i]].drop_last() =~= Seq::<(u32, u32)>::empty());
    assert(side_walls(Seq::<(u32, u32)>::empty(), n) =~= Seq::<u32>::empty());
    assert(seq![edges[i]].last() == (a, b));
    assert(one =~= seq![a, b, (a + n) as u32, (a + n) as u32, (b + n) as u32, b]);
    assert forall|j: int| 0 <= j < 6 implies #[trigger] w[j] == one[j] by {
        lemma_side_walls_at(edges, n, i, j);
    }
    lemma_side_walls_at(edges, n, i, 0);
    assert(w[0] == a && w[1] == b && w[2] == a + n && w[3] == a + n && w[4] == b + n && w[5] == b);
}

/// Extruding a mesh whose indices and edges name its `n` vertices gives
/// indices that name the `2 * n` vertices of the extruded mesh.
pub proof fn lemma_extruded_in_range(indices: Seq<u32>, edges: Seq<(u32, u32)>, n: int)
    requires
        0 <= n,
        2 * n <= u32::MAX + 1,
        forall|i: int| 0 <= i < indices.len() ==> #[trigger] indices[i] < n,
        forall|i: int| 0 <= i < edges.len() ==> (#[trigger] edges[i]).0 < n && edges[i].1 < n,
    ensures
        forall|k: int| 0 <= k < extruded(indices, edges, n).len() ==> #[trigger] extruded(indices, edges, n)[k] < 2 * n,
{
    lemma_side_walls_in_range(edges, n);
    let moved = indices.map_values(|i: u32| (i + n) as u32);
    assert forall|k: int| 0 <= k < moved.len() implies #[trigger] moved[k] < 2 * n by {
        assert(indices[k] < n);
    }
}

/// The outline edges a tile of a checkerboard adds: at the position `k` of
/// a board of `c` columns and `r` rows, with its corners at `4 * k` to
/// `4 * k + 3`, the sides that lie on the board's border.
pub open spec fn tile_edges(k: int, c: int, r: int) -> Seq<(u32, u32)> {
    let i = k / c;
    let j = k % c;
    let s = k * 4;
    let tl = s as u32;
    let tr = (s + 1) as u32;
    let br = (s + 2) as u32;
    let bl = (s + 3) as u32;
    let e0: Seq<(u32, u32)> = if i == 0 {
        seq![(tl, bl)]
    } else {
        Seq::empty()
    };
    let e1: Seq<(u32, u32)> = if i == r - 1 {
        seq![(tr, br)]
    } else {
        Seq::empty()
    };
    let e2: Seq<(u32, u32)> = if j == 0 {
        seq![(tl, tr)]
    } else {
        Seq::empty()
    };
    let e3: Seq<(u32, u32)> = if j == c - 1 {
        seq![(bl, br)]
    } else {
        Seq::empty()
    };
    e0 + e1 + e2 + e3
}

/// The border edges of the first `n` tiles of a checkerboard, tile by tile.
pub open spec fn board_edges(n: nat, c: int, r: int) -> Seq<(u32, u32)>
    decreases n,
{
    if n == 0 {
        Seq::empty()
    } else {
        board_edges((n - 1) as nat, c, r) + tile_edges(n - 1, c, r)
    }
}

/// Adds the border edges of the tile in row `i` and column `j`.
fn push_tile_edges(edges: &mut Vec<(u32, u32)>, i: usize, j: usize, c: usize, r: usize)
    requires
        i < r,
        j < c,
        (i * c + j) * 4 + 3 <= u32::MAX,
    ensures
        final(edges)@ == old(edges)@ + tile_edges(i * c + j, c as int, r as int),
{
    let ghost k = i * c + j;
    proof {
        assert(k / (c as int) == i && k % (c as int) == j) by (nonlinear_arith)
            requires k == i * c + j, j < c;
    }
    let start = ((i * c + j) as u32) * 4;
    let tl = start;
    let tr = start + 1;
    let br = start + 2;
    let bl = start + 3;
    let mut add: Vec<(u32, u32)> = Vec::new();
    if i == 0 {
        add.push((tl, bl));
    }
    if i == r - 1 {
        add.push((tr, br));
    }
    if j == 0 {
        add.push((tl, tr));
    }
    if j == c - 1 {
        add.push((bl, br));
    }
    assert(add@ =~= tile_edges(k, c as int, r as int));
    let mut n: usize = 0;
    let ghost start_edges = edges@;
    while n < add.len()
        invariant
            n <= add@.len(),
            edges@ == start_edges + add@.take(n as int),
        decreases add@.len() - n,
    {
        edges.push(add[n]);
        proof {
            assert(add@.take(n + 1) =~= add@.take(n as int).push(add@[n as int]));
        }
        n = n + 1;
    }
    assert(add@.take(add@.len() as int) =~= add@);
}

/// A checkerboard's layout together with the edges of its border, to close
/// it with side walls when extruded.
pub fn gen_checkerboard(c: usize, r: usize) -> (res: (CheckerLayout, Vec<(u32, u32)>))
    requires
        r * c * 4 <= u32::MAX,
    ensures
        res.0.cells@.len() == r * c,
        forall|k: int| 0 <= k < r * c ==> res.0.cells@[k] == #[trigger] crate::geom::meshgen::checker_cell(k, c as int),
        res.0.indices@.len() == r * c * 6,
        forall|m: int| 0 <= m < r * c * 6 ==> res.0.indices@[m] == #[trigger] crate::geom::meshgen::checker_index(m),
        res.1@ == board_edges((r * c) as nat, c as int, r as int),
{
    let layout = checkerboard(c, r);
    let mut edges: Vec<(u32, u32)> = Vec::new();
    let mut i: usize = 0;
    while i < r
        invariant
            i <= r,
            r * c * 4 <= u32::MAX,
            edges@ == board_edges((i * c) as nat, c as int, r as int),
        decreases r - i,
    {
        let mut j: usize = 0;
        while j < c
            invariant
                i < r,
                j <= c,
                r * c * 4 <= u32::MAX,
                edges@ == board_edges((i * c + j) as nat, c as int, r as int),
            decreases c - j,
        {
            let ghost k = i * c + j;
            proof {
                assert(k < r * c) by (nonlinear_arith)
                    requires k == i * c + j, i < r, j < c;
                assert(k * 4 + 3 < r * c * 4) by (nonlinear_arith)
                    requires k < r * c;
                assert(k / (c as int) == i && k % (c as int) == j) by (nonlinear_arith)
                    requires k == i * c + j, j < c;
            }
            push_tile_edges(&mut edges, i, j, c, r);
            proof {
                assert(board_edges((k + 1) as nat, c as int, r as int) == board_edges(k as nat, c as int, r as int)
                    + tile_edges(k, c as int, r as int));
            }
            j = j + 1;
        }
        proof {
            assert((i + 1) * c == i * c + c) by (nonlinear_arith);
        }
        i = i + 1;
    }
    (layout, edges)
}

} // verus!
