//! Batching of draws that share a render state.
//!
//! Meshes pushed one after another are gathered into one vertex queue and
//! one index queue, and handed out as a single draw when the render state
//! changes, when a queue would reach its limit, or on request. The render
//! state itself (pipeline, uniforms, primitive) is held as an opaque value;
//! the caller says whether a new one equals the current one.

use vstd::prelude::*;

verus! {

/// A draw to perform: the render state, the vertices and the indices into
/// them.
pub struct Draw<V, S> {
    pub state: S,
    pub verts: Vec<V>,
    pub indices: Vec<u32>,
}

/// The contents of a batch: queued vertices and indices, the render state
/// they are drawn with, if one is set, and how many draws were handed out.
pub struct BatchView<V, S> {
    pub verts: Seq<V>,
    pub indices: Seq<u32>,
    pub state: Option<S>,
    pub draws: nat,
}

/// A draw as a mathematical value.
pub struct DrawView<V, S> {
    pub state: S,
    pub verts: Seq<V>,
    pub indices: Seq<u32>,
}

/// What flushing does to a batch: a batch with queued vertices and a render
/// state hands them out as a draw and empties; any other batch stays.
pub open spec fn flushed<V, S>(b: BatchView<V, S>) -> (BatchView<V, S>, Option<DrawView<V, S>>) {
    if b.verts.len() > 0 && b.state is Some {
        (
            BatchView { verts: Seq::empty(), indices: Seq::empty(), state: None, draws: b.draws + 1 },
            Some(DrawView { state: b.state->0, verts: b.verts, indices: b.indices }),
        )
    } else {
        (b, None)
    }
}

/// Flushes when `cond` holds; the draws handed out are added to `out`.
pub open spec fn flush_if<V, S>(b: BatchView<V, S>, out: Seq<DrawView<V, S>>, cond: bool) -> (
    BatchView<V, S>,
    Seq<DrawView<V, S>>,
) {
    if cond {
        let (nb, d) = flushed(b);
        (nb, match d {
            Some(d) => out.push(d),
            None => out,
        })
    } else {
        (b, out)
    }
}

/// Each index moved on by `offset`.
pub open spec fn offset_indices(indices: Seq<u32>, offset: int) -> Seq<u32> {
    indices.map_values(|i: u32| (i + offset) as u32)
}

/// What pushing a mesh does to a batch, and the draws it hands out. When
/// the state changes (or none is set) the batch is flushed and takes the
/// new state; it is flushed again if the vertices or indices would reach
/// their limits; then the mesh joins the queues, its indices moved past
/// the vertices already queued.
pub open spec fn pushed<V, S>(
    b: BatchView<V, S>,
    max_vertices: nat,
    max_indices: nat,
    same_state: bool,
    state: S,
    verts: Seq<V>,
    indices: Seq<u32>,
) -> (BatchView<V, S>, Seq<DrawView<V, S>>) {
    let reset = b.state is None || !same_state;
    let (b1, o1) = flush_if(b, Seq::empty(), reset);
    let b1 = if reset {
        BatchView { state: Some(state), ..b1 }
    } else {
        b1
    };
    let (b2, o2) = flush_if(b1, o1, b1.verts.len() + verts.len() >= max_vertices);
    let (b3, o3) = flush_if(b2, o2, b2.indices.len() + indices.len() >= max_indices);
    (
        BatchView {
            verts: b3.verts + verts,
            indices: b3.indices + offset_indices(indices, b3.verts.len() as int),
            ..b3
        },
        o3,
    )
}

/// The vertices of a list of draws, one draw after the other.
pub open spec fn drawn_verts<V, S>(ds: Seq<DrawView<V, S>>) -> Seq<V>
    decreases ds.len(),
{
    if ds.len() == 0 {
        Seq::empty()
    } else {
        drawn_verts(ds.drop_last()) + ds.last().verts
    }
}

/// A flush loses and repeats no vertex: what it hands out, followed by what
/// stays queued, is what was queued before.
pub proof fn lemma_flush_conserves<V, S>(b: BatchView<V, S>, out: Seq<DrawView<V, S>>, cond: bool)
    ensures
        drawn_verts(flush_if(b, out, cond).1) + flush_if(b, out, cond).0.verts == drawn_verts(out) + b.verts,
{
    if cond && b.verts.len() > 0 && b.state is Some {
        let d = DrawView { state: b.state->0, verts: b.verts, indices: b.indices };
        assert(out.push(d).drop_last() =~= out);
        assert(drawn_verts(out.push(d)) == drawn_verts(out) + b.verts);
        assert(drawn_verts(out) + b.verts + Seq::<V>::empty() =~= drawn_verts(out) + b.verts);
    }
}

/// Pushing a mesh loses and repeats no vertex: the vertices of the draws
/// it hands out, followed by the queue after it, are the queue before it
/// followed by the mesh's vertices.
pub proof fn lemma_push_conserves<V, S>(
    b: BatchView<V, S>,
    max_vertices: nat,
    max_indices: nat,
    same_state: bool,
    state: S,
    verts: Seq<V>,
    indices: Seq<u32>,
)
    ensures
        drawn_verts(pushed(b, max_vertices, max_indices, same_state, state, verts, indices).1)
            + pushed(b, max_vertices, max_indices, same_state, state, verts, indices).0.verts == b.verts + verts,
{
    let reset = b.state is None || !same_state;
    lemma_flush_conserves(b, Seq::empty(), reset);
    let (b1, o1) = flush_if(b, Seq::empty(), reset);
    let b1 = if reset {
        BatchView { state: Some(state), ..b1 }
    } else {
        b1
    };
    let c2 = b1.verts.len() + verts.len() >= max_vertices;
    lemma_flush_conserves(b1, o1, c2);
    let (b2, o2) = flush_if(b1, o1, c2);
    let c3 = b2.indices.len() + indices.len() >= max_indices;
    lemma_flush_conserves(b2, o2, c3);
    let (b3, o3) = flush_if(b2, o2, c3);
    assert(drawn_verts(Seq::<DrawView<V, S>>::empty()) =~= Seq::<V>::empty());
    assert(drawn_verts(o3) + b3.verts == b.verts);
    assert(drawn_verts(o3) + (b3.verts + verts) =~= drawn_verts(o3) + b3.verts + verts);
}

/// A push keeps the queues under their limits: when the queued vertices
/// are fewer than `max_vertices` and the mesh has fewer vertices than
/// that, fewer than `max_vertices` are queued after the push; likewise for
/// the indices, for a queue whose indices point into its vertices. The
/// batch is flushed first when the queue and the mesh together would reach
/// a limit, and nothing is flushed when both together stay under the
/// limits and the render state stays.
pub proof fn lemma_push_within_limits<V, S>(
    b: BatchView<V, S>,
    max_vertices: nat,
    max_indices: nat,
    same_state: bool,
    state: S,
    verts: Seq<V>,
    indices: Seq<u32>,
)
    ensures
        ({
            let (nb, out) = pushed(b, max_vertices, max_indices, same_state, state, verts, indices);
            &&& b.verts.len() < max_vertices && verts.len() < max_vertices ==> nb.verts.len() < max_vertices
            &&& b.indices.len() < max_indices && indices.len() < max_indices
                && (forall|i: int| 0 <= i < b.indices.len() ==> b.indices[i] < b.verts.len())
                ==> nb.indices.len() < max_indices
            &&& b.state is Some && same_state && b.verts.len() + verts.len() < max_vertices
                && b.indices.len() + indices.len() < max_indices ==> out.len() == 0 && nb.verts == b.verts + verts
            &&& b.state is Some && b.verts.len() > 0 && (b.verts.len() + verts.len() >= max_vertices
                || b.indices.len() + indices.len() >= max_indices) ==> out.len() >= 1 && out[0].verts == b.verts
                && out[0].indices == b.indices
        }),
{
    let reset = b.state is None || !same_state;
    let (b1, o1) = flush_if(b, Seq::empty(), reset);
    let b1 = if reset {
        BatchView { state: Some(state), ..b1 }
    } else {
        b1
    };
    let c2 = b1.verts.len() + verts.len() >= max_vertices;
    let (b2, o2) = flush_if(b1, o1, c2);
    let c3 = b2.indices.len() + indices.len() >= max_indices;
    let (b3, o3) = flush_if(b2, o2, c3);
    if b.indices.len() < max_indices && indices.len() < max_indices
        && (forall|i: int| 0 <= i < b.indices.len() ==> b.indices[i] < b.verts.len()) {
        if b.indices.len() > 0 {
            assert(b.indices[0] < b.verts.len());
        }
        assert(b2.indices.len() > 0 ==> b2.verts.len() > 0);
    }
}

/// A pushed mesh is drawn from its own vertices: the mesh's indices end
/// the index queue after the push, and each of them, moved on, names in
/// the vertex queue the very vertex that it named in the mesh.
pub proof fn lemma_push_keeps_mesh<V, S>(
    b: BatchView<V, S>,
    max_vertices: nat,
    max_indices: nat,
    same_state: bool,
    state: S,
    verts: Seq<V>,
    indices: Seq<u32>,
)
    requires
        forall|i: int| 0 <= i < indices.len() ==> indices[i] + b.verts.len() <= u32::MAX,
    ensures
        ({
            let nb = pushed(b, max_vertices, max_indices, same_state, state, verts, indices).0;
            let start = nb.indices.len() - indices.len();
            &&& start >= 0
            &&& nb.verts.len() >= verts.len()
            &&& nb.verts.subrange(nb.verts.len() - verts.len(), nb.verts.len() as int) == verts
            &&& forall|i: int| 0 <= i < indices.len() && indices[i] < verts.len() ==> nb.verts[#[trigger] nb.indices[start + i] as int]
                == verts[indices[i] as int]
        }),
{
    let reset = b.state is None || !same_state;
    let (b1, o1) = flush_if(b, Seq::empty(), reset);
    let b1 = if reset {
        BatchView { state: Some(state), ..b1 }
    } else {
        b1
    };
    let (b2, o2) = flush_if(b1, o1, b1.verts.len() + verts.len() >= max_vertices);
    let (b3, o3) = flush_if(b2, o2, b2.indices.len() + indices.len() >= max_indices);
    let nb = pushed(b, max_vertices, max_indices, same_state, state, verts, indices).0;
    assert(b3.verts.len() <= b.verts.len());
    assert(nb.verts == b3.verts + verts);
    assert(nb.indices == b3.indices + offset_indices(indices, b3.verts.len() as int));
    assert(nb.verts.subrange(nb.verts.len() - verts.len(), nb.verts.len() as int) =~= verts);
    let start = nb.indices.len() - indices.len();
    assert forall|i: int| 0 <= i < indices.len() && indices[i] < verts.len() implies nb.verts[#[trigger] nb.indices[start + i] as int]
        == verts[indices[i] as int] by {
        assert(nb.indices[start + i] == offset_indices(indices, b3.verts.len() as int)[i]);
        assert(indices[i] + b3.verts.len() <= u32::MAX);
    }
}

/// A queue of meshes waiting to be drawn together.
pub struct BatchedMesh<V, S> {
    vqueue: Vec<V>,
    iqueue: Vec<u32>,
    cur_state: Option<S>,
    draw_count: usize,
    max_vertices: usize,
    max_indices: usize,
}

impl<V: Copy, S> BatchedMesh<V, S> {
    /// The batch's contents.
    pub closed spec fn view_batch(&self) -> BatchView<V, S> {
        BatchView {
            verts: self.vqueue@,
            indices: self.iqueue@,
            state: self.cur_state,
            draws: self.draw_count as nat,
        }
    }

    /// The vertex limit.
    pub closed spec fn vertex_limit(&self) -> nat {
        self.max_vertices as nat
    }

    /// The index limit.
    pub closed spec fn index_limit(&self) -> nat {
        self.max_indices as nat
    }

    /// An empty batch with the given limits.
    pub fn new(max_vertices: usize, max_indices: usize) -> (r: Self)
        ensures
            r.view_batch() == (BatchView::<V, S> { verts: Seq::empty(), indices: Seq::empty(), state: None, draws: 0 }),
            r.vertex_limit() == max_vertices,
            r.index_limit() == max_indices,
    {
        BatchedMesh {
            vqueue: Vec::new(),
            iqueue: Vec::new(),
            cur_state: None,
            draw_count: 0,
            max_vertices: max_vertices,
            max_indices: max_indices,
        }
    }

    /// The render state the queued meshes are drawn with, if one is set.
    pub fn state(&self) -> (r: &Option<S>)
        ensures
            *r == self.view_batch().state,
    {
        &self.cur_state
    }

    /// Hands out the queued meshes as one draw, as [`flushed`] says.
    pub fn flush(&mut self) -> (r: Option<Draw<V, S>>)
        requires
            old(self).view_batch().draws < usize::MAX,
        ensures
            final(self).view_batch() == flushed(old(self).view_batch()).0,
            match r {
                Some(d) => flushed(old(self).view_batch()).1 == Some(
                    DrawView { state: d.state, verts: d.verts@, indices: d.indices@ },
                ),
                None => flushed(old(self).view_batch()).1 is None,
            },
            final(self).vertex_limit() == old(self).vertex_limit(),
            final(self).index_limit() == old(self).index_limit(),
    {
        if self.vqueue.len() == 0 {
            return None;
        }
        let state = self.cur_state.take();
        match state {
            None => None,
            Some(s) => {
                let mut verts: Vec<V> = Vec::new();
                let mut indices: Vec<u32> = Vec::new();
                std::mem::swap(&mut verts, &mut self.vqueue);
                std::mem::swap(&mut indices, &mut self.iqueue);
                self.draw_count = self.draw_count + 1;
                Some(Draw { state: s, verts: verts, indices: indices })
            },
        }
    }

    /// Whether nothing is queued.
    pub fn empty(&self) -> (r: bool)
        ensures
            r == (self.view_batch().verts.len() == 0),
    {
        self.vqueue.len() == 0
    }

    /// How many draws were handed out since the count was last cleared.
    pub fn draw_count(&self) -> (r: usize)
        ensures
            r == self.view_batch().draws,
    {
        self.draw_count
    }

    /// Sets the draw count back to zero.
    pub fn clear_draw_count(&mut self)
        ensures
            final(self).view_batch() == (BatchView { draws: 0, ..old(self).view_batch() }),
            final(self).vertex_limit() == old(self).vertex_limit(),
            final(self).index_limit() == old(self).index_limit(),
    {
        self.draw_count = 0;
    }

    /// Flushes when `cond` holds, adding the draw handed out to `out`.
    fn flush_into(&mut self, out: &mut Vec<Draw<V, S>>, cond: bool)
        requires
            old(self).view_batch().draws + 1 < usize::MAX,
        ensures
            (final(self).view_batch(), final(out)@.map_values(|d: Draw<V, S>| draw_view(d)))
                == flush_if(old(self).view_batch(), old(out)@.map_values(|d: Draw<V, S>| draw_view(d)), cond),
            final(self).vertex_limit() == old(self).vertex_limit(),
            final(self).index_limit() == old(self).index_limit(),
            final(self).view_batch().draws <= old(self).view_batch().draws + 1,
    {
        if cond {
            match self.flush() {
                Some(d) => {
                    let ghost before = out@;
                    out.push(d);
                    proof {
                        assert(out@.map_values(|d: Draw<V, S>| draw_view(d)) =~= before.map_values(
                            |d: Draw<V, S>| draw_view(d),
                        ).push(draw_view(d)));
                    }
                },
                None => {},
            }
        }
    }

    /// Queues a mesh drawn with render state `state`, where `same_state`
    /// tells whether `state` equals the current one; returns the draws
    /// handed out on the way, as [`pushed`] says.
    pub fn push(&mut self, same_state: bool, state: S, verts: &[V], indices: &[u32]) -> (r: Vec<Draw<V, S>>)
        requires
            old(self).view_batch().draws + 3 < usize::MAX,
            old(self).view_batch().verts.len() + verts@.len() <= usize::MAX,
            old(self).view_batch().indices.len() + indices@.len() <= usize::MAX,
            forall|i: int| 0 <= i < indices@.len() ==> indices@[i] + old(self).view_batch().verts.len() <= u32::MAX,
        ensures
            (final(self).view_batch(), r@.map_values(|d: Draw<V, S>| draw_view(d))) == pushed(
                old(self).view_batch(),
                old(self).vertex_limit(),
                old(self).index_limit(),
                same_state,
                state,
                verts@,
                indices@,
            ),
            final(self).vertex_limit() == old(self).vertex_limit(),
            final(self).index_limit() == old(self).index_limit(),
    {
        let mut out: Vec<Draw<V, S>> = Vec::new();
        let reset = match &self.cur_state {
            Some(_) => !same_state,
            None => true,
        };
        proof {
            assert(out@.map_values(|d: Draw<V, S>| draw_view(d)) =~= Seq::<DrawView<V, S>>::empty());
        }
        self.flush_into(&mut out, reset);
        if reset {
            self.cur_state = Some(state);
        }
        let c2 = self.vqueue.len() + verts.len() >= self.max_vertices;
        self.flush_into(&mut out, c2);
        let c3 = self.iqueue.len() + indices.len() >= self.max_indices;
        self.flush_into(&mut out, c3);
        let ghost b3 = self.view_batch();
        assert(b3.verts.len() <= old(self).view_batch().verts.len());
        let offset = #[verifier::truncate] (self.vqueue.len() as u32);
        proof {
            if indices@.len() > 0 {
                assert(indices@[0] + old(self).view_batch().verts.len() <= u32::MAX);
                assert(offset == b3.verts.len());
            }
        }
        let mut i: usize = 0;
        while i < verts.len()
            invariant
                i <= verts@.len(),
                self.vqueue@ == b3.verts + verts@.take(i as int),
                self.iqueue@ == b3.indices,
                self.cur_state == b3.state,
                self.draw_count == b3.draws,
                self.max_vertices == old(self).max_vertices,
                self.max_indices == old(self).max_indices,
            decreases verts@.len() - i,
        {
            self.vqueue.push(verts[i]);
            proof {
                assert(verts@.take(i + 1) =~= verts@.take(i as int).push(verts@[i as int]));
            }
            i = i + 1;
        }
        let mut j: usize = 0;
        while j < indices.len()
            invariant
                j <= indices@.len(),
                self.vqueue@ == b3.verts + verts@,
                self.iqueue@ == b3.indices + offset_indices(indices@.take(j as int), offset as int),
                indices@.len() > 0 ==> offset == b3.verts.len(),
                b3.verts.len() <= old(self).view_batch().verts.len(),
                forall|k: int| 0 <= k < indices@.len() ==> indices@[k] + old(self).view_batch().verts.len() <= u32::MAX,
                self.cur_state == b3.state,
                self.draw_count == b3.draws,
                self.max_vertices == old(self).max_vertices,
                self.max_indices == old(self).max_indices,
            decreases indices@.len() - j,
        {
            proof {
                assert(indices@[j as int] + old(self).view_batch().verts.len() <= u32::MAX);
            }
            self.iqueue.push(indices[j] + offset);
            proof {
                assert(offset_indices(indices@.take(j + 1), offset as int) =~= offset_indices(
                    indices@.take(j as int),
                    offset as int,
                ).push((indices@[j as int] + offset) as u32));
            }
            j = j + 1;
        }
        proof {
            assert(verts@.take(verts@.len() as int) =~= verts@);
            assert(indices@.take(indices@.len() as int) =~= indices@);
        }
        out
    }
}

/// A draw as a mathematical value.
pub open spec fn draw_view<V, S>(d: Draw<V, S>) -> DrawView<V, S> {
    DrawView { state: d.state, verts: d.verts@, indices: d.indices@ }
}

} // verus!
