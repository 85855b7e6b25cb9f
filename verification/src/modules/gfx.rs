//! Drawing state: the current transform, tint and line width, a stack to
//! save and restore them, and the parts of drawing that decide what gets
//! drawn.
//!
//! The transform and tint are held as opaque values of the caller's
//! matrix and color types; the arithmetic on them happens outside.

use vstd::prelude::*;

use crate::gfx::{last_index, BitmapFont};
use crate::gl::{batch_indices, lemma_repeated_splits_quads, pattern_ints, repeated_group, repeated_index, splits_quad};
use crate::text::chars_of;

verus! {

/// The most states that can be saved at once.
pub const MAX_STATE_STACK: usize = 64;

/// The most quads queued between two draws.
pub const MAX_DRAWS: usize = 65536;

/// The numbers that make one vertex: position, texture position, color.
pub const VERT_STRIDE: usize = 8;

/// The most vertex numbers queued between two draws.
pub const MAX_VERTICES: usize = MAX_DRAWS * VERT_STRIDE * 4;

/// The index pattern of one quad: two triangles over its four corners.
pub const INDEX_ARRAY: [u32; 6] = [0, 1, 3, 1, 2, 3];

/// One drawing state.
#[derive(Clone, Copy)]
pub struct State<M, C> {
    pub transform: M,
    pub tint: C,
    pub line_width: u8,
}

/// The drawing context: the current state, the saved states, and the state
/// that a reset returns to.
pub struct GfxCtx<M, C> {
    state: State<M, C>,
    state_stack: Vec<State<M, C>>,
    default_state: State<M, C>,
}

impl<M: Copy, C: Copy> GfxCtx<M, C> {
    /// The current state.
    pub closed spec fn current(&self) -> State<M, C> {
        self.state
    }

    /// The saved states, oldest first.
    pub closed spec fn saved(&self) -> Seq<State<M, C>> {
        self.state_stack@
    }

    /// The state that a reset returns to.
    pub closed spec fn initial(&self) -> State<M, C> {
        self.default_state
    }

    /// A context in the state given by `identity` (the transform that
    /// changes nothing) and `white` (the neutral tint), with line width 1
    /// and nothing saved.
    pub fn new(identity: M, white: C) -> (r: Self)
        ensures
            r.current() == (State { transform: identity, tint: white, line_width: 1 }),
            r.initial() == r.current(),
            r.saved() == Seq::<State<M, C>>::empty(),
    {
        let s = State { transform: identity, tint: white, line_width: 1 };
        GfxCtx { state: s, state_stack: Vec::new(), default_state: s }
    }

    /// The current transform.
    pub fn transform(&self) -> (r: M)
        ensures
            r == self.current().transform,
    {
        self.state.transform
    }

    /// Replaces the current transform.
    pub fn set_transform(&mut self, m: M)
        ensures
            final(self).current() == (State { transform: m, ..old(self).current() }),
            gfx_model(*final(self)) == gfx_step(gfx_model(*old(self)), GfxOp::Transform(m)),
            final(self).saved() == old(self).saved(),
            final(self).initial() == old(self).initial(),
    {
        self.state.transform = m;
    }

    /// The current tint.
    pub fn tint(&self) -> (r: C)
        ensures
            r == self.current().tint,
    {
        self.state.tint
    }

    /// The current line width.
    pub fn cur_line_width(&self) -> (r: u8)
        ensures
            r == self.current().line_width,
    {
        self.state.line_width
    }
}

/// A change to the drawing state: a new tint, line width or transform, or
/// saving or restoring the state.
pub enum GfxOp<M, C> {
    Color(C),
    LineWidth(u8),
    Transform(M),
    Push,
    Pop,
}

/// The drawing state as the current state and the saved ones.
pub open spec fn gfx_model<M: Copy, C: Copy>(ctx: GfxCtx<M, C>) -> (State<M, C>, Seq<State<M, C>>) {
    (ctx.current(), ctx.saved())
}

/// What one change does to the current state and the saved ones.
pub open spec fn gfx_step<M, C>(s: (State<M, C>, Seq<State<M, C>>), op: GfxOp<M, C>) -> (
    State<M, C>,
    Seq<State<M, C>>,
) {
    match op {
        GfxOp::Color(c) => (State { tint: c, ..s.0 }, s.1),
        GfxOp::LineWidth(w) => (State { line_width: w, ..s.0 }, s.1),
        GfxOp::Transform(m) => (State { transform: m, ..s.0 }, s.1),
        GfxOp::Push => (s.0, s.1.push(s.0)),
        GfxOp::Pop => (s.1.last(), s.1.drop_last()),
    }
}

/// The changes of a list, made one after the other.
pub open spec fn gfx_run<M, C>(s: (State<M, C>, Seq<State<M, C>>), ops: Seq<GfxOp<M, C>>) -> (
    State<M, C>,
    Seq<State<M, C>>,
)
    decreases ops.len(),
{
    if ops.len() == 0 {
        s
    } else {
        gfx_step(gfx_run(s, ops.drop_last()), ops.last())
    }
}

/// How many more saves than restores a list of changes makes.
pub open spec fn gfx_depth<M, C>(ops: Seq<GfxOp<M, C>>) -> int
    decreases ops.len(),
{
    if ops.len() == 0 {
        0
    } else {
        gfx_depth(ops.drop_last()) + match ops.last() {
            GfxOp::Push => 1int,
            GfxOp::Pop => -1int,
            _ => 0int,
        }
    }
}

/// No prefix of a list of changes restores more states than it saves.
pub open spec fn gfx_never_below<M, C>(ops: Seq<GfxOp<M, C>>) -> bool {
    forall|k: int| 0 <= k <= ops.len() ==> gfx_depth(#[trigger] ops.take(k)) >= 0
}

/// Changes that never restore more than they save leave the saved states
/// below them as they were, with as many more on top as they saved.
pub proof fn lemma_saved_kept<M, C>(s: (State<M, C>, Seq<State<M, C>>), ops: Seq<GfxOp<M, C>>)
    requires
        gfx_never_below(ops),
    ensures
        gfx_run(s, ops).1.len() == s.1.len() + gfx_depth(ops),
        gfx_run(s, ops).1.subrange(0, s.1.len() as int) == s.1,
    decreases ops.len(),
{
    if ops.len() > 0 {
        let init = ops.drop_last();
        assert forall|k: int| 0 <= k <= init.len() implies gfx_depth(#[trigger] init.take(k)) >= 0 by {
            assert(init.take(k) =~= ops.take(k));
        }
        lemma_saved_kept(s, init);
        assert(ops.take(ops.len() as int) =~= ops);
        let r = gfx_run(s, init);
        assert(r.1.subrange(0, s.1.len() as int) == s.1);
        match ops.last() {
            GfxOp::Push => {
                assert(r.1.push(r.0).subrange(0, s.1.len() as int) =~= r.1.subrange(0, s.1.len() as int));
            },
            GfxOp::Pop => {
                assert(gfx_depth(ops) >= 0);
                assert(r.1.drop_last().subrange(0, s.1.len() as int) =~= r.1.subrange(0, s.1.len() as int));
            },
            _ => {},
        }
    }
}

/// A save and the matching restore, with any changes between them that
/// restore no more than they save and leave as many saved as they found,
/// give back the drawing state and the saved states as they were before
/// the save.
pub proof fn lemma_push_pop_bracket<M, C>(s: (State<M, C>, Seq<State<M, C>>), ops: Seq<GfxOp<M, C>>)
    requires
        gfx_never_below(ops),
        gfx_depth(ops) == 0,
    ensures
        gfx_step(gfx_run(gfx_step(s, GfxOp::Push), ops), GfxOp::Pop) == s,
{
    let s1 = gfx_step(s, GfxOp::Push);
    lemma_saved_kept(s1, ops);
    let s2 = gfx_run(s1, ops);
    assert(s2.1 =~= s1.1.subrange(0, s1.1.len() as int));
    assert(s2.1 =~= s.1.push(s.0));
    assert(s.1.push(s.0).drop_last() =~= s.1);
}

/// Whether drawing has been set up.
pub fn enabled<M, C>(ctx: &Option<GfxCtx<M, C>>) -> (r: bool)
    ensures
        r == ctx is Some,
{
    ctx.is_some()
}

/// Drops every saved state and returns to the initial state.
pub fn reset<M: Copy, C: Copy>(ctx: &mut GfxCtx<M, C>)
    ensures
        final(ctx).current() == old(ctx).initial(),
        final(ctx).saved() == Seq::<State<M, C>>::empty(),
        final(ctx).initial() == old(ctx).initial(),
{
    ctx.state_stack.clear();
    ctx.state = ctx.default_state;
}

/// Sets the tint.
pub fn color<M: Copy, C: Copy>(ctx: &mut GfxCtx<M, C>, tint: C)
    ensures
        final(ctx).current() == (State { tint: tint, ..old(ctx).current() }),
        gfx_model(*final(ctx)) == gfx_step(gfx_model(*old(ctx)), GfxOp::Color(tint)),
        final(ctx).saved() == old(ctx).saved(),
        final(ctx).initial() == old(ctx).initial(),
{
    ctx.state.tint = tint;
}

/// Sets the line width.
pub fn line_width<M: Copy, C: Copy>(ctx: &mut GfxCtx<M, C>, line_width: u8)
    ensures
        final(ctx).current() == (State { line_width: line_width, ..old(ctx).current() }),
        gfx_model(*final(ctx)) == gfx_step(gfx_model(*old(ctx)), GfxOp::LineWidth(line_width)),
        final(ctx).saved() == old(ctx).saved(),
        final(ctx).initial() == old(ctx).initial(),
{
    ctx.state.line_width = line_width;
}

/// Saves the current state; at most [`MAX_STATE_STACK`] states are saved
/// at once.
pub fn push<M: Copy, C: Copy>(ctx: &mut GfxCtx<M, C>)
    requires
        old(ctx).saved().len() < MAX_STATE_STACK,
    ensures
        final(ctx).saved() == old(ctx).saved().push(old(ctx).current()),
        gfx_model(*final(ctx)) == gfx_step(gfx_model(*old(ctx)), GfxOp::Push),
        final(ctx).current() == old(ctx).current(),
        final(ctx).initial() == old(ctx).initial(),
{
    ctx.state_stack.push(ctx.state);
}

/// Restores the last saved state.
pub fn pop<M: Copy, C: Copy>(ctx: &mut GfxCtx<M, C>)
    requires
        old(ctx).saved().len() > 0,
    ensures
        final(ctx).current() == old(ctx).saved().last(),
        gfx_model(*final(ctx)) == gfx_step(gfx_model(*old(ctx)), GfxOp::Pop),
        final(ctx).saved() == old(ctx).saved().drop_last(),
        final(ctx).initial() == old(ctx).initial(),
{
    match ctx.state_stack.pop() {
        Some(s) => {
            ctx.state = s;
        },
        None => {},
    }
}

/// The lines that draw the outline of a polygon: from each point to the
/// next, and from the last back to the first.
pub fn poly<P: Copy>(pts: &[P]) -> (r: Vec<(P, P)>)
    ensures
        r@.len() == pts@.len(),
        forall|i: int| 0 <= i < pts@.len() ==> #[trigger] r@[i] == (pts@[i], pts@[(i + 1) % (pts@.len() as int)]),
{
    let mut r: Vec<(P, P)> = Vec::new();
    let n = pts.len();
    let mut i: usize = 0;
    while i < n
        invariant
            n == pts@.len(),
            i <= n,
            r@.len() == i,
            forall|j: int| 0 <= j < i ==> #[trigger] r@[j] == (pts@[j], pts@[(j + 1) % (n as int)]),
        decreases n - i,
    {
        if i == n - 1 {
            r.push((pts[i], pts[0]));
        } else {
            r.push((pts[i], pts[i + 1]));
        }
        proof {
            if i == n - 1 {
                assert((i + 1) % (n as int) == 0) by (nonlinear_arith)
                    requires i + 1 == n;
            } else {
                assert((i + 1) % (n as int) == i + 1) by (nonlinear_arith)
                    requires i + 1 < n;
            }
        }
        i = i + 1;
    }
    r
}

/// Restoring the state saved last undoes a save: the state and the saved
/// states are as before.
pub proof fn lemma_pop_undoes_push<M: Copy, C: Copy>(before: GfxCtx<M, C>, mid: GfxCtx<M, C>, after: GfxCtx<M, C>)
    requires
        mid.saved() == before.saved().push(before.current()),
        mid.current() == before.current(),
        after.current() == mid.saved().last(),
        after.saved() == mid.saved().drop_last(),
    ensures
        after.current() == before.current(),
        after.saved() == before.saved(),
{
    assert(before.saved().push(before.current()).drop_last() =~= before.saved());
}

/// The glyphs that draw a text with a font whose grid has `cols` columns:
/// for each character but spaces, its position in the text and the grid
/// cell (column, row) that holds it.
pub open spec fn text_glyphs(s: Seq<char>, font: Seq<char>, cols: int) -> Seq<(usize, usize, usize)>
    decreases s.len(),
{
    if s.len() == 0 {
        Seq::empty()
    } else {
        let prev = text_glyphs(s.drop_last(), font, cols);
        if s.last() == ' ' {
            prev
        } else {
            match last_index(font, s.last()) {
                Some(k) => prev.push(((s.len() - 1) as usize, (k % cols) as usize, (k / cols) as usize)),
                None => prev,
            }
        }
    }
}

/// The glyphs to draw for a line of text: each character but spaces, with
/// its position in the line (the number of character widths it is moved
/// right) and the font cell that holds it. Every character drawn must be in
/// the font, and the state stack must have room, as drawing each glyph
/// saves and restores the state.
pub fn text<M: Copy, C: Copy, T>(ctx: &GfxCtx<M, C>, font: &BitmapFont<T>, s: &str) -> (r: Vec<(usize, usize, usize)>)
    requires
        ctx.saved().len() < MAX_STATE_STACK,
        font.columns() > 0,
        forall|i: int| 0 <= i < s@.len() && s@[i] != ' ' ==> last_index(font.char_list(), #[trigger] s@[i]) is Some,
    ensures
        r@ == text_glyphs(s@, font.char_list(), font.columns() as int),
{
    let cs = chars_of(s);
    let mut r: Vec<(usize, usize, usize)> = Vec::new();
    let mut i: usize = 0;
    while i < cs.len()
        invariant
            cs@ == s@,
            i <= cs@.len(),
            font.columns() > 0,
            r@ == text_glyphs(s@.take(i as int), font.char_list(), font.columns() as int),
        decreases cs@.len() - i,
    {
        let ch = cs[i];
        proof {
            assert(s@.take(i + 1).drop_last() =~= s@.take(i as int));
            assert(s@.take(i + 1).last() == ch);
        }
        if ch != ' ' {
            match font.cell(ch) {
                Some(cell) => {
                    r.push((i, cell.0, cell.1));
                },
                None => {},
            }
        }
        i = i + 1;
    }
    proof {
        assert(s@.take(cs@.len() as int) =~= s@);
    }
    r
}

/// A batch of textured quads to draw: the texture and the corners, four
/// per quad.
pub struct QuadDraw<V, T> {
    pub tex: T,
    pub verts: Vec<V>,
}

/// Quads queued for drawing with one texture. A quad with another texture
/// first hands out the queued ones as a draw.
pub struct QuadQueue<V, T> {
    queue: Vec<V>,
    current_tex: Option<T>,
}

impl<V: Copy, T> QuadQueue<V, T> {
    /// The queued corners.
    pub closed spec fn queued(&self) -> Seq<V> {
        self.queue@
    }

    /// The texture of the queued quads, if any.
    pub closed spec fn texture(&self) -> Option<T> {
        self.current_tex
    }

    /// Well-formedness: queued quads always have a texture.
    pub open spec fn wf(&self) -> bool {
        self.queued().len() > 0 ==> self.texture() is Some
    }

    /// Nothing queued.
    pub fn new() -> (r: Self)
        ensures
            r.queued() == Seq::<V>::empty(),
            r.texture() is None,
            r.wf(),
    {
        QuadQueue { queue: Vec::new(), current_tex: None }
    }

    /// The texture of the queued quads, if any.
    pub fn current(&self) -> (r: &Option<T>)
        ensures
            *r == self.texture(),
    {
        &self.current_tex
    }

    /// Hands out the queued quads as one draw with their texture; nothing
    /// when the queue is empty.
    pub fn flush(&mut self) -> (r: Option<QuadDraw<V, T>>)
        requires
            old(self).wf(),
        ensures
            final(self).wf(),
            old(self).queued().len() == 0 ==> r is None && final(self).queued() == old(self).queued()
                && final(self).texture() == old(self).texture(),
            old(self).queued().len() > 0 ==> {
                &&& r matches Some(d) && old(self).texture() == Some(d.tex) && d.verts@ == old(self).queued()
                &&& final(self).queued() == Seq::<V>::empty()
                &&& final(self).texture() is None
            },
    {
        if self.queue.len() == 0 {
            return None;
        }
        match self.current_tex.take() {
            Some(tex) => {
                let mut verts: Vec<V> = Vec::new();
                std::mem::swap(&mut verts, &mut self.queue);
                Some(QuadDraw { tex: tex, verts: verts })
            },
            None => None,
        }
    }

    /// Queues a quad with texture `tex`, where `same_tex` tells whether
    /// `tex` is the texture of the queued quads. Another texture first
    /// hands out the queued quads, as [`QuadQueue::flush`] does; the queue
    /// holds at most [`MAX_VERTICES`] vertex numbers.
    pub fn draw(&mut self, same_tex: bool, tex: T, quad: [V; 4]) -> (r: Option<QuadDraw<V, T>>)
        requires
            old(self).wf(),
            old(self).texture() is Some && same_tex ==> (old(self).queued().len() + 4) * VERT_STRIDE <= MAX_VERTICES,
        ensures
            final(self).wf(),
            final(self).texture() == Some(if old(self).texture() is Some && same_tex {
                old(self).texture()->0
            } else {
                tex
            }),
            old(self).texture() is Some && same_tex ==> r is None && final(self).queued() == old(self).queued()
                + quad@,
            !(old(self).texture() is Some && same_tex) ==> {
                &&& final(self).queued() == quad@
                &&& old(self).queued().len() == 0 ==> r is None
                &&& old(self).queued().len() > 0 ==> (r matches Some(d) && old(self).texture() == Some(d.tex)
                    && d.verts@ == old(self).queued())
            },
    {
        let changed = match &self.current_tex {
            Some(_) => !same_tex,
            None => true,
        };
        let mut out = None;
        if changed {
            out = self.flush();
            self.current_tex = Some(tex);
        }
        let ghost start = self.queue@;
        let ghost cur = self.current_tex;
        assert(cur is Some);
        let mut i: usize = 0;
        while i < 4
            invariant
                i <= 4,
                self.current_tex == cur,
                cur is Some,
                self.queue@ == start + quad@.take(i as int),
                (start.len() + 4) * VERT_STRIDE <= MAX_VERTICES,
            decreases 4 - i,
        {
            proof {
                assert(quad@.take(i + 1) =~= quad@.take(i as int).push(quad@[i as int]));
            }
            self.queue.push(quad[i]);
            i = i + 1;
        }
        proof {
            assert(quad@.take(4) =~= quad@);
        }
        out
    }
}

/// The index buffer for the most quads queued at once: [`INDEX_ARRAY`]
/// repeated for each quad, four vertices on from the quad before.
pub fn quad_indices() -> (r: Vec<u32>)
    ensures
        r@.len() == MAX_DRAWS * 6,
        forall|i: int| 0 <= i < MAX_DRAWS * 6 ==> r@[i] == repeated_index(INDEX_ARRAY@, 4, i),
{
    let pattern = INDEX_ARRAY;
    proof {
        assert forall|i: int| 0 <= i < MAX_DRAWS * 6 implies repeated_index(pattern@, 4, i) <= u32::MAX by {
            assert(pattern@[i % 6] <= 3);
            assert(i / 6 <= MAX_DRAWS) by (nonlinear_arith)
                requires 0 <= i < MAX_DRAWS * 6, MAX_DRAWS == 65536;
        }
    }
    batch_indices(pattern.as_slice(), MAX_DRAWS)
}

/// Each quad of the batched index buffer is drawn whole, from its own
/// vertices: the six indices of quad `g` are two triangles of three
/// different corners among the four vertices `4 * g` to `4 * g + 3`, and
/// together they reach all four.
pub proof fn lemma_quad_indices_split_quads(g: int)
    requires
        0 <= g < MAX_DRAWS,
    ensures
        splits_quad(repeated_group(INDEX_ARRAY@, 4, g), 4 * g),
{
    let p = pattern_ints(INDEX_ARRAY@);
    assert(p[0] == 0 && p[1] == 1 && p[2] == 3 && p[3] == 1 && p[4] == 2 && p[5] == 3);
    assert(p.contains(0) && p.contains(1) && p.contains(2) && p.contains(3));
    lemma_repeated_splits_quads(INDEX_ARRAY@, 4, g);
}

} // verus!
