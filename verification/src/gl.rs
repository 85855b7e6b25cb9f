//! Graphics-API settings, the constants they stand for, error codes, and
//! the index layout of batched quads.

use vstd::prelude::*;

use crate::err::Error;
use crate::text::join;

verus! {

pub const STATIC_DRAW: u32 = 0x88E4u32;
pub const DYNAMIC_DRAW: u32 = 0x88E8u32;
pub const STREAM_DRAW: u32 = 0x88E0u32;
pub const NEAREST: u32 = 0x2600u32;
pub const LINEAR: u32 = 0x2601u32;
pub const BLEND: u32 = 0x0BE2u32;
pub const CULL_FACE: u32 = 0x0B44u32;
pub const DEPTH_TEST: u32 = 0x0B71u32;
pub const STENCIL_TEST: u32 = 0x0B90u32;
pub const SCISSOR_TEST: u32 = 0x0C11u32;
pub const ONE: u32 = 1u32;
pub const SRC_ALPHA: u32 = 0x0302u32;
pub const ONE_MINUS_SRC_ALPHA: u32 = 0x0303u32;
pub const NO_ERROR: u32 = 0u32;
pub const INVALID_ENUM: u32 = 0x0500u32;
pub const INVALID_VALUE: u32 = 0x0501u32;
pub const INVALID_OPERATION: u32 = 0x0502u32;
pub const STACK_OVERFLOW: u32 = 0x0503u32;
pub const STACK_UNDERFLOW: u32 = 0x0504u32;
pub const OUT_OF_MEMORY: u32 = 0x0505u32;
pub const INVALID_FRAMEBUFFER_OPERATION: u32 = 0x0506u32;

/// How often a buffer's contents change.
#[derive(Clone, Copy, PartialEq, Eq, Structural, Debug)]
pub enum BufferUsage {
    Static,
    Dynamic,
    Stream,
}

/// The graphics-API constant for a buffer usage.
pub open spec fn buffer_usage_code(u: BufferUsage) -> u32 {
    match u {
        BufferUsage::Static => STATIC_DRAW,
        BufferUsage::Dynamic => DYNAMIC_DRAW,
        BufferUsage::Stream => STREAM_DRAW,
    }
}

impl vstd::std_specs::convert::FromSpecImpl<BufferUsage> for u32 {
    open spec fn obeys_from_spec() -> bool {
        true
    }

    open spec fn from_spec(u: BufferUsage) -> u32 {
        buffer_usage_code(u)
    }
}

impl From<BufferUsage> for u32 {
    fn from(u: BufferUsage) -> (r: u32) {
        match u {
            BufferUsage::Static => STATIC_DRAW,
            BufferUsage::Dynamic => DYNAMIC_DRAW,
            BufferUsage::Stream => STREAM_DRAW,
        }
    }
}

/// How a texture is sampled between texels.
#[derive(Clone, Copy, PartialEq, Eq, Structural, Debug)]
pub enum FilterMode {
    Linear,
    Nearest,
}

/// The graphics-API constant for a filter mode, as a signed parameter.
pub open spec fn filter_mode_code(f: FilterMode) -> i32 {
    match f {
        FilterMode::Nearest => NEAREST as i32,
        FilterMode::Linear => LINEAR as i32,
    }
}

impl vstd::std_specs::convert::FromSpecImpl<FilterMode> for i32 {
    open spec fn obeys_from_spec() -> bool {
        true
    }

    open spec fn from_spec(f: FilterMode) -> i32 {
        filter_mode_code(f)
    }
}

impl From<FilterMode> for i32 {
    fn from(f: FilterMode) -> (r: i32) {
        match f {
            FilterMode::Nearest => NEAREST as i32,
            FilterMode::Linear => LINEAR as i32,
        }
    }
}

/// A pipeline feature that can be switched on and off.
#[derive(Clone, Copy, PartialEq, Eq, Structural, Debug)]
pub enum Capability {
    Blend,
    CullFace,
    DepthTest,
    StencilTest,
    ScissorTest,
}

/// The graphics-API constant for a capability.
pub open spec fn capability_code(c: Capability) -> u32 {
    match c {
        Capability::Blend => BLEND,
        Capability::CullFace => CULL_FACE,
        Capability::DepthTest => DEPTH_TEST,
        Capability::StencilTest => STENCIL_TEST,
        Capability::ScissorTest => SCISSOR_TEST,
    }
}

impl vstd::std_specs::convert::FromSpecImpl<Capability> for u32 {
    open spec fn obeys_from_spec() -> bool {
        true
    }

    open spec fn from_spec(c: Capability) -> u32 {
        capability_code(c)
    }
}

impl From<Capability> for u32 {
    fn from(c: Capability) -> (r: u32) {
        match c {
            Capability::Blend => BLEND,
            Capability::CullFace => CULL_FACE,
            Capability::DepthTest => DEPTH_TEST,
            Capability::StencilTest => STENCIL_TEST,
            Capability::ScissorTest => SCISSOR_TEST,
        }
    }
}

/// A blending factor.
#[derive(Clone, Copy, PartialEq, Eq, Structural, Debug)]
pub enum BlendFunc {
    One,
    SrcAlpha,
    OneMinusSrcAlpha,
}

/// The graphics-API constant for a blending factor.
pub open spec fn blend_func_code(b: BlendFunc) -> u32 {
    match b {
        BlendFunc::One => ONE,
        BlendFunc::SrcAlpha => SRC_ALPHA,
        BlendFunc::OneMinusSrcAlpha => ONE_MINUS_SRC_ALPHA,
    }
}

impl vstd::std_specs::convert::FromSpecImpl<BlendFunc> for u32 {
    open spec fn obeys_from_spec() -> bool {
        true
    }

    open spec fn from_spec(b: BlendFunc) -> u32 {
        blend_func_code(b)
    }
}

impl From<BlendFunc> for u32 {
    fn from(b: BlendFunc) -> (r: u32) {
        match b {
            BlendFunc::One => ONE,
            BlendFunc::SrcAlpha => SRC_ALPHA,
            BlendFunc::OneMinusSrcAlpha => ONE_MINUS_SRC_ALPHA,
        }
    }
}

/// The stage a shader runs in.
#[derive(Clone, Copy, PartialEq, Eq, Structural, Debug)]
pub enum ShaderType {
    Vertex,
    Fragment,
}

/// One attribute of a vertex layout: its name in the shader, how many
/// components it has and where it starts in a vertex.
pub struct VertexAttr {
    pub name: String,
    pub size: i32,
    pub offset: usize,
}

impl VertexAttr {
    /// An attribute with the given name, component count and offset.
    pub fn new(name: &str, size: i32, offset: usize) -> (r: Self)
        ensures
            r.name@ == name@,
            r.size == size,
            r.offset == offset,
    {
        VertexAttr { name: name.to_string(), size: size, offset: offset }
    }
}

/// The name of the error that a graphics-API error code stands for;
/// `None` for the code that means no error.
pub open spec fn error_name(code: u32) -> Option<Seq<char>> {
    if code == NO_ERROR {
        None
    } else if code == INVALID_ENUM {
        Some("INVALID_ENUM"@)
    } else if code == INVALID_VALUE {
        Some("INVALID_VALUE"@)
    } else if code == INVALID_OPERATION {
        Some("INVALID_OPERATION"@)
    } else if code == STACK_OVERFLOW {
        Some("STACK_OVERFLOW"@)
    } else if code == STACK_UNDERFLOW {
        Some("STACK_UNDERFLOW"@)
    } else if code == OUT_OF_MEMORY {
        Some("OUT_OF_MEMORY"@)
    } else if code == INVALID_FRAMEBUFFER_OPERATION {
        Some("INVALID_FRAMEBUFFER_OPERATION"@)
    } else {
        Some("UNKNOWN"@)
    }
}

/// Turns a graphics-API error code into a result: `Ok` for no error, else
/// an OpenGL error that names it.
pub fn check_error(code: u32) -> (r: Result<(), Error>)
    ensures
        match error_name(code) {
            None => r is Ok,
            Some(name) => r matches Err(Error::OpenGL(s)) && s@ == name,
        },
{
    if code == NO_ERROR {
        return Ok(());
    }
    let name = if code == INVALID_ENUM {
        "INVALID_ENUM"
    } else if code == INVALID_VALUE {
        "INVALID_VALUE"
    } else if code == INVALID_OPERATION {
        "INVALID_OPERATION"
    } else if code == STACK_OVERFLOW {
        "STACK_OVERFLOW"
    } else if code == STACK_UNDERFLOW {
        "STACK_UNDERFLOW"
    } else if code == OUT_OF_MEMORY {
        "OUT_OF_MEMORY"
    } else if code == INVALID_FRAMEBUFFER_OPERATION {
        "INVALID_FRAMEBUFFER_OPERATION"
    } else {
        "UNKNOWN"
    };
    Err(Error::OpenGL(name.to_string()))
}

/// The index list for `count` indices drawn from `pattern` over and over:
/// index `i` is entry `i % pattern.len()` of `pattern`, moved on by `step`
/// for each full group of six indices before it.
pub open spec fn repeated_index(pattern: Seq<u32>, step: u32, i: int) -> int {
    pattern[i % pattern.len() as int] + (i / 6) * step
}

/// Whether the six indices `a`, two triangles, split the quad of the four
/// vertices numbered from `base` on: each triangle has three different
/// corners among those four, and together they reach all four.
pub open spec fn splits_quad(a: Seq<int>, base: int) -> bool {
    &&& a.len() == 6
    &&& forall|j: int| 0 <= j < 6 ==> base <= #[trigger] a[j] < base + 4
    &&& a[0] != a[1] && a[1] != a[2] && a[0] != a[2]
    &&& a[3] != a[4] && a[4] != a[5] && a[3] != a[5]
    &&& forall|v: int| base <= v < base + 4 ==> #[trigger] a.contains(v)
}

/// The six indices of group `g` of a repeated index list.
pub open spec fn repeated_group(pattern: Seq<u32>, step: u32, g: int) -> Seq<int> {
    Seq::new(6, |j: int| repeated_index(pattern, step, 6 * g + j))
}

/// A pattern's entries as integers.
pub open spec fn pattern_ints(pattern: Seq<u32>) -> Seq<int> {
    Seq::new(pattern.len(), |j: int| pattern[j] as int)
}

/// Position `g * 6 + j` falls in group `g` at place `j`.
proof fn lemma_group_place(g: int, j: int)
    by (nonlinear_arith)
    requires
        g >= 0,
        0 <= j < 6,
    ensures
        (6 * g + j) / 6 == g,
        (6 * g + j) % 6 == j,
{
}

/// Repeating a pattern of six indices that splits a quad splits one quad
/// per group: group `g` splits the quad `g * step` vertices on.
pub proof fn lemma_repeated_splits_quads(pattern: Seq<u32>, step: u32, g: int)
    requires
        pattern.len() == 6,
        splits_quad(pattern_ints(pattern), 0),
        g >= 0,
    ensures
        splits_quad(repeated_group(pattern, step, g), g * step),
{
    let a = repeated_group(pattern, step, g);
    let p = pattern_ints(pattern);
    let base = g * step;
    assert forall|j: int| 0 <= j < 6 implies #[trigger] a[j] == p[j] + base by {
        lemma_group_place(g, j);
    }
    assert(a[0] == p[0] + base && a[1] == p[1] + base && a[2] == p[2] + base);
    assert(a[3] == p[3] + base && a[4] == p[4] + base && a[5] == p[5] + base);
    assert forall|j: int| 0 <= j < 6 implies base <= #[trigger] a[j] < base + 4 by {
        assert(0 <= p[j] < 4);
    }
    assert forall|v: int| base <= v < base + 4 implies #[trigger] a.contains(v) by {
        assert(p.contains(v - base));
        let j = choose|j: int| 0 <= j < p.len() && p[j] == v - base;
        assert(a[j] == v);
    }
}

/// Fills an index buffer by repeating `pattern`, moving each group of six
/// indices `step` vertices on from the group before it.
pub fn repeat_indices(pattern: &[u32], count: usize, step: u32) -> (r: Vec<u32>)
    requires
        pattern@.len() > 0,
        count <= u32::MAX,
        forall|i: int| 0 <= i < count ==> repeated_index(pattern@, step, i) <= u32::MAX,
    ensures
        r@.len() == count,
        forall|i: int| 0 <= i < count ==> r@[i] == repeated_index(pattern@, step, i),
{
    let mut r: Vec<u32> = Vec::new();
    let n = pattern.len();
    let mut i: usize = 0;
    while i < count
        invariant
            n == pattern@.len(),
            n > 0,
            i <= count,
            r@.len() == i,
            forall|j: int| 0 <= j < i ==> r@[j] == repeated_index(pattern@, step, j),
            forall|j: int| 0 <= j < count ==> repeated_index(pattern@, step, j) <= u32::MAX,
            count <= u32::MAX,
        decreases count - i,
    {
        let k = i % n;
        let g: u32 = (i as u32) / 6;
        proof {
            assert(repeated_index(pattern@, step, i as int) <= u32::MAX);
            assert(repeated_index(pattern@, step, i as int) == pattern@[k as int] + g * step);
            assert(g * step >= 0) by (nonlinear_arith)
                requires g >= 0, step >= 0;
        }
        let v = pattern[k] + g * step;
        r.push(v);
        i = i + 1;
    }
    r
}

/// The indices of a batch of `max` quads, two triangles each, four
/// vertices apart.
pub fn batch_indices(pattern: &[u32], max: usize) -> (r: Vec<u32>)
    requires
        pattern@.len() > 0,
        max * pattern@.len() <= u32::MAX,
        forall|i: int| 0 <= i < max * pattern@.len() ==> repeated_index(pattern@, 4, i) <= u32::MAX,
    ensures
        r@.len() == max * pattern@.len(),
        forall|i: int| 0 <= i < max * pattern@.len() ==> r@[i] == repeated_index(pattern@, 4, i),
{
    repeat_indices(pattern, max * pattern.len(), 4)
}

/// The number of indices to draw for a queue of `queued` vertex numbers,
/// where each shape has `shape_indices` indices and `shape_vertices`
/// vertices of `stride` numbers each; handed to the driver as a signed
/// count.
pub fn batch_draw_count(queued: usize, shape_indices: usize, stride: usize, shape_vertices: usize) -> (r: i32)
    requires
        stride > 0,
        shape_vertices > 0,
        queued * shape_indices <= usize::MAX,
    ensures
        r == ((queued * shape_indices) as nat / (stride as nat) / (shape_vertices as nat)) as i32,
{
    let n = queued * shape_indices / stride / shape_vertices;
    #[verifier::truncate] (n as i32)
}

} // verus!
