//! Drawing vocabulary: orientation and alignment settings, the corner
//! order of a textured quad, bitmap-font layout, and the cube mesh.

pub mod shapes;

use vstd::prelude::*;

use crate::err::Error;
use crate::text::chars_of;

verus! {

/// Which way a quad's texture is mirrored.
#[derive(Clone, Copy, PartialEq, Eq, Structural, Debug)]
pub enum Flip {
    NoFlip,
    X,
    Y,
    XY,
}

/// The point of a shape that sits at its position.
#[derive(Clone, Copy, PartialEq, Eq, Structural, Debug)]
pub enum Origin {
    TopLeft,
    Top,
    TopRight,
    Left,
    Center,
    Right,
    BottomLeft,
    Bottom,
    BottomRight,
}

/// The offset of an origin from the center, one unit per half-extent:
/// x grows to the right and y downwards.
pub open spec fn origin_pt(o: Origin) -> (i32, i32) {
    match o {
        Origin::TopLeft => (-1i32, -1i32),
        Origin::Top => (0i32, -1i32),
        Origin::TopRight => (1i32, -1i32),
        Origin::Left => (-1i32, 0i32),
        Origin::Center => (0i32, 0i32),
        Origin::Right => (1i32, 0i32),
        Origin::BottomLeft => (-1i32, 1i32),
        Origin::Bottom => (0i32, 1i32),
        Origin::BottomRight => (1i32, 1i32),
    }
}

impl Origin {
    /// The offset of this origin from the center, as [`origin_pt`] says.
    pub fn as_pt(&self) -> (r: (i32, i32))
        ensures
            r == origin_pt(*self),
    {
        match self {
            Origin::TopLeft => (-1, -1),
            Origin::Top => (0, -1),
            Origin::TopRight => (1, -1),
            Origin::Left => (-1, 0),
            Origin::Center => (0, 0),
            Origin::Right => (1, 0),
            Origin::BottomLeft => (-1, 1),
            Origin::Bottom => (0, 1),
            Origin::BottomRight => (1, 1),
        }
    }
}

/// Horizontal alignment of text.
#[derive(Clone, Copy, PartialEq, Eq, Structural, Debug)]
pub enum TextAlign {
    Left,
    Center,
    Right,
}

/// Whether normals are computed per vertex or per face.
#[derive(Clone, Copy, PartialEq, Eq, Structural, Debug)]
pub enum NormalMode {
    Vertex,
    Surface,
}

/// How two line segments are joined.
#[derive(Clone, Copy, PartialEq, Eq, Structural, Debug)]
pub enum LineJoin {
    NoJoin,
    Round,
    Bevel,
    Miter,
}

/// How a line ends.
#[derive(Clone, Copy, PartialEq, Eq, Structural, Debug)]
pub enum LineCap {
    Square,
    Butt,
    Round,
}

/// For each corner of a flipped quad, the corner of the unflipped quad
/// whose texture coordinate it takes. Corners are numbered bottom-left,
/// bottom-right, top-right, top-left.
pub open spec fn flip_source(f: Flip, i: int) -> int {
    match f {
        Flip::NoFlip => i,
        Flip::X => if i == 0 {
            1
        } else if i == 1 {
            0
        } else if i == 2 {
            3
        } else {
            2
        },
        Flip::Y => 3 - i,
        Flip::XY => if i < 2 {
            i + 2
        } else {
            i - 2
        },
    }
}

/// The corner values of a quad after flipping.
pub open spec fn flipped<T>(f: Flip, c: Seq<T>) -> Seq<T> {
    Seq::new(4, |i: int| c[flip_source(f, i)])
}

/// Reorders the texture coordinates of a quad's four corners for a flip.
pub fn flip_corners<T: Copy>(f: Flip, c: [T; 4]) -> (r: [T; 4])
    ensures
        r@ == flipped(f, c@),
{
    let r = match f {
        Flip::NoFlip => c,
        Flip::X => [c[1], c[0], c[3], c[2]],
        Flip::Y => [c[3], c[2], c[1], c[0]],
        Flip::XY => [c[2], c[3], c[0], c[1]],
    };
    assert(r@ =~= flipped(f, c@));
    r
}

/// Flipping twice the same way gives back the quad.
pub proof fn lemma_flip_twice<T>(f: Flip, c: Seq<T>)
    requires
        c.len() == 4,
    ensures
        flipped(f, flipped(f, c)) == c,
{
    assert(flipped(f, flipped(f, c)) =~= c);
}

/// Flipping one way and then the other, in either order, is flipping both
/// ways; not flipping changes nothing.
pub proof fn lemma_flip_compose<T>(c: Seq<T>)
    requires
        c.len() == 4,
    ensures
        flipped(Flip::Y, flipped(Flip::X, c)) == flipped(Flip::XY, c),
        flipped(Flip::X, flipped(Flip::Y, c)) == flipped(Flip::XY, c),
        flipped(Flip::NoFlip, c) == c,
{
    assert(flipped(Flip::Y, flipped(Flip::X, c)) =~= flipped(Flip::XY, c));
    assert(flipped(Flip::X, flipped(Flip::Y, c)) =~= flipped(Flip::XY, c));
    assert(flipped(Flip::NoFlip, c) =~= c);
}

/// The grid cell (column, row) of the character at position `i` in a
/// font's character list.
pub open spec fn glyph_cell(i: int, cols: int) -> (int, int) {
    (i % cols, i / cols)
}

/// The last position of `c` in `chars`, if it occurs.
pub open spec fn last_index(chars: Seq<char>, c: char) -> Option<int>
    decreases chars.len(),
{
    if chars.len() == 0 {
        None
    } else if chars.last() == c {
        Some(chars.len() - 1)
    } else {
        last_index(chars.drop_last(), c)
    }
}

/// The message of the error for a font texture that the grid does not fit.
pub open spec fn font_size_message() -> Seq<char> {
    "bitmap font texture size or column / row count not correct"@
}

/// A font drawn from a texture laid out as a grid of equal cells, one
/// character per cell, row by row.
pub struct BitmapFont<T> {
    tex: T,
    chars: Vec<char>,
    cols: usize,
    rows: usize,
    grid_width: i32,
    grid_height: i32,
}

impl<T> BitmapFont<T> {
    /// The characters of the font, in grid order.
    pub closed spec fn char_list(&self) -> Seq<char> {
        self.chars@
    }

    /// The number of grid columns.
    pub closed spec fn columns(&self) -> nat {
        self.cols as nat
    }

    /// The number of grid rows.
    pub closed spec fn row_count(&self) -> nat {
        self.rows as nat
    }

    /// The width of one cell in texels.
    pub closed spec fn cell_width(&self) -> i32 {
        self.grid_width
    }

    /// The height of one cell in texels.
    pub closed spec fn cell_height(&self) -> i32 {
        self.grid_height
    }

    /// The texture.
    pub closed spec fn texture(&self) -> T {
        self.tex
    }

    /// A font from a texture of `tw` by `th` texels cut into `cols` columns
    /// and `rows` rows, whose cells hold `chars` in order. Fails when the
    /// texture does not divide evenly into the grid.
    pub fn from_tex(tex: T, tw: i32, th: i32, cols: usize, rows: usize, chars: &str) -> (r: Result<Self, Error>)
        requires
            0 < cols <= i32::MAX,
            0 < rows <= i32::MAX,
        ensures
            r is Ok <==> ((tw as int) % (cols as int) == 0 && (th as int) % (rows as int) == 0),
            r matches Ok(f) ==> {
                &&& f.texture() == tex
                &&& f.char_list() == chars@
                &&& f.columns() == cols
                &&& f.row_count() == rows
                &&& f.cell_width() == (tw as int) / (cols as int)
                &&& f.cell_height() == (th as int) / (rows as int)
            },
            r matches Err(e) ==> (e matches Error::Gfx(m) && m@ == font_size_message()),
    {
        let (wq, wr) = div_rem(tw, cols as u64);
        let (hq, hr) = div_rem(th, rows as u64);
        if wr != 0 || hr != 0 {
            return Err(Error::Gfx("bitmap font texture size or column / row count not correct".to_string()));
        }
        let cs = chars_of(chars);
        Ok(BitmapFont { tex: tex, chars: cs, cols: cols, rows: rows, grid_width: wq, grid_height: hq })
    }

    /// A font from a texture of `tw` by `th` texels that divides evenly into
    /// `cols` columns and `rows` rows, whose cells hold `chars` in order. A
    /// texture that does not divide evenly is not accepted.
    pub fn new(tex: T, tw: i32, th: i32, cols: usize, rows: usize, chars: &str) -> (f: Self)
        requires
            0 < cols <= i32::MAX,
            0 < rows <= i32::MAX,
            (tw as int) % (cols as int) == 0,
            (th as int) % (rows as int) == 0,
        ensures
            f.texture() == tex,
            f.char_list() == chars@,
            f.columns() == cols,
            f.row_count() == rows,
            f.cell_width() == (tw as int) / (cols as int),
            f.cell_height() == (th as int) / (rows as int),
    {
        let (wq, _) = div_rem(tw, cols as u64);
        let (hq, _) = div_rem(th, rows as u64);
        let cs = chars_of(chars);
        BitmapFont { tex: tex, chars: cs, cols: cols, rows: rows, grid_width: wq, grid_height: hq }
    }

    /// The width of one character in texels.
    pub fn width(&self) -> (r: i32)
        ensures
            r == self.cell_width(),
    {
        self.grid_width
    }

    /// The height of one line of text in texels.
    pub fn height(&self) -> (r: i32)
        ensures
            r == self.cell_height(),
    {
        self.grid_height
    }

    /// The grid cell (column, row) that draws `ch`; where a character occurs
    /// more than once, its last cell. `None` when the font lacks it.
    pub fn cell(&self, ch: char) -> (r: Option<(usize, usize)>)
        requires
            self.columns() > 0,
        ensures
            match last_index(self.char_list(), ch) {
                Some(i) => (r matches Some(p) && p.0 == glyph_cell(i, self.columns() as int).0
                    && p.1 == glyph_cell(i, self.columns() as int).1),
                None => r is None,
            },
    {
        let mut i: usize = self.chars.len();
        assert(self.chars@.take(i as int) =~= self.chars@);
        while i > 0
            invariant
                i <= self.chars@.len(),
                self.cols > 0,
                last_index(self.chars@, ch) == last_index(self.chars@.take(i as int), ch),
            decreases i,
        {
            proof {
                assert(self.chars@.take(i as int).drop_last() =~= self.chars@.take(i - 1));
            }
            if self.chars[i - 1] == ch {
                return Some(((i - 1) % self.cols, (i - 1) / self.cols));
            }
            i = i - 1;
        }
        None
    }
}

/// Divides `x` by a positive `d`: the quotient rounded toward zero, and
/// whether the division leaves a remainder (zero when it is exact).
fn div_rem(x: i32, d: u64) -> (r: (i32, u64))
    requires
        0 < d <= i32::MAX,
    ensures
        (r.1 == 0) == ((x as int) % (d as int) == 0),
        r.1 == 0 ==> r.0 == (x as int) / (d as int),
{
    let t = x as i64;
    let a: u64 = if t < 0 {
        (-t) as u64
    } else {
        t as u64
    };
    let q = a / d;
    let m = a % d;
    proof {
        assert(a == q * d + m) by (nonlinear_arith)
            requires q == a / d, m == a % d, d > 0;
        if t < 0 {
            assert(x as int == -(q * d) - m);
            if m == 0 {
                assert((x as int) == (d as int) * (-(q as int))) by (nonlinear_arith)
                    requires x as int == -(q * d), m == 0;
                vstd::arithmetic::div_mod::lemma_div_multiples_vanish(-(q as int), d as int);
                assert((x as int) == (-(q as int)) * (d as int)) by (nonlinear_arith)
                    requires x as int == -(q * d), m == 0;
                vstd::arithmetic::div_mod::lemma_mod_multiples_basic(-(q as int), d as int);
            } else {
                assert((x as int) % (d as int) != 0) by {
                    vstd::arithmetic::div_mod::lemma_fundamental_div_mod(x as int, d as int);
                    let k = (x as int) / (d as int);
                    if (x as int) % (d as int) == 0 {
                        assert((x as int) == k * d);
                        assert(a as int == -(k * d));
                        assert(a as int == (-k) * (d as int)) by (nonlinear_arith)
                            requires a as int == -(k * d);
                        vstd::arithmetic::div_mod::lemma_mod_multiples_basic(-k, d as int);
                        assert(m == 0);
                    }
                }
            }
        } else {
            assert(x as int == a as int);
        }
    }
    let wq: i64 = if t < 0 {
        -(q as i64)
    } else {
        q as i64
    };
    (wq as i32, m)
}

/// The white RGBA texels for a run of coverage values: each value becomes
/// the alpha of a white texel.
pub open spec fn white_texels(data: Seq<u8>) -> Seq<u8> {
    Seq::new(data.len() * 4, |i: int| if i % 4 == 3 {
        data[i / 4]
    } else {
        255u8
    })
}

/// Expands glyph coverage values into white RGBA texels, for uploading a
/// rasterised glyph into the font texture.
pub fn alpha_to_rgba(data: &[u8]) -> (r: Vec<u8>)
    requires
        data@.len() * 4 <= usize::MAX,
    ensures
        r@ == white_texels(data@),
{
    let mut r: Vec<u8> = Vec::new();
    let mut i: usize = 0;
    while i < data.len()
        invariant
            i <= data@.len(),
            r@.len() == i * 4,
            forall|k: int| 0 <= k < i * 4 ==> r@[k] == #[trigger] white_texels(data@)[k],
        decreases data@.len() - i,
    {
        let ghost k0 = (i * 4) as int;
        r.push(255);
        r.push(255);
        r.push(255);
        r.push(data[i]);
        proof {
            assert(k0 % 4 == 0 && k0 / 4 == i) by (nonlinear_arith)
                requires k0 == i * 4;
            assert((k0 + 1) % 4 == 1 && (k0 + 2) % 4 == 2 && (k0 + 3) % 4 == 3 && (k0 + 3) / 4 == i) by (nonlinear_arith)
                requires k0 == i * 4;
            assert(k0 + 3 < data@.len() * 4) by (nonlinear_arith)
                requires k0 == i * 4, i < data@.len();
        }
        i = i + 1;
    }
    assert(r@ =~= white_texels(data@));
    r
}

/// The triangles of the unit cube's six faces, over its eight corners.
pub open spec fn cube_indices() -> Seq<u32> {
    seq![0, 1, 2, 2, 3, 0, 1, 5, 6, 6, 2, 1, 7, 6, 5, 5, 4, 7, 4, 0, 3, 3, 7, 4, 4, 5, 1, 1, 0, 4, 3, 2, 6, 6, 7, 3]
}

/// Whether corner `c` of the cube, numbered as the cube's vertices are,
/// lies on the positive side along `axis` (0 for x, 1 for y, 2 for z):
/// corners 0 to 3 are the front (positive z), 4 to 7 the back, and
/// within each, the corners go round from the lower left.
pub open spec fn corner_side(c: int, axis: int) -> bool {
    if axis == 0 {
        c % 4 == 1 || c % 4 == 2
    } else if axis == 1 {
        c % 4 >= 2
    } else {
        c < 4
    }
}

/// Corner `c`'s coordinate along `axis`, for a cube of side 2 about the
/// origin.
pub open spec fn corner_pos(c: int, axis: int) -> int {
    if corner_side(c, axis) {
        1
    } else {
        -1
    }
}

/// Whether corner `c` lies on the face of the cube on side `side` of
/// `axis`.
pub open spec fn on_face(c: int, axis: int, side: bool) -> bool {
    0 <= c < 8 && corner_side(c, axis) == side
}

/// Corner `j` (0, 1 or 2) of triangle `t` of an index list.
pub open spec fn tri_corner(ix: Seq<u32>, t: int, j: int) -> int {
    ix[3 * t + j] as int
}

/// Whether triangle `t` lies on the face on side `side` of `axis`.
pub open spec fn tri_on_face(ix: Seq<u32>, t: int, axis: int, side: bool) -> bool {
    &&& on_face(tri_corner(ix, t, 0), axis, side)
    &&& on_face(tri_corner(ix, t, 1), axis, side)
    &&& on_face(tri_corner(ix, t, 2), axis, side)
}

/// Whether corner `c` is one of the corners of triangle `t`.
pub open spec fn tri_has(ix: Seq<u32>, t: int, c: int) -> bool {
    tri_corner(ix, t, 0) == c || tri_corner(ix, t, 1) == c || tri_corner(ix, t, 2) == c
}

/// Along `axis`, the cross product of the edges from corner `a` to `b`
/// and from `a` to `c`: the direction the triangle `a, b, c` faces.
pub open spec fn tri_normal(a: int, b: int, c: int, axis: int) -> int {
    let u1 = corner_pos(b, (axis + 1) % 3) - corner_pos(a, (axis + 1) % 3);
    let u2 = corner_pos(b, (axis + 2) % 3) - corner_pos(a, (axis + 2) % 3);
    let v1 = corner_pos(c, (axis + 1) % 3) - corner_pos(a, (axis + 1) % 3);
    let v2 = corner_pos(c, (axis + 2) % 3) - corner_pos(a, (axis + 2) % 3);
    u1 * v2 - u2 * v1
}

/// Whether the triangle over corners `a`, `b`, `c` turns its front
/// (counter-clockwise) side out of the cube: its normal points away from
/// the centre.
pub open spec fn faces_out(a: int, b: int, c: int) -> bool {
    tri_normal(a, b, c, 0) * corner_pos(a, 0) + tri_normal(a, b, c, 1) * corner_pos(a, 1)
        + tri_normal(a, b, c, 2) * corner_pos(a, 2) > 0
}

/// Whether triangle `t` turns its front side out of the cube.
pub open spec fn tri_faces_out(ix: Seq<u32>, t: int) -> bool {
    faces_out(tri_corner(ix, t, 0), tri_corner(ix, t, 1), tri_corner(ix, t, 2))
}

/// Whether two of the first twelve triangles lie on the face on side
/// `side` of `axis` and together reach all four of its corners.
pub open spec fn face_closed(ix: Seq<u32>, axis: int, side: bool) -> bool {
    exists|t1: int, t2: int| {
        &&& 0 <= t1 < t2 < 12
        &&& #[trigger] tri_on_face(ix, t1, axis, side)
        &&& #[trigger] tri_on_face(ix, t2, axis, side)
        &&& forall|c: int| #[trigger] on_face(c, axis, side) ==> tri_has(ix, t1, c) || tri_has(ix, t2, c)
    }
}

/// The cube's triangles close its surface: there are twelve, each over
/// three different corners of one face and turned outwards, and each of
/// the six faces has two triangles that together reach all four of its
/// corners.
pub proof fn lemma_cube_covers_faces()
    ensures
        cube_indices().len() == 36,
        forall|t: int| 0 <= t < 12 ==> {
            &&& tri_corner(cube_indices(), t, 0) != tri_corner(cube_indices(), t, 1)
            &&& tri_corner(cube_indices(), t, 1) != tri_corner(cube_indices(), t, 2)
            &&& tri_corner(cube_indices(), t, 0) != tri_corner(cube_indices(), t, 2)
            &&& exists|axis: int, side: bool| 0 <= axis < 3 && #[trigger] tri_on_face(cube_indices(), t, axis, side)
            &&& tri_faces_out(cube_indices(), t)
        },
        forall|axis: int, side: bool| 0 <= axis < 3 ==> #[trigger] face_closed(cube_indices(), axis, side),
{
    let ix = cube_indices();
    assert(ix[0] == 0);
    assert(ix[1] == 1);
    assert(ix[2] == 2);
    assert(ix[3] == 2);
    assert(ix[4] == 3);
    assert(ix[5] == 0);
    assert(ix[6] == 1);
    assert(ix[7] == 5);
    assert(ix[8] == 6);
    assert(ix[9] == 6);
    assert(ix[10] == 2);
    assert(ix[11] == 1);
    assert(ix[12] == 7);
    assert(ix[13] == 6);
    assert(ix[14] == 5);
    assert(ix[15] == 5);
    assert(ix[16] == 4);
    assert(ix[17] == 7);
    assert(ix[18] == 4);
    assert(ix[19] == 0);
    assert(ix[20] == 3);
    assert(ix[21] == 3);
    assert(ix[22] == 7);
    assert(ix[23] == 4);
    assert(ix[24] == 4);
    assert(ix[25] == 5);
    assert(ix[26] == 1);
    assert(ix[27] == 1);
    assert(ix[28] == 0);
    assert(ix[29] == 4);
    assert(ix[30] == 3);
    assert(ix[31] == 2);
    assert(ix[32] == 6);
    assert(ix[33] == 6);
    assert(ix[34] == 7);
    assert(ix[35] == 3);
    assert forall|t: int| 0 <= t < 12 implies {
        &&& tri_corner(ix, t, 0) != tri_corner(ix, t, 1)
        &&& tri_corner(ix, t, 1) != tri_corner(ix, t, 2)
        &&& tri_corner(ix, t, 0) != tri_corner(ix, t, 2)
        &&& exists|axis: int, side: bool| 0 <= axis < 3 && #[trigger] tri_on_face(ix, t, axis, side)
        &&& tri_faces_out(ix, t)
    } by {
        if t == 0 {
            assert(tri_on_face(ix, 0, 2, true));
            assert(faces_out(0, 1, 2)) by (nonlinear_arith);
            assert(tri_faces_out(ix, 0));
        } else if t == 1 {
            assert(tri_on_face(ix, 1, 2, true));
            assert(faces_out(2, 3, 0)) by (nonlinear_arith);
            assert(tri_faces_out(ix, 1));
        } else if t == 2 {
            assert(tri_on_face(ix, 2, 0, true));
            assert(faces_out(1, 5, 6)) by (nonlinear_arith);
            assert(tri_faces_out(ix, 2));
        } else if t == 3 {
            assert(tri_on_face(ix, 3, 0, true));
            assert(faces_out(6, 2, 1)) by (nonlinear_arith);
            assert(tri_faces_out(ix, 3));
        } else if t == 4 {
            assert(tri_on_face(ix, 4, 2, false));
            assert(faces_out(7, 6, 5)) by (nonlinear_arith);
            assert(tri_faces_out(ix, 4));
        } else if t == 5 {
            assert(tri_on_face(ix, 5, 2, false));
            assert(faces_out(5, 4, 7)) by (nonlinear_arith);
            assert(tri_faces_out(ix, 5));
        } else if t == 6 {
            assert(tri_on_face(ix, 6, 0, false));
            assert(faces_out(4, 0, 3)) by (nonlinear_arith);
            assert(tri_faces_out(ix, 6));
        } else if t == 7 {
            assert(tri_on_face(ix, 7, 0, false));
            assert(faces_out(3, 7, 4)) by (nonlinear_arith);
            assert(tri_faces_out(ix, 7));
        } else if t == 8 {
            assert(tri_on_face(ix, 8, 1, false));
            assert(faces_out(4, 5, 1)) by (nonlinear_arith);
            assert(tri_faces_out(ix, 8));
        } else if t == 9 {
            assert(tri_on_face(ix, 9, 1, false));
            assert(faces_out(1, 0, 4)) by (nonlinear_arith);
            assert(tri_faces_out(ix, 9));
        } else if t == 10 {
            assert(tri_on_face(ix, 10, 1, true));
            assert(faces_out(3, 2, 6)) by (nonlinear_arith);
            assert(tri_faces_out(ix, 10));
        } else if t == 11 {
            assert(tri_on_face(ix, 11, 1, true));
            assert(faces_out(6, 7, 3)) by (nonlinear_arith);
            assert(tri_faces_out(ix, 11));
        }
    }
    assert forall|axis: int, side: bool| 0 <= axis < 3 implies #[trigger] face_closed(ix, axis, side) by {
        if axis == 0 && side == true {
            assert(tri_on_face(ix, 2, 0, true));
            assert(tri_on_face(ix, 3, 0, true));
            assert forall|c: int| #[trigger] on_face(c, 0, true) implies tri_has(ix, 2, c) || tri_has(ix, 3, c) by {
                assert(0 <= c < 8);
            }
        } else if axis == 0 && side == false {
            assert(tri_on_face(ix, 6, 0, false));
            assert(tri_on_face(ix, 7, 0, false));
            assert forall|c: int| #[trigger] on_face(c, 0, false) implies tri_has(ix, 6, c) || tri_has(ix, 7, c) by {
                assert(0 <= c < 8);
            }
        } else if axis == 1 && side == true {
            assert(tri_on_face(ix, 10, 1, true));
            assert(tri_on_face(ix, 11, 1, true));
            assert forall|c: int| #[trigger] on_face(c, 1, true) implies tri_has(ix, 10, c) || tri_has(ix, 11, c) by {
                assert(0 <= c < 8);
            }
        } else if axis == 1 && side == false {
            assert(tri_on_face(ix, 8, 1, false));
            assert(tri_on_face(ix, 9, 1, false));
            assert forall|c: int| #[trigger] on_face(c, 1, false) implies tri_has(ix, 8, c) || tri_has(ix, 9, c) by {
                assert(0 <= c < 8);
            }
        } else if axis == 2 && side == true {
            assert(tri_on_face(ix, 0, 2, true));
            assert(tri_on_face(ix, 1, 2, true));
            assert forall|c: int| #[trigger] on_face(c, 2, true) implies tri_has(ix, 0, c) || tri_has(ix, 1, c) by {
                assert(0 <= c < 8);
            }
        } else if axis == 2 && side == false {
            assert(tri_on_face(ix, 4, 2, false));
            assert(tri_on_face(ix, 5, 2, false));
            assert forall|c: int| #[trigger] on_face(c, 2, false) implies tri_has(ix, 4, c) || tri_has(ix, 5, c) by {
                assert(0 <= c < 8);
            }
        }
    }
}

/// The cube mesh.
pub struct CubeShape;

impl CubeShape {
    /// The triangles of the cube, as [`cube_indices`] lists them.
    pub fn indices() -> (r: Vec<u32>)
        ensures
            r@ == cube_indices(),
    {
        let r = vec![0, 1, 2, 2, 3, 0, 1, 5, 6, 6, 2, 1, 7, 6, 5, 5, 4, 7, 4, 0, 3, 3, 7, 4, 4, 5, 1, 1, 0, 4, 3, 2, 6, 6, 7, 3];
        assert(r@ =~= cube_indices());
        r
    }
}

} // verus!
