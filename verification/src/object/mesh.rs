//! What a mesh description holds once it is read: where each number stands in
//! the text, and which entries of the three pools each face corner refers to.

use crate::text::Span;
use vstd::prelude::*;

verus! {

/// Which attributes a vertex carries besides its position.
#[derive(Clone, Copy, Debug, PartialEq, Eq)]
pub struct LoadOptions {
    pub include_texcoord: bool,
    pub include_normal: bool,
    pub include_tangent_bitangent: bool,
}

impl LoadOptions {
    /// Texture coordinates are read from their pool: they are either emitted
    /// or needed for the tangent basis. The pool is filled only where they
    /// are emitted, so a load that asks for tangents without texture
    /// coordinates is given up at its first face.
    pub open spec fn reads_texcoords(self) -> bool {
        self.include_texcoord || self.include_tangent_bitangent
    }

    /// The number of scalars of one vertex: three for the position, two for
    /// the texture coordinate, three for the normal, six for tangent and
    /// bitangent, each counted only when requested.
    pub open spec fn stride_of(self) -> nat {
        (3 + if self.include_texcoord {
            2nat
        } else {
            0nat
        } + if self.include_normal {
            3nat
        } else {
            0nat
        } + if self.include_tangent_bitangent {
            6nat
        } else {
            0nat
        }) as nat
    }

    /// The options for the given choices.
    pub fn new(
        include_texcoord: bool,
        include_normal: bool,
        include_tangent_bitangent: bool,
    ) -> (r: LoadOptions)
        ensures
            r == (LoadOptions { include_texcoord, include_normal, include_tangent_bitangent }),
    {
        LoadOptions { include_texcoord, include_normal, include_tangent_bitangent }
    }

    /// Whether the texture coordinate pool is read.
    pub fn texcoords_read(&self) -> (r: bool)
        ensures
            r == self.reads_texcoords(),
    {
        self.include_texcoord || self.include_tangent_bitangent
    }

    /// The number of scalars that one vertex takes in the stream.
    pub fn stride(&self) -> (r: usize)
        ensures
            r == self.stride_of(),
            3 <= r <= 14,
    {
        let mut n: usize = 3;
        if self.include_texcoord {
            n += 2;
        }
        if self.include_normal {
            n += 3;
        }
        if self.include_tangent_bitangent {
            n += 6;
        }
        n
    }
}

/// One of the three pools that face corners index.
#[derive(Clone, Copy, Debug, PartialEq, Eq)]
pub enum Pool {
    Position,
    Texcoord,
    Normal,
}

/// One of the four arrays of scalars from which a stream is put together.
#[derive(Clone, Copy, Debug, PartialEq, Eq)]
pub enum Scalars {
    Position,
    Texcoord,
    Normal,
    Tangent,
}

/// A vertex reference of a face: the entries of the three pools that it
/// names, counted from zero. The index into a pool that is not read is zero.
#[derive(Clone, Copy, Debug, PartialEq, Eq)]
pub struct Corner {
    pub position: usize,
    pub texcoord: usize,
    pub normal: usize,
}

/// A face as the text gives it, its corners in file order.
#[derive(Clone, Copy, Debug, PartialEq, Eq)]
pub enum Face {
    Triangle(Corner, Corner, Corner),
    Quad(Corner, Corner, Corner, Corner),
}

/// Why a line was passed over.
#[derive(Clone, Copy, Debug, PartialEq, Eq)]
pub enum WarningKind {
    /// A position line without exactly three numbers.
    MalformedPosition,
    /// A texture coordinate line without exactly two numbers.
    MalformedTexcoord,
    /// A normal line without exactly three numbers.
    MalformedNormal,
    /// A face line with fewer than three corners or more than four.
    UnsupportedFace,
}

/// A line that was passed over, counted from one, and why.
#[derive(Clone, Copy, Debug, PartialEq, Eq)]
pub struct ParseWarning {
    pub line: usize,
    pub kind: WarningKind,
}

/// Why a load was given up.
#[derive(Clone, Copy, Debug, PartialEq, Eq)]
pub enum LoadError {
    /// The face on `line` names entry `index` of `pool`, counted from one as
    /// in the text, while the pool holds `available` entries at that line.
    IndexOutOfRange { line: usize, pool: Pool, index: usize, available: usize },
    /// `found` scalars were handed in for an array that needs `expected`.
    ScalarCount { scalars: Scalars, expected: usize, found: usize },
}

/// The faces cut into triangles: a triangle gives its three corners, a quad
/// the fan of two triangles around its first corner.
pub open spec fn fan(face: Face) -> Seq<Corner> {
    match face {
        Face::Triangle(a, b, c) => seq![a, b, c],
        Face::Quad(a, b, c, d) => seq![a, b, c, a, c, d],
    }
}

/// The corners that a list of faces emits, face after face.
pub open spec fn emitted(faces: Seq<Face>) -> Seq<Corner>
    decreases faces.len(),
{
    if faces.len() == 0 {
        Seq::empty()
    } else {
        emitted(faces.drop_last()) + fan(faces.last())
    }
}

/// A mesh description as a mathematical value.
pub struct MeshView {
    pub options: LoadOptions,
    /// The tokens of the position pool, three for each entry.
    pub positions: Seq<Span>,
    /// The tokens of the texture coordinate pool, two for each entry.
    pub texcoords: Seq<Span>,
    /// The tokens of the normal pool, three for each entry.
    pub normals: Seq<Span>,
    /// The accepted faces in file order.
    pub faces: Seq<Face>,
    /// The lines passed over, in file order.
    pub warnings: Seq<ParseWarning>,
}

impl MeshView {
    /// The mesh that holds nothing yet.
    pub open spec fn empty(options: LoadOptions) -> MeshView {
        MeshView {
            options,
            positions: Seq::empty(),
            texcoords: Seq::empty(),
            normals: Seq::empty(),
            faces: Seq::empty(),
            warnings: Seq::empty(),
        }
    }

    /// The same mesh with one more warning.
    pub open spec fn warned(self, line: nat, kind: WarningKind) -> MeshView {
        MeshView { warnings: self.warnings.push(ParseWarning { line: line as usize, kind }), ..self }
    }

    /// The corners of all triangles, three for each.
    pub open spec fn corners(self) -> Seq<Corner> {
        emitted(self.faces)
    }

    /// A corner refers to entries that the pools hold, as far as they are read.
    pub open spec fn holds(self, c: Corner) -> bool {
        &&& 3 * (c.position + 1) <= self.positions.len()
        &&& self.options.reads_texcoords() ==> 2 * (c.texcoord + 1) <= self.texcoords.len()
        &&& self.options.include_normal ==> 3 * (c.normal + 1) <= self.normals.len()
    }

    /// A face refers only to entries that the pools hold.
    pub open spec fn holds_face(self, f: Face) -> bool {
        match f {
            Face::Triangle(a, b, c) => self.holds(a) && self.holds(b) && self.holds(c),
            Face::Quad(a, b, c, d) => self.holds(a) && self.holds(b) && self.holds(c)
                && self.holds(d),
        }
    }

    /// The pools hold whole entries, and every face refers to entries that
    /// they hold.
    pub open spec fn well_formed(self) -> bool {
        &&& self.positions.len() % 3 == 0
        &&& self.texcoords.len() % 2 == 0
        &&& self.normals.len() % 3 == 0
        &&& forall|i: int| 0 <= i < self.faces.len() ==> self.holds_face(#[trigger] self.faces[i])
    }
}

/// The number of corners emitted: three for each triangle, six for each quad.
pub open spec fn emitted_len(faces: Seq<Face>) -> nat
    decreases faces.len(),
{
    if faces.len() == 0 {
        0
    } else {
        emitted_len(faces.drop_last()) + match faces.last() {
            Face::Triangle(..) => 3nat,
            Face::Quad(..) => 6nat,
        }
    }
}

/// The number of emitted corners is a multiple of three and is what
/// `emitted_len` counts.
pub proof fn lemma_emitted_len(faces: Seq<Face>)
    ensures
        emitted(faces).len() == emitted_len(faces),
        emitted(faces).len() % 3 == 0,
    decreases faces.len(),
{
    if faces.len() > 0 {
        lemma_emitted_len(faces.drop_last());
    }
}

/// A mesh of triangles alone emits three corners for each face.
pub proof fn lemma_triangles_emit_three_each(faces: Seq<Face>)
    requires
        forall|i: int| 0 <= i < faces.len() ==> (#[trigger] faces[i]) is Triangle,
    ensures
        emitted(faces).len() == 3 * faces.len(),
    decreases faces.len(),
{
    if faces.len() > 0 {
        let front = faces.drop_last();
        assert forall|i: int| 0 <= i < front.len() implies (#[trigger] front[i]) is Triangle by {
            assert(front[i] == faces[i]);
        }
        lemma_triangles_emit_three_each(front);
    }
}

/// The offset in the emitted corners at which the corners of face `index`
/// begin.
pub open spec fn emitted_before(faces: Seq<Face>, index: int) -> nat {
    emitted(faces.take(index)).len()
}

/// The corners of face `index` stand in the emitted corners as its fan, at
/// the offset `emitted_before`: a quad `(a, b, c, d)` gives `a, b, c, a, c, d`.
pub proof fn lemma_emitted_face(faces: Seq<Face>, index: int)
    requires
        0 <= index < faces.len(),
    ensures
        emitted_before(faces, index) + fan(faces[index]).len() <= emitted(faces).len(),
        emitted(faces).subrange(
            emitted_before(faces, index) as int,
            (emitted_before(faces, index) + fan(faces[index]).len()) as int,
        ) == fan(faces[index]),
    decreases faces.len(),
{
    let front = faces.drop_last();
    if index == faces.len() - 1 {
        assert(faces.take(index) == front);
        assert(emitted(faces).subrange(
            emitted(front).len() as int,
            (emitted(front).len() + fan(faces.last()).len()) as int,
        ) =~= fan(faces.last()));
    } else {
        lemma_emitted_face(front, index);
        assert(front.take(index) == faces.take(index));
        assert(front[index] == faces[index]);
        let at = emitted_before(faces, index) as int;
        let n = fan(faces[index]).len() as int;
        assert(emitted(faces).subrange(at, at + n) =~= emitted(front).subrange(at, at + n));
    }
}

/// Every emitted corner of a well-formed mesh refers to entries that the
/// pools hold.
pub proof fn lemma_emitted_hold(m: MeshView, upto: int)
    requires
        m.well_formed(),
        0 <= upto <= m.faces.len(),
    ensures
        forall|k: int|
            0 <= k < emitted(m.faces.take(upto)).len() ==> m.holds(
                #[trigger] emitted(m.faces.take(upto))[k],
            ),
    decreases upto,
{
    if upto > 0 {
        lemma_emitted_hold(m, upto - 1);
        let part = m.faces.take(upto);
        assert(part.drop_last() == m.faces.take(upto - 1));
        assert(part.last() == m.faces[upto - 1]);
        assert(m.holds_face(m.faces[upto - 1]));
        let before = emitted(part.drop_last());
        assert forall|k: int| 0 <= k < emitted(part).len() implies m.holds(
            #[trigger] emitted(part)[k],
        ) by {
            if k < before.len() {
                assert(emitted(part)[k] == before[k]);
            } else {
                assert(emitted(part)[k] == fan(part.last())[k - before.len()]);
            }
        }
    }
}

} // verus!
