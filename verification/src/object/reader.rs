//! Reading a mesh description.

use crate::object::grammar::{
    after_face, after_line, after_lines, corner_indices, corner_of, corners_of, is_key, key_face,
    key_normal, key_position, key_texcoord, mesh_of, numbers_in, NEWLINE, SLASH,
};
use crate::object::mesh::{
    emitted, lemma_emitted_hold, lemma_emitted_len, Corner, Face, LoadError, LoadOptions,
    MeshView, ParseWarning, Pool, WarningKind,
};
use crate::text::{find, number, parse_index, split, Span};
use vstd::prelude::*;

verus! {

/// A mesh while its lines are read.
struct Draft {
    options: LoadOptions,
    positions: Vec<Span>,
    texcoords: Vec<Span>,
    normals: Vec<Span>,
    faces: Vec<Face>,
    warnings: Vec<ParseWarning>,
}

impl Draft {
    spec fn view(&self) -> MeshView {
        MeshView {
            options: self.options,
            positions: self.positions@,
            texcoords: self.texcoords@,
            normals: self.normals@,
            faces: self.faces@,
            warnings: self.warnings@,
        }
    }

    /// What is read so far is well formed and taken from `text`.
    spec fn sound(&self, text: Seq<u8>) -> bool {
        &&& self@.well_formed()
        &&& numbers_in(text, self.positions@)
        &&& numbers_in(text, self.texcoords@)
        &&& numbers_in(text, self.normals@)
    }
}

/// A mesh description that was read: the tokens of its three pools, its
/// faces and the warnings that its lines left.
///
/// The pools hold whole entries, and every face corner refers to entries that
/// the pools it reads hold.
pub struct Mesh {
    options: LoadOptions,
    positions: Vec<Span>,
    texcoords: Vec<Span>,
    normals: Vec<Span>,
    faces: Vec<Face>,
    warnings: Vec<ParseWarning>,
}

/// Whether the token `span` of `text` is exactly `letters`.
fn key(text: &[u8], span: Span, letters: &[u8]) -> (r: bool)
    requires
        span.start <= span.end <= text@.len(),
    ensures
        r == is_key(text@, span, letters@),
{
    if span.end - span.start != letters.len() {
        return false;
    }
    let mut k: usize = 0;
    while k < letters.len()
        invariant
            span.start <= span.end <= text@.len(),
            span.end - span.start == letters@.len(),
            0 <= k <= letters@.len(),
            forall|j: int| 0 <= j < k ==> #[trigger] text@[span.start + j] == letters@[j],
        decreases letters@.len() - k,
    {
        if text[span.start + k] != letters[k] {
            return false;
        }
        k += 1;
    }
    true
}

/// The index written in the bytes `from..to` of `text`, or one.
fn index_or_first(text: &[u8], from: usize, to: usize) -> (r: usize)
    requires
        from <= to <= text@.len(),
    ensures
        r == crate::object::grammar::file_index(
            crate::text::index_of(text@, from as int, to as int),
        ),
{
    match parse_index(text, from, to) {
        Some(value) => value,
        None => 1,
    }
}

/// The three indices of a corner token, counted from one.
fn indices(text: &[u8], span: Span) -> (r: (usize, usize, usize))
    requires
        span.start <= span.end <= text@.len(),
    ensures
        r == corner_indices(text@, span),
{
    let end = span.end;
    let first = find(text, span.start, end, SLASH);
    let position = index_or_first(text, span.start, first);
    if first >= end {
        return (position, 1, 1);
    }
    let second = find(text, first + 1, end, SLASH);
    let texcoord = index_or_first(text, first + 1, second);
    if second >= end {
        return (position, texcoord, 1);
    }
    let third = find(text, second + 1, end, SLASH);
    let normal = index_or_first(text, second + 1, third);
    (position, texcoord, normal)
}

/// Resolves a corner token of a face on `line` against the pools of `d`.
fn corner(text: &[u8], span: Span, line: usize, d: &Draft) -> (r: Result<Corner, LoadError>)
    requires
        span.start <= span.end <= text@.len(),
    ensures
        r == corner_of(text@, span, line as nat, d@),
        r matches Ok(c) ==> d@.holds(c),
{
    let (position, texcoord, normal) = indices(text, span);
    let positions = d.positions.len() / 3;
    let texcoords = d.texcoords.len() / 2;
    let normals = d.normals.len() / 3;
    let reads_texcoords = d.options.texcoords_read();
    if position < 1 || position > positions {
        return Err(
            LoadError::IndexOutOfRange {
                line,
                pool: Pool::Position,
                index: position,
                available: positions,
            },
        );
    }
    if reads_texcoords && (texcoord < 1 || texcoord > texcoords) {
        return Err(
            LoadError::IndexOutOfRange {
                line,
                pool: Pool::Texcoord,
                index: texcoord,
                available: texcoords,
            },
        );
    }
    if d.options.include_normal && (normal < 1 || normal > normals) {
        return Err(
            LoadError::IndexOutOfRange { line, pool: Pool::Normal, index: normal, available: normals },
        );
    }
    Ok(
        Corner {
            position: position - 1,
            texcoord: if reads_texcoords {
                texcoord - 1
            } else {
                0
            },
            normal: if d.options.include_normal {
                normal - 1
            } else {
                0
            },
        },
    )
}

/// Reads a face line whose tokens are `line_tokens`.
fn read_face(text: &[u8], line_tokens: &Vec<Span>, line: usize, d: &mut Draft) -> (r: Result<
    (),
    LoadError,
>)
    requires
        line_tokens@.len() >= 1,
        forall|k: int|
            0 <= k < line_tokens@.len() ==> (#[trigger] line_tokens@[k]).start <= line_tokens@[k].end
                <= text@.len(),
        old(d).sound(text@),
    ensures
        match r {
            Ok(()) => after_face(text@, line_tokens@, line as nat, old(d)@) == Ok::<
                MeshView,
                LoadError,
            >(final(d)@),
            Err(e) => after_face(text@, line_tokens@, line as nat, old(d)@) == Err::<
                MeshView,
                LoadError,
            >(e),
        },
        final(d).sound(text@),
        final(d)@.options == old(d)@.options,
{
    let count = line_tokens.len() - 1;
    if count != 3 && count != 4 {
        d.warnings.push(ParseWarning { line, kind: WarningKind::UnsupportedFace });
        return Ok(());
    }
    let mut found: Vec<Corner> = Vec::new();
    let mut k: usize = 1;
    while k <= count
        invariant
            1 <= k <= count + 1,
            count == 3 || count == 4,
            count + 1 == line_tokens@.len(),
            *d == *old(d),
            d.sound(text@),
            forall|j: int|
                0 <= j < line_tokens@.len() ==> (#[trigger] line_tokens@[j]).start
                    <= line_tokens@[j].end <= text@.len(),
            corners_of(text@, line_tokens@, k - 1, line as nat, d@) == Ok::<
                Seq<Corner>,
                LoadError,
            >(found@),
            found@.len() == k - 1,
            forall|j: int| 0 <= j < found@.len() ==> d@.holds(#[trigger] found@[j]),
        decreases count + 1 - k,
    {
        match corner(text, line_tokens[k], line, d) {
            Ok(c) => {
                found.push(c);
            },
            Err(e) => {
                proof {
                    lemma_corners_fail(text@, line_tokens@, k as int, count as int, line as nat, d@);
                }
                return Err(e);
            },
        }
        k += 1;
    }
    let face = if count == 3 {
        Face::Triangle(found[0], found[1], found[2])
    } else {
        Face::Quad(found[0], found[1], found[2], found[3])
    };
    assert(d@.holds_face(face));
    d.faces.push(face);
    proof {
        lemma_grown(old(d)@, d@);
    }
    Ok(())
}

/// A mesh that has grown is well formed if it was so before: where the
/// pools have grown by whole entries, the faces that were there still are,
/// and every new face refers to entries that the pools hold.
proof fn lemma_grown(before: MeshView, after: MeshView)
    requires
        before.well_formed(),
        after.options == before.options,
        after.positions.len() >= before.positions.len(),
        after.texcoords.len() >= before.texcoords.len(),
        after.normals.len() >= before.normals.len(),
        after.positions.len() % 3 == 0,
        after.texcoords.len() % 2 == 0,
        after.normals.len() % 3 == 0,
        after.faces.len() >= before.faces.len(),
        forall|i: int| 0 <= i < before.faces.len() ==> #[trigger] after.faces[i] == before.faces[i],
        forall|i: int|
            before.faces.len() <= i < after.faces.len() ==> after.holds_face(
                #[trigger] after.faces[i],
            ),
    ensures
        after.well_formed(),
{
    assert forall|i: int| 0 <= i < after.faces.len() implies after.holds_face(
        #[trigger] after.faces[i],
    ) by {
        if i < before.faces.len() {
            assert(before.holds_face(before.faces[i]));
        }
    }
}

/// Once a corner fails, the corners of the whole line fail with its error.
proof fn lemma_corners_fail(
    text: Seq<u8>,
    line_tokens: Seq<Span>,
    at: int,
    count: int,
    line: nat,
    m: MeshView,
)
    requires
        1 <= at <= count,
        corners_of(text, line_tokens, at - 1, line, m) is Ok,
        corner_of(text, line_tokens[at], line, m) is Err,
    ensures
        corners_of(text, line_tokens, count, line, m) == Err::<Seq<Corner>, LoadError>(
            corner_of(text, line_tokens[at], line, m)->Err_0,
        ),
    decreases count - at,
{
    if at < count {
        lemma_corners_fail(text, line_tokens, at, count - 1, line, m);
    }
}

/// Reads the line of `text` that runs from `from` to `to`.
fn read_line(text: &[u8], from: usize, to: usize, line: usize, d: &mut Draft) -> (r: Result<
    (),
    LoadError,
>)
    requires
        from <= to <= text@.len(),
        old(d).sound(text@),
    ensures
        match r {
            Ok(()) => after_line(text@, from as int, to as int, line as nat, old(d)@) == Ok::<
                MeshView,
                LoadError,
            >(final(d)@),
            Err(e) => after_line(text@, from as int, to as int, line as nat, old(d)@) == Err::<
                MeshView,
                LoadError,
            >(e),
        },
        final(d).sound(text@),
        final(d)@.options == old(d)@.options,
{
    let t = split(text, from, to);
    if t.len() == 0 {
        return Ok(());
    }
    let position: [u8; 1] = [0x76];
    let texcoord: [u8; 2] = [0x76, 0x74];
    let normal: [u8; 2] = [0x76, 0x6e];
    let face: [u8; 1] = [0x66];
    assert(position@ =~= key_position());
    assert(texcoord@ =~= key_texcoord());
    assert(normal@ =~= key_normal());
    assert(face@ =~= key_face());
    if key(text, t[0], position.as_slice()) {
        if t.len() == 4 && number(text, t[1].start, t[1].end) && number(
            text,
            t[2].start,
            t[2].end,
        ) && number(text, t[3].start, t[3].end) {
            d.positions.push(t[1]);
            d.positions.push(t[2]);
            d.positions.push(t[3]);
            proof {
                lemma_grown(old(d)@, d@);
            }
        } else {
            d.warnings.push(ParseWarning { line, kind: WarningKind::MalformedPosition });
        }
        Ok(())
    } else if key(text, t[0], texcoord.as_slice()) {
        if !d.options.include_texcoord {
        } else if t.len() == 3 && number(text, t[1].start, t[1].end) && number(
            text,
            t[2].start,
            t[2].end,
        ) {
            d.texcoords.push(t[1]);
            d.texcoords.push(t[2]);
            proof {
                lemma_grown(old(d)@, d@);
            }
        } else {
            d.warnings.push(ParseWarning { line, kind: WarningKind::MalformedTexcoord });
        }
        Ok(())
    } else if key(text, t[0], normal.as_slice()) {
        if !d.options.include_normal {
        } else if t.len() == 4 && number(text, t[1].start, t[1].end) && number(
            text,
            t[2].start,
            t[2].end,
        ) && number(text, t[3].start, t[3].end) {
            d.normals.push(t[1]);
            d.normals.push(t[2]);
            d.normals.push(t[3]);
            proof {
                lemma_grown(old(d)@, d@);
            }
        } else {
            d.warnings.push(ParseWarning { line, kind: WarningKind::MalformedNormal });
        }
        Ok(())
    } else if key(text, t[0], face.as_slice()) {
        read_face(text, &t, line, d)
    } else {
        Ok(())
    }
}

impl Mesh {
    /// The mesh as a mathematical value.
    pub closed spec fn view(&self) -> MeshView {
        MeshView {
            options: self.options,
            positions: self.positions@,
            texcoords: self.texcoords@,
            normals: self.normals@,
            faces: self.faces@,
            warnings: self.warnings@,
        }
    }

    #[verifier::type_invariant]
    spec fn inv(&self) -> bool {
        self.view().well_formed()
    }

    /// Reads a mesh description.
    ///
    /// The result is what `mesh_of` gives for the bytes of `source`: the mesh,
    /// or the error of the first face that names an entry which its pool
    /// does not hold at that line. The mesh keeps the options under which it
    /// was read. Every token of the pools lies in `source` and is written as
    /// a number.
    ///
    /// The text is read as bytes. Lines end at a line feed; tokens are parted
    /// by the blank bytes of ASCII and by nothing else, so that white space
    /// beyond ASCII is part of a token, and a text need not be UTF-8.
    pub fn parse(source: &[u8], options: LoadOptions) -> (r: Result<Mesh, LoadError>)
        ensures
            match r {
                Ok(mesh) => mesh_of(source@, options) == Ok::<MeshView, LoadError>(mesh@),
                Err(e) => mesh_of(source@, options) == Err::<MeshView, LoadError>(e),
            },
            r matches Ok(mesh) ==> {
                &&& mesh@.options == options
                &&& mesh@.well_formed()
                &&& numbers_in(source@, mesh@.positions)
                &&& numbers_in(source@, mesh@.texcoords)
                &&& numbers_in(source@, mesh@.normals)
            },
    {
        let mut d = Draft {
            options,
            positions: Vec::new(),
            texcoords: Vec::new(),
            normals: Vec::new(),
            faces: Vec::new(),
            warnings: Vec::new(),
        };
        assert(d@ == MeshView::empty(options));
        let len = source.len();
        let mut from: usize = 0;
        let mut line: usize = 1;
        let ghost mut number: nat = 1;
        while from < len
            invariant
                len == source@.len(),
                from <= len,
                from < len ==> line == number && line <= from + 1,
                d@.options == options,
                d.sound(source@),
                mesh_of(source@, options) == after_lines(source@, from as int, number, d@),
            decreases len - from,
        {
            let end = find(source, from, len, NEWLINE);
            match read_line(source, from, end, line, &mut d) {
                Ok(()) => {},
                Err(e) => {
                    return Err(e);
                },
            }
            proof {
                number = number + 1;
            }
            if end == len {
                from = len;
                assert(after_lines(source@, end + 1, number, d@) == after_lines(
                    source@,
                    len as int,
                    number,
                    d@,
                ));
            } else {
                from = end + 1;
                if from < len {
                    line = line + 1;
                }
            }
        }
        Ok(
            Mesh {
                options: d.options,
                positions: d.positions,
                texcoords: d.texcoords,
                normals: d.normals,
                faces: d.faces,
                warnings: d.warnings,
            },
        )
    }

    /// The options under which the mesh was read.
    pub fn options(&self) -> (r: LoadOptions)
        ensures
            r == self@.options,
    {
        self.options
    }

    /// The tokens of the position pool, three for each entry.
    pub fn positions(&self) -> (r: &Vec<Span>)
        ensures
            r@ == self@.positions,
            r@.len() % 3 == 0,
    {
        proof {
            use_type_invariant(self);
        }
        &self.positions
    }

    /// The tokens of the texture coordinate pool, two for each entry.
    pub fn texcoords(&self) -> (r: &Vec<Span>)
        ensures
            r@ == self@.texcoords,
            r@.len() % 2 == 0,
    {
        proof {
            use_type_invariant(self);
        }
        &self.texcoords
    }

    /// The tokens of the normal pool, three for each entry.
    pub fn normals(&self) -> (r: &Vec<Span>)
        ensures
            r@ == self@.normals,
            r@.len() % 3 == 0,
    {
        proof {
            use_type_invariant(self);
        }
        &self.normals
    }

    /// The accepted faces in file order.
    pub fn faces(&self) -> (r: &Vec<Face>)
        ensures
            r@ == self@.faces,
            self@.well_formed(),
    {
        proof {
            use_type_invariant(self);
        }
        &self.faces
    }

    /// The lines that were passed over, in file order.
    pub fn warnings(&self) -> (r: &Vec<ParseWarning>)
        ensures
            r@ == self@.warnings,
    {
        &self.warnings
    }

    /// The corners of the triangles into which the faces are cut, three for
    /// each triangle: a triangle gives its corners in file order, a quad
    /// `(a, b, c, d)` gives `a, b, c, a, c, d`.
    pub fn corners(&self) -> (r: Vec<Corner>)
        ensures
            r@ == self@.corners(),
            r@.len() % 3 == 0,
            forall|k: int| 0 <= k < r@.len() ==> self@.holds(#[trigger] r@[k]),
    {
        proof {
            use_type_invariant(self);
        }
        let mut out: Vec<Corner> = Vec::new();
        let mut i: usize = 0;
        while i < self.faces.len()
            invariant
                0 <= i <= self.faces@.len(),
                out@ == emitted(self.faces@.take(i as int)),
            decreases self.faces@.len() - i,
        {
            proof {
                let part = self.faces@.take(i + 1);
                assert(part.drop_last() == self.faces@.take(i as int));
                assert(part.last() == self.faces@[i as int]);
            }
            match self.faces[i] {
                Face::Triangle(a, b, c) => {
                    out.push(a);
                    out.push(b);
                    out.push(c);
                },
                Face::Quad(a, b, c, e) => {
                    out.push(a);
                    out.push(b);
                    out.push(c);
                    out.push(a);
                    out.push(c);
                    out.push(e);
                },
            }
            i += 1;
        }
        proof {
            assert(self.faces@.take(self.faces@.len() as int) == self.faces@);
            lemma_emitted_len(self.faces@);
            lemma_emitted_hold(self@, self.faces@.len() as int);
        }
        out
    }
}

} // verus!
