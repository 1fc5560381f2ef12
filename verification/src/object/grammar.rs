//! The meaning of a mesh description, line by line, as a function of its
//! bytes.

use crate::object::mesh::{Corner, Face, LoadError, LoadOptions, MeshView, Pool, WarningKind};
use crate::text::{find_byte, index_of, is_number, lemma_find_byte, tokens, Span};
use vstd::prelude::*;

verus! {

/// The byte that ends a line.
pub const NEWLINE: u8 = 0x0a;

/// The byte that parts the indices of a face corner: a slash.
pub const SLASH: u8 = 0x2f;

/// The directive of a position line: `v`.
pub open spec fn key_position() -> Seq<u8> {
    seq![0x76u8]
}

/// The directive of a texture coordinate line: `vt`.
pub open spec fn key_texcoord() -> Seq<u8> {
    seq![0x76u8, 0x74u8]
}

/// The directive of a normal line: `vn`.
pub open spec fn key_normal() -> Seq<u8> {
    seq![0x76u8, 0x6eu8]
}

/// The directive of a face line: `f`.
pub open spec fn key_face() -> Seq<u8> {
    seq![0x66u8]
}

/// The token `span` of `text` is exactly `word`.
pub open spec fn is_key(text: Seq<u8>, span: Span, word: Seq<u8>) -> bool {
    &&& span.end - span.start == word.len()
    &&& forall|k: int| 0 <= k < word.len() ==> #[trigger] text[span.start + k] == word[k]
}

/// Token `k` of a line is written as a number.
pub open spec fn number_at(text: Seq<u8>, line: Seq<Span>, k: int) -> bool {
    is_number(text, line[k].start as int, line[k].end as int)
}

/// The index that a corner gives for one pool, counted from one: the number
/// written, or one where none is written or what is written is no index.
pub open spec fn file_index(written: Option<usize>) -> usize {
    match written {
        Some(value) => value,
        None => 1,
    }
}

/// The three indices of a corner token, counted from one as in the text: for
/// the position, the texture coordinate and the normal. The token is cut at
/// its slashes; a part that is missing gives index one.
pub open spec fn corner_indices(text: Seq<u8>, span: Span) -> (usize, usize, usize) {
    let start = span.start as int;
    let end = span.end as int;
    let first = find_byte(text, start, end, SLASH);
    let second = if first < end {
        find_byte(text, first + 1, end, SLASH)
    } else {
        end
    };
    let third = if second < end {
        find_byte(text, second + 1, end, SLASH)
    } else {
        end
    };
    (
        file_index(index_of(text, start, first)),
        if first < end {
            file_index(index_of(text, first + 1, second))
        } else {
            1
        },
        if second < end {
            file_index(index_of(text, second + 1, third))
        } else {
            1
        },
    )
}

/// An index counted from one names an entry of a pool of `available` entries.
pub open spec fn in_pool(index: usize, available: nat) -> bool {
    1 <= index <= available
}

/// The corner that a token of a face on `line` stands for in the mesh `m`, or
/// the first index of it that names no entry: the position is looked at
/// first, then the texture coordinate, then the normal, the latter two only
/// where their pool is read.
pub open spec fn corner_of(text: Seq<u8>, span: Span, line: nat, m: MeshView) -> Result<
    Corner,
    LoadError,
> {
    let (position, texcoord, normal) = corner_indices(text, span);
    let positions = m.positions.len() / 3;
    let texcoords = m.texcoords.len() / 2;
    let normals = m.normals.len() / 3;
    if !in_pool(position, positions) {
        Err(
            LoadError::IndexOutOfRange {
                line: line as usize,
                pool: Pool::Position,
                index: position,
                available: positions as usize,
            },
        )
    } else if m.options.reads_texcoords() && !in_pool(texcoord, texcoords) {
        Err(
            LoadError::IndexOutOfRange {
                line: line as usize,
                pool: Pool::Texcoord,
                index: texcoord,
                available: texcoords as usize,
            },
        )
    } else if m.options.include_normal && !in_pool(normal, normals) {
        Err(
            LoadError::IndexOutOfRange {
                line: line as usize,
                pool: Pool::Normal,
                index: normal,
                available: normals as usize,
            },
        )
    } else {
        Ok(
            Corner {
                position: (position - 1) as usize,
                texcoord: if m.options.reads_texcoords() {
                    (texcoord - 1) as usize
                } else {
                    0
                },
                normal: if m.options.include_normal {
                    (normal - 1) as usize
                } else {
                    0
                },
            },
        )
    }
}

/// The corners that the tokens `1..=count` of a face line stand for, or the
/// error of the first of them that has one.
pub open spec fn corners_of(
    text: Seq<u8>,
    line_tokens: Seq<Span>,
    count: int,
    line: nat,
    m: MeshView,
) -> Result<Seq<Corner>, LoadError>
    decreases count,
{
    if count <= 0 {
        Ok(Seq::empty())
    } else {
        match corners_of(text, line_tokens, count - 1, line, m) {
            Err(e) => Err(e),
            Ok(before) => match corner_of(text, line_tokens[count], line, m) {
                Err(e) => Err(e),
                Ok(c) => Ok(before.push(c)),
            },
        }
    }
}

/// The mesh after a face line: with three corners one more triangle, with
/// four one more quad, with any other number a warning. A corner that names
/// no entry of a pool gives up the load.
pub open spec fn after_face(text: Seq<u8>, line_tokens: Seq<Span>, line: nat, m: MeshView) -> Result<
    MeshView,
    LoadError,
> {
    let count = line_tokens.len() - 1;
    if count == 3 || count == 4 {
        match corners_of(text, line_tokens, count, line, m) {
            Err(e) => Err(e),
            Ok(c) => Ok(
                MeshView {
                    faces: m.faces.push(
                        if count == 3 {
                            Face::Triangle(c[0], c[1], c[2])
                        } else {
                            Face::Quad(c[0], c[1], c[2], c[3])
                        },
                    ),
                    ..m
                },
            ),
        }
    } else {
        Ok(m.warned(line, WarningKind::UnsupportedFace))
    }
}

/// The mesh after the line of `text` that runs from `from` to `to` and has
/// the number `line`.
///
/// A position line with exactly three numbers adds them to the position pool.
/// A texture coordinate line with exactly two numbers, or a normal line with
/// exactly three, adds them to its pool if the options ask for the attribute,
/// and is passed over in silence if they do not. Such a line with other
/// contents leaves a warning. A face line is read by `after_face`. Every
/// other line changes nothing.
pub open spec fn after_line(text: Seq<u8>, from: int, to: int, line: nat, m: MeshView) -> Result<
    MeshView,
    LoadError,
> {
    let t = tokens(text, from, to);
    if t.len() == 0 {
        Ok(m)
    } else if is_key(text, t[0], key_position()) {
        if t.len() == 4 && number_at(text, t, 1) && number_at(text, t, 2) && number_at(text, t, 3) {
            Ok(MeshView { positions: m.positions.push(t[1]).push(t[2]).push(t[3]), ..m })
        } else {
            Ok(m.warned(line, WarningKind::MalformedPosition))
        }
    } else if is_key(text, t[0], key_texcoord()) {
        if !m.options.include_texcoord {
            Ok(m)
        } else if t.len() == 3 && number_at(text, t, 1) && number_at(text, t, 2) {
            Ok(MeshView { texcoords: m.texcoords.push(t[1]).push(t[2]), ..m })
        } else {
            Ok(m.warned(line, WarningKind::MalformedTexcoord))
        }
    } else if is_key(text, t[0], key_normal()) {
        if !m.options.include_normal {
            Ok(m)
        } else if t.len() == 4 && number_at(text, t, 1) && number_at(text, t, 2) && number_at(
            text,
            t,
            3,
        ) {
            Ok(MeshView { normals: m.normals.push(t[1]).push(t[2]).push(t[3]), ..m })
        } else {
            Ok(m.warned(line, WarningKind::MalformedNormal))
        }
    } else if is_key(text, t[0], key_face()) {
        after_face(text, t, line, m)
    } else {
        Ok(m)
    }
}

/// The mesh after the lines of `text` from offset `from` on, the first of
/// which has the number `line`, or the error of the first line that gives up
/// the load. Lines end at a line feed or at the end of the text; a carriage
/// return before the line feed is a blank byte like any other.
pub open spec fn after_lines(text: Seq<u8>, from: int, line: nat, m: MeshView) -> Result<
    MeshView,
    LoadError,
>
    decreases text.len() + 1 - from,
{
    if from >= text.len() {
        Ok(m)
    } else {
        let end = find_byte(text, from, text.len() as int, NEWLINE);
        proof {
            lemma_find_byte(text, from, text.len() as int, NEWLINE);
        }
        match after_line(text, from, end, line, m) {
            Err(e) => Err(e),
            Ok(next) => after_lines(text, end + 1, line + 1, next),
        }
    }
}

/// What a mesh description means under the given options: the mesh that its
/// lines build up from nothing, or the reason why it cannot be loaded.
pub open spec fn mesh_of(text: Seq<u8>, options: LoadOptions) -> Result<MeshView, LoadError> {
    after_lines(text, 0, 1, MeshView::empty(options))
}

/// Every span of `spans` lies in `text` and is written as a number.
pub open spec fn numbers_in(text: Seq<u8>, spans: Seq<Span>) -> bool {
    forall|i: int|
        0 <= i < spans.len() ==> (#[trigger] spans[i]).within(text.len() as int) && is_number(
            text,
            spans[i].start as int,
            spans[i].end as int,
        )
}

/// An index that is not written stands for the first entry.
///
/// A corner token without a slash gives index one, and so entry zero, for
/// the texture coordinate and for the normal. A token with one slash gives it
/// for the normal. A part between or after slashes that is empty gives it for
/// the index of that part.
pub proof fn lemma_missing_index_is_first(text: Seq<u8>, span: Span, line: nat, m: MeshView)
    requires
        span.start <= span.end <= text.len(),
    ensures
        ({
            let start = span.start as int;
            let end = span.end as int;
            let first = find_byte(text, start, end, SLASH);
            let second = find_byte(text, first + 1, end, SLASH);
            let found = corner_indices(text, span);
            &&& first == end ==> found.1 == 1 && found.2 == 1
            &&& first < end && second == end ==> found.2 == 1
            &&& first < end && second == first + 1 ==> found.1 == 1
            &&& first < end && second < end && find_byte(text, second + 1, end, SLASH) == second
                + 1 ==> found.2 == 1
            &&& corner_of(text, span, line, m) matches Ok(c) ==> {
                &&& found.1 == 1 ==> c.texcoord == 0
                &&& found.2 == 1 ==> c.normal == 0
            }
        }),
{
    lemma_find_byte(text, span.start as int, span.end as int, SLASH);
}

/// The corners of a face line fail only by an index that is out of range,
/// and the error names the line of the face.
pub proof fn lemma_corners_fail_by_index(
    text: Seq<u8>,
    line_tokens: Seq<Span>,
    count: int,
    line: nat,
    m: MeshView,
)
    ensures
        corners_of(text, line_tokens, count, line, m) matches Err(e) ==> e matches LoadError::IndexOutOfRange {
            line: at,
            ..
        } && at == line as usize,
    decreases count,
{
    if count > 0 {
        lemma_corners_fail_by_index(text, line_tokens, count - 1, line, m);
    }
}

/// Only a face gives up a load. Whatever else a description holds, lines
/// that are malformed, faces with too few or too many corners, directives
/// that are not known: the load goes on. If it is given up, then because a
/// face names an entry which its pool does not hold.
pub proof fn lemma_only_faces_give_up(text: Seq<u8>, from: int, line: nat, m: MeshView)
    ensures
        after_lines(text, from, line, m) matches Err(e) ==> e is IndexOutOfRange,
    decreases text.len() + 1 - from,
{
    if from < text.len() {
        let end = find_byte(text, from, text.len() as int, NEWLINE);
        lemma_find_byte(text, from, text.len() as int, NEWLINE);
        let t = tokens(text, from, end);
        lemma_corners_fail_by_index(text, t, t.len() - 1, line, m);
        match after_line(text, from, end, line, m) {
            Err(e) => {},
            Ok(next) => {
                lemma_only_faces_give_up(text, end + 1, line + 1, next);
            },
        }
    }
}

} // verus!
