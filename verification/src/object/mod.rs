//! Mesh ingestion: from the text of a mesh description to the interleaved
//! vertex stream.
//!
//! A description is read in two steps. `Mesh::parse` reads the text: it finds
//! the numbers of the three pools, resolves the corners of the faces and cuts
//! the faces into triangles. `obj::load_new` then puts the stream together
//! from the values of those numbers. The scalars are of any type that can be
//! copied: the stream only moves them.

pub mod grammar;
pub mod mesh;
pub mod reader;

use crate::object::mesh::{Corner, LoadError, LoadOptions, MeshView, Scalars};
use crate::object::reader::Mesh;
use vstd::prelude::*;

verus! {

/// The attributes of one vertex. The position is always there; each of the
/// others is there if it was asked for.
pub struct VertexData<T> {
    pub position: (T, T, T),
    pub uv: Option<(T, T)>,
    pub normal: Option<(T, T, T)>,
    pub tangent: Option<(T, T, T)>,
    pub bitangent: Option<(T, T, T)>,
}

/// The scalars of a pair, or none.
pub open spec fn pair_scalars<T>(p: Option<(T, T)>) -> Seq<T> {
    match p {
        Some((a, b)) => seq![a, b],
        None => Seq::empty(),
    }
}

/// The scalars of a triple, or none.
pub open spec fn triple_scalars<T>(p: Option<(T, T, T)>) -> Seq<T> {
    match p {
        Some((a, b, c)) => seq![a, b, c],
        None => Seq::empty(),
    }
}

impl<T: Copy> VertexData<T> {
    /// The scalars of the vertex in stream order: position, texture
    /// coordinate, normal, tangent, bitangent.
    pub open spec fn scalars(self) -> Seq<T> {
        seq![self.position.0, self.position.1, self.position.2] + pair_scalars(self.uv)
            + triple_scalars(self.normal) + triple_scalars(self.tangent) + triple_scalars(
            self.bitangent,
        )
    }

    /// Appends the scalars of the vertex to `vertices`.
    pub fn push(&self, vertices: &mut Vec<T>)
        ensures
            final(vertices)@ == old(vertices)@ + self.scalars(),
    {
        vertices.push(self.position.0);
        vertices.push(self.position.1);
        vertices.push(self.position.2);
        if let Some(uv) = self.uv {
            vertices.push(uv.0);
            vertices.push(uv.1);
        }
        if let Some(normal) = self.normal {
            vertices.push(normal.0);
            vertices.push(normal.1);
            vertices.push(normal.2);
        }
        if let Some(tangent) = self.tangent {
            vertices.push(tangent.0);
            vertices.push(tangent.1);
            vertices.push(tangent.2);
        }
        if let Some(bitangent) = self.bitangent {
            vertices.push(bitangent.0);
            vertices.push(bitangent.1);
            vertices.push(bitangent.2);
        }
        assert(vertices@ =~= old(vertices)@ + self.scalars());
    }
}

/// The values of the numbers of a mesh, pool by pool, and the tangent bases
/// of its triangles.
pub struct Values<T> {
    /// One value for each token of the position pool.
    pub positions: Seq<T>,
    /// One value for each token of the texture coordinate pool.
    pub uvs: Seq<T>,
    /// One value for each token of the normal pool.
    pub normals: Seq<T>,
    /// Six values for each triangle, its tangent and then its bitangent, if
    /// they are asked for; none otherwise.
    pub tangents: Seq<T>,
}

/// The number of tangent scalars that a mesh needs: six for each triangle
/// where the options ask for them.
pub open spec fn tangents_needed(m: MeshView) -> nat {
    if m.options.include_tangent_bitangent {
        2 * m.corners().len()
    } else {
        0
    }
}

/// The first array whose length is not what the mesh needs, in the order
/// positions, texture coordinates, normals, tangents; none if all fit. A
/// number that the machine word cannot hold is given as the largest that it
/// can.
pub open spec fn count_error<T>(m: MeshView, v: Values<T>) -> Option<LoadError> {
    if v.positions.len() != m.positions.len() {
        Some(
            LoadError::ScalarCount {
                scalars: Scalars::Position,
                expected: m.positions.len() as usize,
                found: v.positions.len() as usize,
            },
        )
    } else if v.uvs.len() != m.texcoords.len() {
        Some(
            LoadError::ScalarCount {
                scalars: Scalars::Texcoord,
                expected: m.texcoords.len() as usize,
                found: v.uvs.len() as usize,
            },
        )
    } else if v.normals.len() != m.normals.len() {
        Some(
            LoadError::ScalarCount {
                scalars: Scalars::Normal,
                expected: m.normals.len() as usize,
                found: v.normals.len() as usize,
            },
        )
    } else if v.tangents.len() != tangents_needed(m) {
        Some(
            LoadError::ScalarCount {
                scalars: Scalars::Tangent,
                expected: if tangents_needed(m) <= usize::MAX {
                    tangents_needed(m) as usize
                } else {
                    usize::MAX
                },
                found: v.tangents.len() as usize,
            },
        )
    } else {
        None
    }
}

/// The scalars of the vertex at corner `c` of triangle `triangle`: its
/// position, then its texture coordinate, its normal, and the tangent and
/// bitangent of its triangle, each only if the options ask for it.
pub open spec fn record<T>(options: LoadOptions, c: Corner, triangle: int, v: Values<T>) -> Seq<T> {
    v.positions.subrange(3 * c.position, 3 * c.position + 3) + (if options.include_texcoord {
        v.uvs.subrange(2 * c.texcoord, 2 * c.texcoord + 2)
    } else {
        Seq::empty()
    }) + (if options.include_normal {
        v.normals.subrange(3 * c.normal, 3 * c.normal + 3)
    } else {
        Seq::empty()
    }) + (if options.include_tangent_bitangent {
        v.tangents.subrange(6 * triangle, 6 * triangle + 6)
    } else {
        Seq::empty()
    })
}

/// The stream of the first `count` corners: their records one after another.
/// Corner `k` belongs to triangle `k / 3`.
pub open spec fn stream<T>(options: LoadOptions, corners: Seq<Corner>, count: int, v: Values<T>) -> Seq<
    T,
>
    decreases count,
{
    if count <= 0 {
        Seq::empty()
    } else {
        stream(options, corners, count - 1, v) + record(
            options,
            corners[count - 1],
            (count - 1) / 3,
            v,
        )
    }
}

/// The interleaved vertex stream of a mesh.
#[allow(non_camel_case_types)]
pub struct obj<T> {
    vertices: Vec<T>,
    stride: usize,
    count: usize,
}

impl<T> obj<T> {
    /// The scalars of the stream.
    pub closed spec fn view(&self) -> Seq<T> {
        self.vertices@
    }

    /// The number of scalars of one vertex.
    pub closed spec fn stride_of(&self) -> nat {
        self.stride as nat
    }

    /// The number of vertices.
    pub closed spec fn count_of(&self) -> nat {
        self.count as nat
    }

    #[verifier::type_invariant]
    spec fn inv(&self) -> bool {
        self.vertices@.len() == self.stride * self.count
    }
}

impl<T: Copy> obj<T> {
    /// Puts the stream of `mesh` together from the values of its numbers.
    ///
    /// `positions`, `uvs` and `normals` hold one value for each token of the
    /// pool, in the order of the pool. `tangents` holds six values for each
    /// triangle, in the order of `Mesh::corners`, if the options of the mesh
    /// ask for tangents, and nothing otherwise. An array of another length is
    /// refused.
    ///
    /// The stream holds one record for each corner of `Mesh::corners`, in
    /// that order, and each record holds what `record` says.
    pub fn load_new(
        mesh: &Mesh,
        positions: &[T],
        uvs: &[T],
        normals: &[T],
        tangents: &[T],
    ) -> (r: Result<obj<T>, LoadError>)
        ensures
            match r {
                Ok(o) => {
                    &&& count_error(mesh@, values(positions@, uvs@, normals@, tangents@)) is None
                    &&& o@ == stream(
                        mesh@.options,
                        mesh@.corners(),
                        mesh@.corners().len() as int,
                        values(positions@, uvs@, normals@, tangents@),
                    )
                    &&& o.stride_of() == mesh@.options.stride_of()
                    &&& o.count_of() == mesh@.corners().len()
                    &&& o@.len() == o.stride_of() * o.count_of()
                },
                Err(e) => count_error(mesh@, values(positions@, uvs@, normals@, tangents@))
                    == Some(e),
            },
    {
        let ghost v = values(positions@, uvs@, normals@, tangents@);
        let options = mesh.options();
        let corners = mesh.corners();
        if positions.len() != mesh.positions().len() {
            return Err(
                LoadError::ScalarCount {
                    scalars: Scalars::Position,
                    expected: mesh.positions().len(),
                    found: positions.len(),
                },
            );
        }
        if uvs.len() != mesh.texcoords().len() {
            return Err(
                LoadError::ScalarCount {
                    scalars: Scalars::Texcoord,
                    expected: mesh.texcoords().len(),
                    found: uvs.len(),
                },
            );
        }
        if normals.len() != mesh.normals().len() {
            return Err(
                LoadError::ScalarCount {
                    scalars: Scalars::Normal,
                    expected: mesh.normals().len(),
                    found: normals.len(),
                },
            );
        }
        let needed: Option<usize> = if options.include_tangent_bitangent {
            corners.len().checked_mul(2)
        } else {
            Some(0)
        };
        match needed {
            Some(n) => {
                if tangents.len() != n {
                    return Err(
                        LoadError::ScalarCount {
                            scalars: Scalars::Tangent,
                            expected: n,
                            found: tangents.len(),
                        },
                    );
                }
            },
            None => {
                return Err(
                    LoadError::ScalarCount {
                        scalars: Scalars::Tangent,
                        expected: usize::MAX,
                        found: tangents.len(),
                    },
                );
            },
        }
        let stride = options.stride();
        let mut out: Vec<T> = Vec::new();
        let mut k: usize = 0;
        while k < corners.len()
            invariant
                0 <= k <= corners@.len(),
                corners@ == mesh@.corners(),
                corners@.len() % 3 == 0,
                forall|j: int| 0 <= j < corners@.len() ==> mesh@.holds(#[trigger] corners@[j]),
                options == mesh@.options,
                stride == options.stride_of(),
                v == values(positions@, uvs@, normals@, tangents@),
                positions@.len() == mesh@.positions.len() <= usize::MAX,
                uvs@.len() == mesh@.texcoords.len() <= usize::MAX,
                normals@.len() == mesh@.normals.len() <= usize::MAX,
                options.include_tangent_bitangent ==> tangents@.len() == 2 * corners@.len()
                    <= usize::MAX,
                out@ == stream(options, corners@, k as int, v),
                out@.len() == stride * k,
            decreases corners@.len() - k,
        {
            let c = corners[k];
            assert(mesh@.holds(c));
            let p = 3 * c.position;
            let vertex = VertexData {
                position: (positions[p], positions[p + 1], positions[p + 2]),
                uv: if options.include_texcoord {
                    Some((uvs[2 * c.texcoord], uvs[2 * c.texcoord + 1]))
                } else {
                    None
                },
                normal: if options.include_normal {
                    Some(
                        (normals[3 * c.normal], normals[3 * c.normal + 1], normals[3 * c.normal + 2]),
                    )
                } else {
                    None
                },
                tangent: if options.include_tangent_bitangent {
                    let t = 6 * (k / 3);
                    Some((tangents[t], tangents[t + 1], tangents[t + 2]))
                } else {
                    None
                },
                bitangent: if options.include_tangent_bitangent {
                    let t = 6 * (k / 3);
                    Some((tangents[t + 3], tangents[t + 4], tangents[t + 5]))
                } else {
                    None
                },
            };
            proof {
                assert(vertex.scalars() =~= record(options, c, k as int / 3, v));
                assert(vertex.scalars().len() == stride);
                assert(stride * (k + 1) == stride * k + stride) by (nonlinear_arith);
            }
            vertex.push(&mut out);
            k += 1;
        }
        Ok(obj { vertices: out, stride, count: corners.len() })
    }

    /// The scalars of the stream, vertex after vertex.
    pub fn get_vertices(&self) -> (r: &Vec<T>)
        ensures
            r@ == self@,
            r@.len() == self.stride_of() * self.count_of(),
    {
        proof {
            use_type_invariant(self);
        }
        &self.vertices
    }

    /// The number of vertices: three for each triangle.
    pub fn get_vertices_count(&self) -> (r: usize)
        ensures
            r == self.count_of(),
    {
        self.count
    }

    /// The number of scalars of one vertex.
    pub fn get_stride(&self) -> (r: usize)
        ensures
            r == self.stride_of(),
    {
        self.stride
    }
}

/// The four arrays as one value.
pub open spec fn values<T>(positions: Seq<T>, uvs: Seq<T>, normals: Seq<T>, tangents: Seq<T>) -> Values<
    T,
> {
    Values { positions, uvs, normals, tangents }
}

/// The arrays of `v` have the lengths that the mesh `m` needs.
pub open spec fn fits<T>(m: MeshView, v: Values<T>) -> bool {
    count_error(m, v) is None
}

/// A record has as many scalars as the options ask for.
pub proof fn lemma_record_len<T>(m: MeshView, v: Values<T>, k: int)
    requires
        m.well_formed(),
        fits(m, v),
        0 <= k < m.corners().len(),
    ensures
        record(m.options, m.corners()[k], k / 3, v).len() == m.options.stride_of(),
{
    crate::object::mesh::lemma_emitted_hold(m, m.faces.len() as int);
    assert(m.faces.take(m.faces.len() as int) == m.faces);
    crate::object::mesh::lemma_emitted_len(m.faces);
    assert(m.holds(m.corners()[k]));
}

/// The stream of the first `count` corners has `count` records.
pub proof fn lemma_stream_len<T>(m: MeshView, v: Values<T>, count: int)
    requires
        m.well_formed(),
        fits(m, v),
        0 <= count <= m.corners().len(),
    ensures
        stream(m.options, m.corners(), count, v).len() == m.options.stride_of() * count,
    decreases count,
{
    let stride = m.options.stride_of() as int;
    if count > 0 {
        lemma_stream_len(m, v, count - 1);
        lemma_record_len(m, v, count - 1);
        assert(stride * count == stride * (count - 1) + stride) by (nonlinear_arith);
        assert(stream(m.options, m.corners(), count, v).len() == stride * (count - 1) + stride);
    } else {
        assert(stride * count == 0) by (nonlinear_arith)
            requires
                count == 0,
        ;
    }
}

/// Every vertex has its record, at its place.
///
/// In the stream of a well-formed mesh, vertex `k` takes the scalars from
/// `k` times the stride up to the next vertex, and they are its record: the
/// position, the texture coordinate and the normal that its corner names, and
/// the tangent and bitangent of its triangle, as far as the options ask for
/// them and in that order. So every vertex has the same stride.
pub proof fn lemma_vertex_record<T>(m: MeshView, v: Values<T>, count: int, k: int)
    requires
        m.well_formed(),
        fits(m, v),
        0 <= k < count <= m.corners().len(),
    ensures
        ({
            let stride = m.options.stride_of() as int;
            let all = stream(m.options, m.corners(), count, v);
            &&& all.len() == stride * count
            &&& 0 <= stride * k
            &&& stride * (k + 1) <= all.len()
            &&& all.subrange(stride * k, stride * (k + 1)) == record(
                m.options,
                m.corners()[k],
                k / 3,
                v,
            )
        }),
    decreases count,
{
    let stride = m.options.stride_of() as int;
    let all = stream(m.options, m.corners(), count, v);
    let front = stream(m.options, m.corners(), count - 1, v);
    let last = record(m.options, m.corners()[count - 1], (count - 1) / 3, v);
    lemma_stream_len(m, v, count);
    lemma_stream_len(m, v, count - 1);
    lemma_record_len(m, v, count - 1);
    assert(stride * (k + 1) == stride * k + stride) by (nonlinear_arith);
    assert(0 <= stride * k <= stride * (count - 1)) by (nonlinear_arith)
        requires
            0 <= k <= count - 1,
            0 <= stride,
    ;
    assert(stride * count == stride * (count - 1) + stride) by (nonlinear_arith);
    if k == count - 1 {
        assert(all.subrange(stride * k, stride * (k + 1)) =~= last);
    } else {
        lemma_vertex_record(m, v, count - 1, k);
        assert(stride * (k + 1) <= stride * (count - 1)) by (nonlinear_arith)
            requires
                k + 1 <= count - 1,
                0 <= stride,
        ;
        assert(all.subrange(stride * k, stride * (k + 1)) =~= front.subrange(
            stride * k,
            stride * (k + 1),
        ));
    }
}

/// A mesh of triangles alone gives three vertices for each triangle, and
/// each vertex takes as many scalars as the options ask for.
pub proof fn lemma_triangle_mesh_counts<T>(m: MeshView, v: Values<T>)
    requires
        m.well_formed(),
        fits(m, v),
        forall|i: int| 0 <= i < m.faces.len() ==> (#[trigger] m.faces[i]) is Triangle,
    ensures
        m.corners().len() == 3 * m.faces.len(),
        stream(m.options, m.corners(), m.corners().len() as int, v).len() == m.options.stride_of()
            * (3 * m.faces.len()),
{
    crate::object::mesh::lemma_triangles_emit_three_each(m.faces);
    lemma_stream_len(m, v, m.corners().len() as int);
}

} // verus!
