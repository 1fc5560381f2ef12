use ratio::object::mesh::{
    Corner, Face, LoadError, LoadOptions, ParseWarning, Pool, Scalars, WarningKind,
};
use ratio::object::reader::Mesh;
use ratio::object::{obj, VertexData};
use ratio::text::Span;

fn scalars(source: &[u8], spans: &[Span]) -> Vec<f32> {
    spans
        .iter()
        .map(|s| std::str::from_utf8(&source[s.start..s.end]).unwrap().parse::<f32>().unwrap())
        .collect()
}

fn corner(position: usize, texcoord: usize, normal: usize) -> Corner {
    Corner { position, texcoord, normal }
}

/// The stream of a description without tangents.
fn load(source: &[u8], options: LoadOptions) -> obj<f32> {
    let mesh = Mesh::parse(source, options).unwrap();
    let positions = scalars(source, mesh.positions());
    let uvs = scalars(source, mesh.texcoords());
    let normals = scalars(source, mesh.normals());
    obj::load_new(&mesh, &positions, &uvs, &normals, &[]).unwrap()
}

const SQUARE: &[u8] = b"o square\n\
v 0 0 0\nv 1 0 0\nv 1 1 0\nv 0 1 0\n\
vt 0 0\nvt 1 0\nvt 1 1\nvt 0 1\n\
vn 0 0 1\nvn 0 0 -1\n\
f 1/1/1 2/2/1 3/3/1 4/4/2\n";

#[test]
fn triangle_positions_only() {
    let source = b"o tri\nv 0 0 0\nv 1 0 0\nv 0 1 0\nf 1 2 3\n";
    let mesh = Mesh::parse(source, LoadOptions::new(false, false, false)).unwrap();
    assert_eq!(mesh.positions().len(), 9);
    assert_eq!(mesh.faces().len(), 1);
    let positions = scalars(source, mesh.positions());
    let model = obj::load_new(&mesh, &positions, &[], &[], &[]).unwrap();
    assert_eq!(model.get_vertices_count(), 3);
    assert_eq!(model.get_stride(), 3);
    assert_eq!(model.get_vertices(), &vec![0.0, 0.0, 0.0, 1.0, 0.0, 0.0, 0.0, 1.0, 0.0]);
}

#[test]
fn triangles_give_three_vertices_each() {
    let source = b"v 0 0 0\nv 1 0 0\nv 0 1 0\nv 1 1 0\nvt 0 0\nvn 0 0 1\n\
f 1 2 3\nf 2 4 3\nf 1/1/1 2/1/1 4/1/1\n";
    for bits in 0..4 {
        let options = LoadOptions::new(bits & 1 != 0, bits & 2 != 0, false);
        let model = load(source, options);
        assert_eq!(model.get_vertices_count(), 9);
        let stride = 3 + if bits & 1 != 0 { 2 } else { 0 } + if bits & 2 != 0 { 3 } else { 0 };
        assert_eq!(model.get_stride(), stride);
        assert_eq!(options.stride(), stride);
        assert_eq!(model.get_vertices().len(), 9 * stride);
    }
}

#[test]
fn stride_counts_the_attributes_asked_for() {
    assert_eq!(LoadOptions::new(false, false, false).stride(), 3);
    assert_eq!(LoadOptions::new(true, false, false).stride(), 5);
    assert_eq!(LoadOptions::new(false, true, false).stride(), 6);
    assert_eq!(LoadOptions::new(false, false, true).stride(), 9);
    assert_eq!(LoadOptions::new(true, true, false).stride(), 8);
    assert_eq!(LoadOptions::new(true, true, true).stride(), 14);
}

#[test]
fn quad_is_cut_into_a_fan() {
    let source = b"v 0 0 0\nv 1 0 0\nv 1 1 0\nv 0 1 0\nf 1 2 3 4\n";
    let mesh = Mesh::parse(source, LoadOptions::new(false, false, false)).unwrap();
    let c = |p: usize| corner(p, 0, 0);
    assert_eq!(mesh.faces(), &vec![Face::Quad(c(0), c(1), c(2), c(3))]);
    assert_eq!(mesh.corners(), vec![c(0), c(1), c(2), c(0), c(2), c(3)]);
    assert!(mesh.warnings().is_empty());
}

#[test]
fn quad_vertices_are_resolved_from_file_indices() {
    let model = load(SQUARE, LoadOptions::new(true, true, false));
    assert_eq!(model.get_vertices_count(), 6);
    assert_eq!(model.get_stride(), 8);
    let c0 = [0.0, 0.0, 0.0, 0.0, 0.0, 0.0, 0.0, 1.0];
    let c1 = [1.0, 0.0, 0.0, 1.0, 0.0, 0.0, 0.0, 1.0];
    let c2 = [1.0, 1.0, 0.0, 1.0, 1.0, 0.0, 0.0, 1.0];
    let c3 = [0.0, 1.0, 0.0, 0.0, 1.0, 0.0, 0.0, -1.0];
    let mut expected: Vec<f32> = Vec::new();
    for c in [c0, c1, c2, c0, c2, c3] {
        expected.extend_from_slice(&c);
    }
    assert_eq!(model.get_vertices(), &expected);
}

#[test]
fn tangents_follow_their_triangle() {
    let options = LoadOptions::new(true, false, true);
    let mesh = Mesh::parse(SQUARE, options).unwrap();
    let positions = scalars(SQUARE, mesh.positions());
    let uvs = scalars(SQUARE, mesh.texcoords());
    assert!(mesh.normals().is_empty());
    let tangents: Vec<f32> = (0..12).map(|i| 100.0 + i as f32).collect();
    let model = obj::load_new(&mesh, &positions, &uvs, &[], &tangents).unwrap();
    assert_eq!(model.get_stride(), 11);
    assert_eq!(model.get_vertices_count(), 6);
    let v = model.get_vertices();
    for k in 0..6 {
        let record = &v[k * 11..(k + 1) * 11];
        let triangle = k / 3;
        assert_eq!(&record[5..11], &tangents[6 * triangle..6 * triangle + 6]);
    }
    // The third vertex of the second triangle is the fourth corner of the quad.
    assert_eq!(&v[5 * 11..5 * 11 + 5], &[0.0, 1.0, 0.0, 0.0, 1.0]);
}

#[test]
fn missing_indices_name_the_first_entry() {
    let source = b"v 0 0 0\nv 1 0 0\nv 0 1 0\nvt 0.25 0.75\nvt 9 9\nvn 0 1 0\nvn 8 8 8\n\
f 1 2/2 3//2\nf 1/ 2/x/y 3/+2/\n";
    let mesh = Mesh::parse(source, LoadOptions::new(true, true, false)).unwrap();
    assert_eq!(
        mesh.faces(),
        &vec![
            Face::Triangle(corner(0, 0, 0), corner(1, 1, 0), corner(2, 0, 1)),
            Face::Triangle(corner(0, 0, 0), corner(1, 0, 0), corner(2, 1, 0)),
        ]
    );
    let again = Mesh::parse(source, LoadOptions::new(true, true, false)).unwrap();
    assert_eq!(again.faces(), mesh.faces());
    let model = load(source, LoadOptions::new(true, true, false));
    assert_eq!(&model.get_vertices()[0..8], &[0.0, 0.0, 0.0, 0.25, 0.75, 0.0, 1.0, 0.0]);
}

#[test]
fn unreadable_position_index_names_the_first_entry() {
    let source = b"v 5 6 7\nv 1 0 0\nv 0 1 0\nf x 2 -1\n";
    let mesh = Mesh::parse(source, LoadOptions::new(false, false, false)).unwrap();
    assert_eq!(
        mesh.faces(),
        &vec![Face::Triangle(corner(0, 0, 0), corner(1, 0, 0), corner(0, 0, 0))]
    );
}

#[test]
fn out_of_range_position_is_named() {
    let mut source = String::new();
    for i in 0..10 {
        source.push_str(&format!("v {} 0 0\n", i));
    }
    source.push_str("f 1 2 50\n");
    let r = Mesh::parse(source.as_bytes(), LoadOptions::new(false, false, false));
    assert_eq!(
        r.err(),
        Some(LoadError::IndexOutOfRange { line: 11, pool: Pool::Position, index: 50, available: 10 })
    );
}

#[test]
fn index_zero_is_out_of_range() {
    let source = b"v 0 0 0\nv 1 0 0\nv 0 1 0\nf 0 1 2\n";
    let r = Mesh::parse(source, LoadOptions::new(false, false, false));
    assert_eq!(
        r.err(),
        Some(LoadError::IndexOutOfRange { line: 4, pool: Pool::Position, index: 0, available: 3 })
    );
}

#[test]
fn a_face_sees_only_what_stands_before_it() {
    let source = b"v 0 0 0\nv 1 0 0\nf 1 2 3\nv 0 1 0\n";
    let r = Mesh::parse(source, LoadOptions::new(false, false, false));
    assert_eq!(
        r.err(),
        Some(LoadError::IndexOutOfRange { line: 3, pool: Pool::Position, index: 3, available: 2 })
    );
}

#[test]
fn pools_are_checked_only_when_read() {
    let source = b"v 0 0 0\nv 1 0 0\nv 0 1 0\nf 1/7/9 2/7/9 3/7/9\n";
    let plain = Mesh::parse(source, LoadOptions::new(false, false, false)).unwrap();
    assert_eq!(
        plain.faces(),
        &vec![Face::Triangle(corner(0, 0, 0), corner(1, 0, 0), corner(2, 0, 0))]
    );
    assert_eq!(
        Mesh::parse(source, LoadOptions::new(true, false, false)).err(),
        Some(LoadError::IndexOutOfRange { line: 4, pool: Pool::Texcoord, index: 7, available: 0 })
    );
    assert_eq!(
        Mesh::parse(source, LoadOptions::new(false, true, false)).err(),
        Some(LoadError::IndexOutOfRange { line: 4, pool: Pool::Normal, index: 9, available: 0 })
    );
    assert_eq!(
        Mesh::parse(source, LoadOptions::new(false, false, true)).err(),
        Some(LoadError::IndexOutOfRange { line: 4, pool: Pool::Texcoord, index: 7, available: 0 })
    );
}

#[test]
fn malformed_lines_leave_warnings() {
    let source = b"v 1 2\nv 1 2 3 4\nv a b c\nvt 1\nvn 1 2\nf 1 2\nf 1 1 1 1 1\n\
v 1 2 3\nvt .5 1.\nvn 1e0 -2E+1 +inf\n# note\n\nf 1 1 1\n";
    let mesh = Mesh::parse(source, LoadOptions::new(true, true, false)).unwrap();
    let w = |line: usize, kind: WarningKind| ParseWarning { line, kind };
    assert_eq!(
        mesh.warnings(),
        &vec![
            w(1, WarningKind::MalformedPosition),
            w(2, WarningKind::MalformedPosition),
            w(3, WarningKind::MalformedPosition),
            w(4, WarningKind::MalformedTexcoord),
            w(5, WarningKind::MalformedNormal),
            w(6, WarningKind::UnsupportedFace),
            w(7, WarningKind::UnsupportedFace),
        ]
    );
    assert_eq!(mesh.positions().len(), 3);
    assert_eq!(mesh.texcoords().len(), 2);
    assert_eq!(mesh.normals().len(), 3);
    assert_eq!(mesh.faces().len(), 1);
    let normals = scalars(source, mesh.normals());
    assert_eq!(normals, vec![1.0, -20.0, f32::INFINITY]);
    let uvs = scalars(source, mesh.texcoords());
    assert_eq!(uvs, vec![0.5, 1.0]);
}

#[test]
fn attributes_not_asked_for_are_passed_over_in_silence() {
    let source = b"v 1 2 3\nvt 1\nvn 1 2\nvt 0 0\nvn 0 0 1\n";
    let mesh = Mesh::parse(source, LoadOptions::new(false, false, false)).unwrap();
    assert!(mesh.warnings().is_empty());
    assert!(mesh.texcoords().is_empty());
    assert!(mesh.normals().is_empty());
    assert_eq!(mesh.options(), LoadOptions::new(false, false, false));
}

#[test]
fn lines_end_at_newlines_and_tokens_at_blanks() {
    let source = b"  v\t1  2 3\r\nv 4 5 6\r\nv 7 8 9\r\nf 1 2 3";
    let mesh = Mesh::parse(source, LoadOptions::new(false, false, false)).unwrap();
    assert_eq!(scalars(source, mesh.positions()), vec![1.0, 2.0, 3.0, 4.0, 5.0, 6.0, 7.0, 8.0, 9.0]);
    assert_eq!(mesh.faces().len(), 1);
    assert_eq!(mesh.positions()[0], Span { start: 4, end: 5 });
}

#[test]
fn empty_text_is_an_empty_mesh() {
    let mesh = Mesh::parse(b"", LoadOptions::new(true, true, true)).unwrap();
    assert!(mesh.faces().is_empty());
    assert!(mesh.corners().is_empty());
    let model = obj::<f32>::load_new(&mesh, &[], &[], &[], &[]).unwrap();
    assert_eq!(model.get_vertices_count(), 0);
    assert_eq!(model.get_stride(), 14);
    assert!(model.get_vertices().is_empty());
}

#[test]
fn arrays_of_the_wrong_length_are_refused() {
    let options = LoadOptions::new(true, true, true);
    let mesh = Mesh::parse(SQUARE, options).unwrap();
    let positions = scalars(SQUARE, mesh.positions());
    let uvs = scalars(SQUARE, mesh.texcoords());
    let normals = scalars(SQUARE, mesh.normals());
    let tangents = vec![0.0f32; 12];
    let count = |scalars, expected, found| LoadError::ScalarCount { scalars, expected, found };
    assert_eq!(
        obj::load_new(&mesh, &positions[1..], &uvs, &normals, &tangents).err(),
        Some(count(Scalars::Position, 12, 11))
    );
    assert_eq!(
        obj::load_new(&mesh, &positions, &[], &normals, &tangents).err(),
        Some(count(Scalars::Texcoord, 8, 0))
    );
    assert_eq!(
        obj::load_new(&mesh, &positions, &uvs, &normals[..3], &tangents).err(),
        Some(count(Scalars::Normal, 6, 3))
    );
    assert_eq!(
        obj::load_new(&mesh, &positions, &uvs, &normals, &tangents[..6]).err(),
        Some(count(Scalars::Tangent, 12, 6))
    );
    assert!(obj::load_new(&mesh, &positions, &uvs, &normals, &tangents).is_ok());
}

#[test]
fn a_vertex_pushes_what_it_holds() {
    let mut out: Vec<f32> = vec![9.0];
    let vertex = VertexData {
        position: (1.0, 2.0, 3.0),
        uv: Some((4.0, 5.0)),
        normal: None,
        tangent: Some((6.0, 7.0, 8.0)),
        bitangent: Some((10.0, 11.0, 12.0)),
    };
    vertex.push(&mut out);
    assert_eq!(out, vec![9.0, 1.0, 2.0, 3.0, 4.0, 5.0, 6.0, 7.0, 8.0, 10.0, 11.0, 12.0]);
}

#[test]
fn tangents_need_texture_coordinates() {
    let r = Mesh::parse(SQUARE, LoadOptions::new(false, false, true));
    assert_eq!(
        r.err(),
        Some(LoadError::IndexOutOfRange { line: 12, pool: Pool::Texcoord, index: 1, available: 0 })
    );
    let faceless = b"v 0 0 0\nvt 0 0\n";
    let mesh = Mesh::parse(faceless, LoadOptions::new(false, false, true)).unwrap();
    assert!(mesh.texcoords().is_empty());
}
