use ratio::frame::{
    classify, contains, key_shift, map_kind, mesh_attributes, quad_attributes, quad_stream,
    scroll_shift, Dropped, FrameError, Key, MapKind, Orchestrator, Phase, Scene, ScrollUnit, Shift,
};
use ratio::object::mesh::LoadOptions;
use ratio::object::obj;
use ratio::object::reader::Mesh;
use ratio::opengl::buffers::{
    AttributeType, FrameBuffer, RenderBuffer, VertexBuffer, VertexBufferLayout,
};
use ratio::opengl::gl::GlCall;
use ratio::opengl::shaders::{Program, Shader};
use ratio::opengl::textures::{
    Picture, Texture, TextureColorFormat, TextureDataType, TextureError,
};
use ratio::opengl::uniforms::{Uniform, UniformType};
use ratio::opengl::Glwrapper;
use std::collections::HashMap;

const MATRIX: [u32; 16] = [1, 2, 3, 4, 5, 6, 7, 8, 9, 10, 11, 12, 13, 14, 15, 16];

fn map(unit: u32, name: u32, gl: &mut Glwrapper) -> Texture {
    Texture::new(unit, 4, 4, true, TextureColorFormat::RGB, TextureDataType::UnsignedByte, name, gl)
}

/// A scene with the names 1 to 15 and the maps on the units 0 to 3; the
/// offscreen texture shares unit 0 with the diffuse map.
fn build_scene(gl: &mut Glwrapper, units: [u32; 4]) -> Scene {
    let shader = Shader::new(b"v", b"f", 101, 102, gl).unwrap();
    let post = Shader::new(b"v", b"f", 103, 104, gl).unwrap();
    Scene {
        mesh: VertexBuffer::new(42, 1, gl),
        mesh_layout: VertexBufferLayout::new(mesh_attributes(LoadOptions::new(true, true, true)), 2, gl),
        program: Program::new(&shader, 3, gl),
        projection: Uniform::new("vp_matrix", UniformType::Mat4x4(MATRIX), 50, gl).unwrap(),
        diffuse: map(units[0], 4, gl),
        normal: map(units[1], 5, gl),
        specularity: map(units[2], 6, gl),
        environment: map(units[3], 7, gl),
        quad: VertexBuffer::new(24, 8, gl),
        quad_layout: VertexBufferLayout::new(quad_attributes(), 9, gl),
        post_program: Program::new(&post, 10, gl),
        target: FrameBuffer::new(0, 800, 600, TextureDataType::UnsignedByte, 11, 12, gl),
        depth: RenderBuffer::new(800, 600, 13, gl),
    }
}

fn running() -> Orchestrator {
    let mut gl = Glwrapper::new();
    let scene = build_scene(&mut gl, [0, 1, 2, 3]);
    let mut o = Orchestrator::new(gl, scene, 3, 800, 600).unwrap();
    o.start().unwrap();
    o.take_calls();
    o
}

fn bind(unit: u32, name: u32) -> Vec<GlCall> {
    vec![
        GlCall::ActiveTexture(gl::TEXTURE0 + unit),
        GlCall::BindTexture { target: gl::TEXTURE_2D, texture: name },
    ]
}

fn geometry_binds(names: [u32; 4]) -> Vec<GlCall> {
    let mut calls = vec![
        GlCall::BindBuffer { target: gl::ARRAY_BUFFER, buffer: 1 },
        GlCall::BindVertexArray(2),
        GlCall::UseProgram(3),
        GlCall::BindFramebuffer { target: gl::FRAMEBUFFER, framebuffer: 11 },
    ];
    for (unit, name) in names.iter().enumerate() {
        calls.extend(bind(unit as u32, *name));
    }
    calls
}

fn picture(width: u32, height: u32) -> Picture<u8> {
    Picture {
        width,
        height,
        data_type: TextureDataType::UnsignedByte,
        pixels: vec![200; 3 * width as usize * height as usize],
    }
}

/// A picture that is wider than the device can be told.
fn too_wide() -> Picture<u8> {
    Picture {
        width: 0x8000_0000,
        height: 1,
        data_type: TextureDataType::UnsignedByte,
        pixels: Vec::new(),
    }
}

/// What is bound on the device, as far as draw calls depend on it.
#[derive(Clone, Debug, Default, PartialEq)]
struct Bound {
    array_buffer: u32,
    vertex_array: u32,
    program: u32,
    framebuffer: u32,
    active_unit: u32,
    textures: HashMap<u32, u32>,
    depth_test: bool,
}

/// Follows the calls and gives, for each draw call, what was bound when it
/// was made and how many vertices it drew, and what is bound in the end.
fn follow(mut bound: Bound, calls: &[GlCall]) -> (Vec<(Bound, i32)>, Bound) {
    let mut draws = Vec::new();
    for call in calls {
        match *call {
            GlCall::BindBuffer { target, buffer } if target == gl::ARRAY_BUFFER => {
                bound.array_buffer = buffer
            }
            GlCall::BindVertexArray(name) => bound.vertex_array = name,
            GlCall::UseProgram(name) => bound.program = name,
            GlCall::BindFramebuffer { target, framebuffer } if target == gl::FRAMEBUFFER => {
                bound.framebuffer = framebuffer
            }
            GlCall::ActiveTexture(unit) => bound.active_unit = unit,
            GlCall::BindTexture { target, texture } if target == gl::TEXTURE_2D => {
                bound.textures.insert(bound.active_unit, texture);
            }
            GlCall::DeleteBuffer(name) if bound.array_buffer == name => bound.array_buffer = 0,
            GlCall::DeleteVertexArray(name) if bound.vertex_array == name => bound.vertex_array = 0,
            GlCall::DeleteFramebuffer(name) if bound.framebuffer == name => bound.framebuffer = 0,
            GlCall::DeleteTexture(name) => {
                for texture in bound.textures.values_mut() {
                    if *texture == name {
                        *texture = 0;
                    }
                }
            }
            GlCall::Enable(what) if what == gl::DEPTH_TEST => bound.depth_test = true,
            GlCall::Disable(what) if what == gl::DEPTH_TEST => bound.depth_test = false,
            GlCall::DrawArrays { count, .. } => draws.push((bound.clone(), count)),
            _ => {}
        }
    }
    (draws, bound)
}

#[test]
fn dropped_pictures_are_told_apart_by_their_names() {
    assert_eq!(classify(b"models/normal_map_v2.PNG"), Dropped::Picture(MapKind::Normal));
    assert_eq!(classify(b"models/normal_map_v2.png"), Dropped::Picture(MapKind::Normal));
    assert_eq!(classify(b"MODELS/NORMAL_MAP_V2.PNG"), Dropped::Picture(MapKind::Normal));
    assert_eq!(classify(b"brick_NRM.jpg"), Dropped::Picture(MapKind::Normal));
    assert_eq!(classify(b"brick_Spec.jpeg"), Dropped::Picture(MapKind::Specularity));
    assert_eq!(classify(b"specular_normal.bmp"), Dropped::Picture(MapKind::Normal));
    assert_eq!(classify(b"studio.hdr"), Dropped::Picture(MapKind::Environment));
    assert_eq!(classify(b"studio.HDR"), Dropped::Picture(MapKind::Environment));
    assert_eq!(classify(b"spec.hdr"), Dropped::Picture(MapKind::Specularity));
    assert_eq!(classify(b"Environment.tiff"), Dropped::Picture(MapKind::Environment));
    assert_eq!(classify(b"AMBIENT_light.png"), Dropped::Picture(MapKind::Environment));
    assert_eq!(classify(b"wood.png"), Dropped::Picture(MapKind::Diffuse));
    assert_eq!(classify(b"normals/wood.png"), Dropped::Picture(MapKind::Normal));
    assert_eq!(classify(b"suzanne.obj"), Dropped::Mesh);
    assert_eq!(classify(b"SUZANNE.OBJ"), Dropped::Mesh);
    assert_eq!(classify(b"normal.obj"), Dropped::Mesh);
    assert_eq!(classify(b"notes.txt"), Dropped::Unsupported);
    assert_eq!(classify(b"normal"), Dropped::Unsupported);
    assert_eq!(classify(b"wood.png.bak"), Dropped::Unsupported);
    assert_eq!(classify(b""), Dropped::Unsupported);
    assert_eq!(map_kind(b"anything"), MapKind::Diffuse);
}

#[test]
fn names_are_searched_without_case() {
    assert!(contains(b"a_NoRm_b", b"norm"));
    assert!(contains(b"norm", b"norm"));
    assert!(contains(b"xnorm", b"norm"));
    assert!(!contains(b"nor", b"norm"));
    assert!(!contains(b"n-o-r-m", b"norm"));
    assert!(contains(b"abc", b""));
    assert!(contains(b"", b""));
    assert!(!contains(b"", b"a"));
    for hay in ["models/normal_map_v2.PNG", "ENV", "ambIENT", "", "x"] {
        for needle in ["norm", "nrm", "spec", "hdr", "env", "ambient"] {
            assert_eq!(
                contains(hay.as_bytes(), needle.as_bytes()),
                hay.to_lowercase().contains(needle),
                "{:?} in {:?}",
                needle,
                hay
            );
        }
    }
}

#[test]
fn the_camera_moves_by_fractions() {
    assert_eq!(scroll_shift(ScrollUnit::Line), Shift::Forward { divisor: 5 });
    assert_eq!(scroll_shift(ScrollUnit::Pixel), Shift::Forward { divisor: 200 });
    assert_eq!(key_shift(Key::A), Some(Shift::Sideways { tenths: -1 }));
    assert_eq!(key_shift(Key::D), Some(Shift::Sideways { tenths: 1 }));
    assert_eq!(key_shift(Key::Other), None);
    // The fractions are the amounts by which the camera is moved.
    assert_eq!(1.0f32 / 5.0, 0.2);
    assert_eq!(-1.0f32 / 10.0, -0.1);
    assert_eq!(1.0f32 / 10.0, 0.1);
}

#[test]
fn the_layout_of_the_mesh_fits_every_stream() {
    for bits in 0..8 {
        let options = LoadOptions::new(bits & 1 != 0, bits & 2 != 0, bits & 4 != 0);
        let attributes = mesh_attributes(options);
        let bytes: usize = attributes.iter().map(|a| a.1.bytes()).sum();
        assert_eq!(bytes, 4 * options.stride());
        assert_eq!(attributes[0], (String::from("a_Position"), AttributeType::Float3));
    }
    let all = mesh_attributes(LoadOptions::new(true, true, true));
    assert_eq!(
        all,
        vec![
            (String::from("a_Position"), AttributeType::Float3),
            (String::from("a_TexCoords"), AttributeType::Float2),
            (String::from("a_Normal"), AttributeType::Float3),
            (String::from("a_Tangent"), AttributeType::Float3),
            (String::from("a_Bitangent"), AttributeType::Float3),
        ]
    );
    assert_eq!(
        quad_attributes(),
        vec![
            (String::from("a_Position"), AttributeType::Float2),
            (String::from("a_TexCoords"), AttributeType::Float2),
        ]
    );
}

#[test]
fn the_orchestrator_starts_once() {
    let mut gl = Glwrapper::new();
    let scene = build_scene(&mut gl, [0, 1, 2, 3]);
    let before = gl.calls().len();
    let mut o = Orchestrator::new(gl, scene, 3, 800, 600).unwrap();
    assert_eq!(o.phase(), Phase::Initializing);
    assert_eq!(o.viewport(), (800, 600));
    assert_eq!(o.target_size(), (800, 600));
    assert_eq!(o.vertices(), 3);
    assert_eq!(o.render_frame(), Err(FrameError::WrongPhase));
    assert_eq!(o.close(), Err(FrameError::WrongPhase));
    assert_eq!(o.handle_resize(1, 1, MATRIX), Err(FrameError::WrongPhase));
    assert_eq!(o.update_projection(MATRIX), Err(FrameError::WrongPhase));
    assert_eq!(o.handle_scroll(ScrollUnit::Line), Err(FrameError::WrongPhase));
    assert_eq!(o.handle_key(Key::A), Err(FrameError::WrongPhase));
    assert_eq!(o.handle_file_drop(b"a.png"), Err(FrameError::WrongPhase));
    assert_eq!(o.start(), Ok(()));
    assert_eq!(o.phase(), Phase::Running);
    let calls = o.take_calls();
    assert_eq!(&calls[before..], &geometry_binds([4, 5, 6, 7]));
    assert_eq!(o.start(), Err(FrameError::WrongPhase));
    assert!(o.take_calls().is_empty());
    assert_eq!(o.scene().mesh.get_id(), 1);
}

#[test]
fn a_scene_needs_maps_on_units_of_their_own() {
    for units in [[0, 0, 2, 3], [0, 1, 0, 3], [0, 1, 2, 0], [0, 1, 1, 3], [0, 1, 2, 1], [0, 1, 2, 2]] {
        let mut gl = Glwrapper::new();
        let scene = build_scene(&mut gl, units);
        assert_eq!(Orchestrator::new(gl, scene, 3, 800, 600).err(), Some(FrameError::UnitClash));
    }
    let mut gl = Glwrapper::new();
    let scene = build_scene(&mut gl, [9, 8, 7, 0]);
    assert!(Orchestrator::new(gl, scene, 3, 800, 600).is_ok());
    for (vertices, width, height) in
        [(0x8000_0000usize, 1, 1), (1, 0x8000_0000u32, 1), (1, 1, 0x8000_0000u32)]
    {
        let mut gl = Glwrapper::new();
        let scene = build_scene(&mut gl, [0, 1, 2, 3]);
        assert_eq!(
            Orchestrator::new(gl, scene, vertices, width, height).err(),
            Some(FrameError::TooLarge)
        );
    }
}

#[test]
fn the_last_resize_decides() {
    let mut o = running();
    assert_eq!(o.handle_resize(800, 600, MATRIX), Ok(()));
    assert_eq!(o.viewport(), (800, 600));
    assert_eq!(o.handle_resize(640, 480, MATRIX), Ok(()));
    assert_eq!(o.viewport(), (640, 480));
    assert_eq!(o.target_size(), (640, 480));
    assert_eq!(o.scene().target.get_size(), (640, 480));
    assert_eq!(o.scene().depth.get_size(), (640, 480));
    assert_eq!(o.scene().target.get_id(), 11);
    let (width, height) = o.viewport();
    assert_eq!(width as f32 / height as f32, 640.0 / 480.0);
    let calls = o.take_calls();
    let half = calls.len() / 2;
    let storage = |width: i32, height: i32| GlCall::TexImage2D {
        target: gl::TEXTURE_2D,
        level: 0,
        internalformat: gl::RGB as i32,
        width,
        height,
        border: 0,
        format: gl::RGB,
        kind: gl::UNSIGNED_BYTE,
        with_pixels: false,
    };
    let mut expected = vec![
        GlCall::UniformMatrix4fv { location: 50, transpose: false, matrix: MATRIX },
        GlCall::Viewport { x: 0, y: 0, width: 640, height: 480 },
    ];
    expected.extend(bind(0, 12));
    expected.push(storage(640, 480));
    expected.extend(bind(0, 4));
    expected.push(GlCall::BindRenderbuffer { target: gl::RENDERBUFFER, renderbuffer: 13 });
    expected.push(GlCall::RenderbufferStorage {
        target: gl::RENDERBUFFER,
        storage: gl::DEPTH24_STENCIL8,
        width: 640,
        height: 480,
    });
    assert_eq!(&calls[half..], &expected);
    assert_eq!(calls[1], GlCall::Viewport { x: 0, y: 0, width: 800, height: 600 });
}

#[test]
fn a_resize_that_cannot_be_told_changes_nothing() {
    let mut o = running();
    assert_eq!(o.handle_resize(0x8000_0000, 600, MATRIX), Err(FrameError::TooLarge));
    assert_eq!(o.handle_resize(800, u32::MAX, MATRIX), Err(FrameError::TooLarge));
    assert_eq!(o.viewport(), (800, 600));
    assert_eq!(o.target_size(), (800, 600));
    assert!(o.take_calls().is_empty());
    assert_eq!(o.handle_resize(0, 0, MATRIX), Ok(()));
    assert_eq!(o.viewport(), (0, 0));
}

#[test]
fn a_frame_is_two_passes() {
    let mut o = running();
    assert_eq!(o.render_frame(), Ok(()));
    let calls = o.take_calls();
    let mut expected = geometry_binds([4, 5, 6, 7]);
    expected.extend([
        GlCall::ClearColor {
            red: 0.05f32.to_bits(),
            green: 0.05f32.to_bits(),
            blue: 0.05f32.to_bits(),
            alpha: 1.0f32.to_bits(),
        },
        GlCall::Clear(gl::COLOR_BUFFER_BIT),
        GlCall::Clear(gl::DEPTH_BUFFER_BIT),
        GlCall::Enable(gl::DEPTH_TEST),
        GlCall::DrawArrays { mode: gl::TRIANGLES, first: 0, count: 3 },
        GlCall::BindBuffer { target: gl::ARRAY_BUFFER, buffer: 8 },
        GlCall::BindVertexArray(9),
        GlCall::UseProgram(10),
    ]);
    expected.extend(bind(0, 12));
    expected.extend([
        GlCall::BindFramebuffer { target: gl::FRAMEBUFFER, framebuffer: 0 },
        GlCall::Disable(gl::DEPTH_TEST),
        GlCall::DrawArrays { mode: gl::TRIANGLES, first: 0, count: 6 },
        GlCall::SwapBuffers,
    ]);
    expected.extend(geometry_binds([4, 5, 6, 7]));
    assert_eq!(calls, expected);
}

#[test]
fn each_draw_call_sees_its_own_bindings() {
    let mut o = running();
    o.handle_resize(640, 480, MATRIX).unwrap();
    o.update_texture(MapKind::Normal, &picture(2, 2), 77).unwrap();
    o.take_calls();
    o.render_frame().unwrap();
    o.render_frame().unwrap();
    let calls = o.take_calls();
    // Whatever was bound before: here everything is bound to a stranger.
    let mut stranger = Bound { array_buffer: 99, vertex_array: 99, program: 99, framebuffer: 99, ..Bound::default() };
    stranger.textures.insert(gl::TEXTURE0, 99);
    let (draws, after) = follow(stranger, &calls);
    assert_eq!(draws.len(), 4);
    for frame in 0..2 {
        let (first, count) = &draws[2 * frame];
        assert_eq!(*count, 3);
        assert_eq!((first.array_buffer, first.vertex_array), (1, 2));
        assert_eq!((first.program, first.framebuffer), (3, 11));
        assert!(first.depth_test);
        assert_eq!(first.textures[&gl::TEXTURE0], 4);
        assert_eq!(first.textures[&gl::TEXTURE1], 77);
        assert_eq!(first.textures[&gl::TEXTURE2], 6);
        assert_eq!(first.textures[&gl::TEXTURE3], 7);
        let (second, count) = &draws[2 * frame + 1];
        assert_eq!(*count, 6);
        assert_eq!((second.array_buffer, second.vertex_array), (8, 9));
        assert_eq!((second.program, second.framebuffer), (10, 0));
        assert!(!second.depth_test);
        assert_eq!(second.textures[&gl::TEXTURE0], 12);
    }
    assert_eq!((after.array_buffer, after.vertex_array, after.program, after.framebuffer), (1, 2, 3, 11));
    assert_eq!(after.textures[&gl::TEXTURE0], 4);
}

#[test]
fn the_projection_follows_the_camera() {
    let mut o = running();
    assert_eq!(o.handle_scroll(ScrollUnit::Pixel), Ok(Shift::Forward { divisor: 200 }));
    assert_eq!(o.handle_key(Key::D), Ok(Some(Shift::Sideways { tenths: 1 })));
    assert_eq!(o.handle_key(Key::Other), Ok(None));
    assert!(o.take_calls().is_empty());
    assert_eq!(o.update_projection(MATRIX), Ok(()));
    assert_eq!(
        o.take_calls(),
        vec![GlCall::UniformMatrix4fv { location: 50, transpose: false, matrix: MATRIX }]
    );
    assert_eq!(o.phase(), Phase::Running);
}

#[test]
fn a_dropped_picture_takes_the_place_of_its_map() {
    let mut o = running();
    assert_eq!(o.handle_file_drop(b"stone_spec.PNG"), Ok(Dropped::Picture(MapKind::Specularity)));
    let mut short = picture(5, 3);
    short.pixels.pop();
    assert_eq!(
        o.update_texture(MapKind::Specularity, &short, 60),
        Err(FrameError::Texture(TextureError::PixelCount))
    );
    assert_eq!(
        o.update_texture(MapKind::Specularity, &too_wide(), 60),
        Err(FrameError::Texture(TextureError::TooLarge))
    );
    assert!(o.take_calls().is_empty());
    assert_eq!(o.scene().specularity.get_location(), 6);
    assert_eq!(o.update_texture(MapKind::Specularity, &picture(5, 3), 60), Ok(()));
    assert_eq!(o.scene().specularity.get_location(), 60);
    assert_eq!(o.scene().specularity.get_id(), 2);
    assert_eq!(o.scene().specularity.get_size(), (5, 3));
    assert_eq!(o.scene().diffuse.get_location(), 4);
    assert_eq!(o.scene().normal.get_location(), 5);
    assert_eq!(o.scene().environment.get_location(), 7);
    let calls = o.take_calls();
    assert_eq!(calls[0], GlCall::DeleteTexture(6));
    assert_eq!(&calls[1..3], &bind(2, 60));
    assert_eq!(calls.len(), 9);
    for (kind, name) in [(MapKind::Diffuse, 61), (MapKind::Normal, 62), (MapKind::Environment, 63)] {
        assert!(o.update_texture(kind, &picture(1, 1), name).is_ok());
    }
    assert_eq!(o.scene().diffuse.get_location(), 61);
    assert_eq!(o.scene().normal.get_location(), 62);
    assert_eq!(o.scene().environment.get_location(), 63);
    o.take_calls();
    o.render_frame().unwrap();
    let calls = o.take_calls();
    assert_eq!(&calls[..12], &geometry_binds([61, 62, 60, 63]));
}

#[test]
fn a_dropped_mesh_takes_the_place_of_the_old_one() {
    let mut o = running();
    assert_eq!(o.handle_file_drop(b"cube.obj"), Ok(Dropped::Mesh));
    let source = b"v 0 0 0\nv 1 0 0\nv 1 1 0\nv 0 1 0\nf 1 2 3 4\n";
    let mesh = Mesh::parse(source, LoadOptions::new(false, false, false)).unwrap();
    let positions = vec![0.0f32; 12];
    let model = obj::load_new(&mesh, &positions, &[], &[], &[]).unwrap();
    assert_eq!(o.reload_mesh(&model), Ok(()));
    assert_eq!(o.vertices(), 6);
    assert_eq!(
        o.take_calls(),
        vec![
            GlCall::BindBuffer { target: gl::ARRAY_BUFFER, buffer: 1 },
            GlCall::BufferData { target: gl::ARRAY_BUFFER, size: 72, usage: gl::STATIC_DRAW },
        ]
    );
    o.render_frame().unwrap();
    let calls = o.take_calls();
    assert_eq!(calls[16], GlCall::DrawArrays { mode: gl::TRIANGLES, first: 0, count: 6 });
    assert_eq!(o.scene().mesh.get_id(), 1);
}

#[test]
fn closing_deletes_everything_and_ends() {
    let mut o = running();
    assert_eq!(o.close(), Ok(()));
    assert_eq!(o.phase(), Phase::Closing);
    assert_eq!(
        o.take_calls(),
        vec![
            GlCall::DeleteVertexArray(2),
            GlCall::DeleteBuffer(1),
            GlCall::DeleteProgram(3),
            GlCall::DeleteVertexArray(9),
            GlCall::DeleteBuffer(8),
            GlCall::DeleteProgram(10),
            GlCall::DeleteTexture(4),
            GlCall::DeleteTexture(5),
            GlCall::DeleteTexture(6),
            GlCall::DeleteTexture(7),
            GlCall::DeleteFramebuffer(11),
            GlCall::DeleteTexture(12),
            GlCall::DeleteRenderbuffer(13),
        ]
    );
    assert_eq!(o.close(), Err(FrameError::WrongPhase));
    assert_eq!(o.start(), Err(FrameError::WrongPhase));
    assert_eq!(o.render_frame(), Err(FrameError::WrongPhase));
    assert_eq!(o.handle_resize(1, 1, MATRIX), Err(FrameError::WrongPhase));
    assert_eq!(o.update_projection(MATRIX), Err(FrameError::WrongPhase));
    assert_eq!(
        o.update_texture(MapKind::Diffuse, &picture(1, 1), 1),
        Err(FrameError::WrongPhase)
    );
    assert_eq!(o.handle_scroll(ScrollUnit::Line), Err(FrameError::WrongPhase));
    assert!(o.take_calls().is_empty());
    assert_eq!(o.phase(), Phase::Closing);
}

#[test]
fn a_resize_puts_the_diffuse_map_back() {
    let mut o = running();
    o.handle_resize(640, 480, MATRIX).unwrap();
    let calls = o.take_calls();
    let mut before = Bound { array_buffer: 1, vertex_array: 2, program: 3, framebuffer: 11, ..Bound::default() };
    before.textures.insert(gl::TEXTURE0, 4);
    let (draws, after) = follow(before.clone(), &calls);
    assert!(draws.is_empty());
    assert_eq!(after.textures[&gl::TEXTURE0], 4);
    assert_eq!(
        (after.array_buffer, after.vertex_array, after.program, after.framebuffer),
        (1, 2, 3, 11)
    );
    // The offscreen texture did take the unit for a while.
    let position = calls.iter().position(|c| matches!(c, GlCall::TexImage2D { .. })).unwrap();
    let (_, during) = follow(before, &calls[..position]);
    assert_eq!(during.textures[&gl::TEXTURE0], 12);
}

#[test]
fn a_replaced_map_is_bound_and_the_old_one_is_gone() {
    let mut o = running();
    let mut before = Bound::default();
    before.textures.insert(gl::TEXTURE1, 5);
    before.textures.insert(gl::TEXTURE2, 5);
    o.update_texture(MapKind::Normal, &picture(2, 2), 70).unwrap();
    let (draws, after) = follow(before, &o.take_calls());
    assert!(draws.is_empty());
    assert_eq!(after.textures[&gl::TEXTURE1], 70);
    assert!(after.textures.values().all(|name| *name != 5));
}

#[test]
fn closing_leaves_nothing_of_the_scene_bound() {
    let mut o = running();
    o.render_frame().unwrap();
    let mut calls = o.take_calls();
    o.close().unwrap();
    calls.extend(o.take_calls());
    let (_, after) = follow(Bound::default(), &calls);
    assert_eq!((after.array_buffer, after.vertex_array, after.framebuffer), (0, 0, 0));
    assert!(after.textures.values().all(|name| *name == 0));
}

#[test]
fn case_plays_no_part_in_a_dropped_path() {
    let paths: [&str; 6] = [
        "models/normal_map_v2.png",
        "textures/Stone_Spec.JPG",
        "sky/Ambient.Tiff",
        "cube.Obj",
        "readme.TXT",
        "wood.bmp",
    ];
    for path in paths {
        let expected = classify(path.as_bytes());
        assert_eq!(classify(path.to_ascii_uppercase().as_bytes()), expected);
        assert_eq!(classify(path.to_ascii_lowercase().as_bytes()), expected);
    }
}

#[test]
fn the_quad_covers_the_screen() {
    let quad: Vec<f32> = quad_stream().iter().map(|bits| f32::from_bits(*bits)).collect();
    assert_eq!(
        quad,
        vec![
            -1.0, -1.0, 0.0, 0.0, -1.0, 1.0, 0.0, 1.0, 1.0, 1.0, 1.0, 1.0, -1.0, -1.0, 0.0, 0.0,
            1.0, 1.0, 1.0, 1.0, 1.0, -1.0, 1.0, 0.0,
        ]
    );
    let bytes: usize = quad_attributes().iter().map(|a| a.1.bytes()).sum();
    assert_eq!(quad.len() * 4, 6 * bytes);
}

#[test]
fn each_map_has_its_unit_and_its_uniform() {
    let maps = [
        (MapKind::Diffuse, 0, "diffuse_map"),
        (MapKind::Normal, 1, "normal_map"),
        (MapKind::Specularity, 2, "specularity_map"),
        (MapKind::Environment, 3, "hdri"),
    ];
    for (kind, unit, name) in maps {
        assert_eq!(kind.unit(), unit);
        assert_eq!(kind.uniform(), name);
    }
}

#[test]
fn a_frame_is_due_after_a_change() {
    let mut o = running();
    assert!(!o.redraw_due());
    o.handle_resize(640, 480, MATRIX).unwrap();
    assert!(!o.redraw_due());
    assert_eq!(o.handle_scroll(ScrollUnit::Line), Ok(Shift::Forward { divisor: 5 }));
    assert!(!o.redraw_due());
    o.update_projection(MATRIX).unwrap();
    assert!(o.redraw_due());
    o.handle_resize(800, 600, MATRIX).unwrap();
    assert!(o.redraw_due());
    o.render_frame().unwrap();
    assert!(!o.redraw_due());
    assert!(o.update_texture(MapKind::Diffuse, &too_wide(), 9).is_err());
    assert!(!o.redraw_due());
    o.update_texture(MapKind::Diffuse, &picture(1, 1), 9).unwrap();
    assert!(o.redraw_due());
    o.render_frame().unwrap();
    let mesh = Mesh::parse(b"", LoadOptions::new(false, false, false)).unwrap();
    let model = obj::<f32>::load_new(&mesh, &[], &[], &[], &[]).unwrap();
    o.reload_mesh(&model).unwrap();
    assert!(o.redraw_due());
    assert_eq!(o.vertices(), 0);
    o.close().unwrap();
    assert!(o.redraw_due());
}
