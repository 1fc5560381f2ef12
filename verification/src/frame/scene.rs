//! The objects of a scene on the device, and the calls that a frame, a
//! resize and the end of the scene stand for.

use crate::frame::input::MapKind;
use crate::object::mesh::LoadOptions;
use crate::opengl::buffers::{
    bind_framebuffer, bind_renderbuffer, depth_storage, kinds_of, offset_of, stride_of,
    AttributeType, FrameBuffer, RenderBuffer, VertexBuffer, VertexBufferLayout, WORD,
};
use crate::opengl::gl;
use crate::opengl::gl::GlCall;
use crate::opengl::shaders::Program;
use crate::opengl::textures::{bind_calls, storage_call, Texture, TextureView, LAST_UNIT};
use crate::opengl::uniforms::Uniform;
use crate::opengl::Glwrapper;
use vstd::prelude::*;

verus! {

/// The device objects of a scene: the mesh with its layout, the main program
/// with its projection and its four maps, the quad that covers the screen
/// with its layout and its program, and the offscreen target with its depth
/// storage.
pub struct Scene {
    pub mesh: VertexBuffer,
    pub mesh_layout: VertexBufferLayout,
    pub program: Program,
    pub projection: Uniform,
    pub diffuse: Texture,
    pub normal: Texture,
    pub specularity: Texture,
    pub environment: Texture,
    pub quad: VertexBuffer,
    pub quad_layout: VertexBufferLayout,
    pub post_program: Program,
    pub target: FrameBuffer,
    pub depth: RenderBuffer,
}

/// A scene as a mathematical value: the names of its objects, the attributes
/// of its layouts, the name and the location of its projection, its textures
/// and the sizes of its render target.
pub struct SceneView {
    pub mesh: u32,
    pub mesh_layout: u32,
    /// The named attributes of the layout of the mesh.
    pub mesh_attributes: Seq<(String, AttributeType)>,
    pub program: u32,
    /// The location of the projection in the main program.
    pub projection: i32,
    /// The name of the projection in the main program.
    pub projection_label: Seq<char>,
    pub diffuse: TextureView,
    pub normal: TextureView,
    pub specularity: TextureView,
    pub environment: TextureView,
    pub quad: u32,
    pub quad_layout: u32,
    /// The named attributes of the layout of the quad.
    pub quad_attributes: Seq<(String, AttributeType)>,
    pub post_program: u32,
    pub target: u32,
    pub target_texture: TextureView,
    pub depth: u32,
    pub depth_size: (i32, i32),
}

impl SceneView {
    /// The map of the given kind.
    pub open spec fn map(self, kind: MapKind) -> TextureView {
        match kind {
            MapKind::Diffuse => self.diffuse,
            MapKind::Normal => self.normal,
            MapKind::Specularity => self.specularity,
            MapKind::Environment => self.environment,
        }
    }

    /// The same scene with another texture as the map of the given kind.
    pub open spec fn with_map(self, kind: MapKind, texture: TextureView) -> SceneView {
        match kind {
            MapKind::Diffuse => SceneView { diffuse: texture, ..self },
            MapKind::Normal => SceneView { normal: texture, ..self },
            MapKind::Specularity => SceneView { specularity: texture, ..self },
            MapKind::Environment => SceneView { environment: texture, ..self },
        }
    }

    /// Every texture is on a unit that the device can be told, and no two
    /// maps share a unit.
    pub open spec fn units_apart(self) -> bool {
        &&& self.diffuse.unit <= LAST_UNIT
        &&& self.normal.unit <= LAST_UNIT
        &&& self.specularity.unit <= LAST_UNIT
        &&& self.environment.unit <= LAST_UNIT
        &&& self.target_texture.unit <= LAST_UNIT
        &&& self.diffuse.unit != self.normal.unit
        &&& self.diffuse.unit != self.specularity.unit
        &&& self.diffuse.unit != self.environment.unit
        &&& self.normal.unit != self.specularity.unit
        &&& self.normal.unit != self.environment.unit
        &&& self.specularity.unit != self.environment.unit
    }
}

impl Scene {
    /// The scene as a mathematical value.
    pub open spec fn view(&self) -> SceneView {
        SceneView {
            mesh: self.mesh.name(),
            mesh_layout: self.mesh_layout.name(),
            mesh_attributes: self.mesh_layout@,
            program: self.program.name(),
            projection: self.projection.location(),
            projection_label: self.projection.label(),
            diffuse: self.diffuse@,
            normal: self.normal@,
            specularity: self.specularity@,
            environment: self.environment@,
            quad: self.quad.name(),
            quad_layout: self.quad_layout.name(),
            quad_attributes: self.quad_layout@,
            post_program: self.post_program.name(),
            target: self.target.name(),
            target_texture: self.target.texture(),
            depth: self.depth.name(),
            depth_size: self.depth.size(),
        }
    }
}

/// The color to which the offscreen target is cleared: a dark grey, opaque,
/// as the bit patterns of its four channels.
pub open spec fn background() -> GlCall {
    GlCall::ClearColor {
        red: 0x3d4c_cccd,
        green: 0x3d4c_cccd,
        blue: 0x3d4c_cccd,
        alpha: 0x3f80_0000,
    }
}

/// The number of vertices of the quad that covers the screen.
pub const QUAD_VERTICES: usize = 6;

/// The calls that bind the four maps, each on its unit.
pub open spec fn map_binds(s: SceneView) -> Seq<GlCall> {
    bind_calls(s.diffuse.unit, s.diffuse.name) + bind_calls(s.normal.unit, s.normal.name)
        + bind_calls(s.specularity.unit, s.specularity.name) + bind_calls(
        s.environment.unit,
        s.environment.name,
    )
}

/// The calls that bind what the geometry pass draws with: the mesh, its
/// layout, the main program, the offscreen target and the four maps.
pub open spec fn geometry_binds(s: SceneView) -> Seq<GlCall> {
    seq![
        GlCall::BindBuffer { target: gl::ARRAY_BUFFER, buffer: s.mesh },
        GlCall::BindVertexArray(s.mesh_layout),
        GlCall::UseProgram(s.program),
        bind_framebuffer(s.target),
    ] + map_binds(s)
}

/// The calls of the geometry pass after its bindings: clear color and depth,
/// turn depth testing on, draw all vertices of the mesh.
pub open spec fn geometry_draw(vertices: i32) -> Seq<GlCall> {
    seq![
        background(),
        GlCall::Clear(gl::COLOR_BUFFER_BIT),
        GlCall::Clear(gl::DEPTH_BUFFER_BIT),
        GlCall::Enable(gl::DEPTH_TEST),
        GlCall::DrawArrays { mode: gl::TRIANGLES, first: 0, count: vertices },
    ]
}

/// The calls that bind what the second pass draws with: the quad, its
/// layout, its program, the texture of the offscreen target as its source,
/// and the screen as its target.
pub open spec fn screen_binds(s: SceneView) -> Seq<GlCall> {
    seq![
        GlCall::BindBuffer { target: gl::ARRAY_BUFFER, buffer: s.quad },
        GlCall::BindVertexArray(s.quad_layout),
        GlCall::UseProgram(s.post_program),
    ] + bind_calls(s.target_texture.unit, s.target_texture.name).push(bind_framebuffer(0))
}

/// The calls of the second pass after its bindings: turn depth testing off
/// and draw the six vertices of the quad.
pub open spec fn screen_draw() -> Seq<GlCall> {
    seq![
        GlCall::Disable(gl::DEPTH_TEST),
        GlCall::DrawArrays { mode: gl::TRIANGLES, first: 0, count: 6 },
    ]
}

/// The calls of one frame: the geometry pass into the offscreen target, the
/// second pass onto the screen, the presentation, and the bindings of the
/// geometry pass once more for whatever comes next.
pub open spec fn frame_calls(s: SceneView, vertices: i32) -> Seq<GlCall> {
    geometry_binds(s) + geometry_draw(vertices) + screen_binds(s) + screen_draw() + seq![
        GlCall::SwapBuffers,
    ] + geometry_binds(s)
}

/// The calls of a resize: set the projection, set the viewport, give the
/// offscreen texture and the depth storage the new size, and bind the diffuse
/// map again on the unit that the offscreen texture may have taken.
pub open spec fn resize_calls(s: SceneView, width: i32, height: i32, projection: GlCall) -> Seq<
    GlCall,
> {
    seq![projection, GlCall::Viewport { x: 0, y: 0, width, height }] + bind_calls(
        s.target_texture.unit,
        s.target_texture.name,
    ).push(storage_call(TextureView { width, height, ..s.target_texture }, false)) + bind_calls(
        s.diffuse.unit,
        s.diffuse.name,
    ) + seq![bind_renderbuffer(s.depth), depth_storage(width, height)]
}

/// The calls that delete every object of the scene: of the mesh and of the
/// quad the layout, the buffer and the program, then the four maps, the
/// offscreen target with its texture, and the depth storage.
pub open spec fn close_calls(s: SceneView) -> Seq<GlCall> {
    seq![
        GlCall::DeleteVertexArray(s.mesh_layout),
        GlCall::DeleteBuffer(s.mesh),
        GlCall::DeleteProgram(s.program),
        GlCall::DeleteVertexArray(s.quad_layout),
        GlCall::DeleteBuffer(s.quad),
        GlCall::DeleteProgram(s.post_program),
        GlCall::DeleteTexture(s.diffuse.name),
        GlCall::DeleteTexture(s.normal.name),
        GlCall::DeleteTexture(s.specularity.name),
        GlCall::DeleteTexture(s.environment.name),
        GlCall::DeleteFramebuffer(s.target),
        GlCall::DeleteTexture(s.target_texture.name),
        GlCall::DeleteRenderbuffer(s.depth),
    ]
}

/// The call that sets the projection at the location `at`.
pub open spec fn projection_call(at: i32, projection: [u32; 16]) -> GlCall {
    GlCall::UniformMatrix4fv { location: at, transpose: false, matrix: projection }
}

/// Records the bindings of the geometry pass.
pub(crate) fn bind_geometry(scene: &Scene, gl: &mut Glwrapper)
    ensures
        final(gl)@ == old(gl)@ + geometry_binds(scene@),
{
    scene.mesh.bind(gl);
    scene.mesh_layout.bind(gl);
    scene.program.bind(gl);
    scene.target.bind(gl);
    scene.diffuse.bind(gl);
    scene.normal.bind(gl);
    scene.specularity.bind(gl);
    scene.environment.bind(gl);
}

/// The types of the attributes of a mesh vertex under the given options, in
/// stream order: three scalars for the position, two for the texture
/// coordinate, three for the normal, three each for tangent and bitangent.
pub open spec fn mesh_kinds(options: LoadOptions) -> Seq<AttributeType> {
    seq![AttributeType::Float3] + (if options.include_texcoord {
        seq![AttributeType::Float2]
    } else {
        Seq::empty()
    }) + (if options.include_normal {
        seq![AttributeType::Float3]
    } else {
        Seq::empty()
    }) + (if options.include_tangent_bitangent {
        seq![AttributeType::Float3, AttributeType::Float3]
    } else {
        Seq::empty()
    })
}

/// The named attributes of a mesh vertex under the given options, for the
/// layout of the mesh buffer.
pub fn mesh_attributes(options: LoadOptions) -> (r: Vec<(String, AttributeType)>)
    ensures
        kinds_of(r@) == mesh_kinds(options),
        stride_of(kinds_of(r@)) == WORD * options.stride_of(),
{
    let mut out: Vec<(String, AttributeType)> = Vec::new();
    out.push(("a_Position".to_owned(), AttributeType::Float3));
    if options.include_texcoord {
        out.push(("a_TexCoords".to_owned(), AttributeType::Float2));
    }
    if options.include_normal {
        out.push(("a_Normal".to_owned(), AttributeType::Float3));
    }
    if options.include_tangent_bitangent {
        out.push(("a_Tangent".to_owned(), AttributeType::Float3));
        out.push(("a_Bitangent".to_owned(), AttributeType::Float3));
    }
    proof {
        assert(kinds_of(out@) =~= mesh_kinds(options));
        lemma_layout_fits_stream(options);
    }
    out
}

/// The named attributes of the quad that covers the screen: a position and a
/// texture coordinate of two scalars each.
pub fn quad_attributes() -> (r: Vec<(String, AttributeType)>)
    ensures
        kinds_of(r@) == seq![AttributeType::Float2, AttributeType::Float2],
{
    let mut out: Vec<(String, AttributeType)> = Vec::new();
    out.push(("a_Position".to_owned(), AttributeType::Float2));
    out.push(("a_TexCoords".to_owned(), AttributeType::Float2));
    assert(kinds_of(out@) =~= seq![AttributeType::Float2, AttributeType::Float2]);
    out
}

/// The bit pattern of the real number one.
pub const ONE: u32 = 0x3f80_0000;

/// The bit pattern of the real number minus one.
pub const MINUS_ONE: u32 = 0xbf80_0000;

/// The stream of the quad that covers the screen, as bit patterns: for each
/// of its six vertices a position in the plane of the screen and a texture
/// coordinate. The two triangles share the diagonal from the lower left to
/// the upper right corner.
pub open spec fn quad_scalars() -> Seq<u32> {
    seq![
        MINUS_ONE, MINUS_ONE, 0, 0,
        MINUS_ONE, ONE, 0, ONE,
        ONE, ONE, ONE, ONE,
        MINUS_ONE, MINUS_ONE, 0, 0,
        ONE, ONE, ONE, ONE,
        ONE, MINUS_ONE, ONE, 0,
    ]
}

/// The stream of the quad that covers the screen: four scalars for each of
/// its six vertices, as its layout asks.
pub fn quad_stream() -> (r: [u32; 24])
    ensures
        r@ == quad_scalars(),
        r@.len() * WORD == QUAD_VERTICES * stride_of(
            seq![AttributeType::Float2, AttributeType::Float2],
        ),
{
    let r: [u32; 24] = [
        MINUS_ONE, MINUS_ONE, 0, 0,
        MINUS_ONE, ONE, 0, ONE,
        ONE, ONE, ONE, ONE,
        MINUS_ONE, MINUS_ONE, 0, 0,
        ONE, ONE, ONE, ONE,
        ONE, MINUS_ONE, ONE, 0,
    ];
    proof {
        assert(r@ =~= quad_scalars());
        reveal_with_fuel(offset_of, 3);
    }
    r
}

/// The layout of a mesh fits its stream: from one vertex to the next the
/// layout steps over four bytes for each scalar that the stream holds for a
/// vertex, whatever the options.
pub proof fn lemma_layout_fits_stream(options: LoadOptions)
    ensures
        stride_of(mesh_kinds(options)) == WORD * options.stride_of(),
{
    reveal_with_fuel(offset_of, 6);
}

} // verus!
