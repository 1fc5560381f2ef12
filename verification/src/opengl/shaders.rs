//! Shaders and the programs linked of them.

use crate::opengl::gl::GlCall;
use crate::opengl::Glwrapper;
use vstd::prelude::*;

verus! {

/// The byte that ends a text handed to the device.
pub const NUL: u8 = 0;

/// The byte of a space.
pub const SPACE: u8 = 0x20;

/// The text holds no byte that would end it early.
pub open spec fn is_text(source: Seq<u8>) -> bool {
    forall|k: int| 0 <= k < source.len() ==> #[trigger] source[k] != NUL
}

/// Whether `source` can be handed to the device as a text.
pub fn text_ok(source: &[u8]) -> (r: bool)
    ensures
        r == is_text(source@),
{
    let mut k: usize = 0;
    while k < source.len()
        invariant
            0 <= k <= source@.len(),
            forall|j: int| 0 <= j < k ==> #[trigger] source@[j] != NUL,
        decreases source@.len() - k,
    {
        if source[k] == NUL {
            return false;
        }
        k += 1;
    }
    true
}

/// The calls that hand the source of a shader to the device, compile it and
/// ask whether that went well.
pub open spec fn compile_calls(shader: u32) -> Seq<GlCall> {
    seq![
        GlCall::ShaderSource(shader),
        GlCall::CompileShader(shader),
        GlCall::GetShaderStatus(shader),
    ]
}

/// The calls that link a program of two shaders and ask whether that went
/// well.
pub open spec fn link_calls(program: u32, vertex: u32, fragment: u32) -> Seq<GlCall> {
    seq![
        GlCall::AttachShader { program, shader: vertex },
        GlCall::AttachShader { program, shader: fragment },
        GlCall::LinkProgram(program),
        GlCall::GetProgramStatus(program),
    ]
}

/// Why shaders were not compiled.
#[derive(Clone, Copy, Debug, PartialEq, Eq)]
pub enum ShaderError {
    /// The source of the vertex shader holds the byte that ends a text.
    VertexSource,
    /// The source of the fragment shader holds the byte that ends a text.
    FragmentSource,
}

/// A compile or link step failed: the status that the device reports for it
/// is zero.
pub open spec fn has_failed(success: i32) -> bool {
    success == 0
}

/// The buffer that receives a log of the length that the device reports: as
/// many spaces as the log is long, a negative length taken as zero.
pub open spec fn log_spaces(len: i32) -> Seq<u8> {
    Seq::new(
        if len < 0 {
            0nat
        } else {
            len as nat
        },
        |i: int| SPACE,
    )
}

/// The buffer for a log of the length that the device reports.
pub fn log_buffer(len: i32) -> (r: Vec<u8>)
    ensures
        r@ == log_spaces(len),
{
    if len < 0 {
        whitespaces_cstring(0)
    } else {
        whitespaces_cstring(len as usize)
    }
}

/// A vertex shader and a fragment shader on the device.
pub struct Shader {
    vertex_id: u32,
    fragment_id: u32,
}

impl Shader {
    /// The names that the device gave to the vertex and the fragment shader.
    pub closed spec fn names(&self) -> (u32, u32) {
        (self.vertex_id, self.fragment_id)
    }

    /// Compiles the two shaders under the names that the device gave them,
    /// the vertex shader first. The sources go to the device as texts, so a
    /// source that holds the byte which ends a text is refused, that of the
    /// vertex shader first, and nothing is recorded. The answers to the
    /// status calls are read by `handle_shader_errors`.
    pub fn new(
        vertex_src: &[u8],
        fragment_src: &[u8],
        vertex_id: u32,
        fragment_id: u32,
        gl: &mut Glwrapper,
    ) -> (r: Result<Shader, ShaderError>)
        ensures
            match r {
                Ok(shader) => {
                    &&& is_text(vertex_src@) && is_text(fragment_src@)
                    &&& shader.names() == (vertex_id, fragment_id)
                    &&& final(gl)@ == old(gl)@ + compile_calls(vertex_id) + compile_calls(
                        fragment_id,
                    )
                },
                Err(e) => {
                    &&& final(gl)@ == old(gl)@
                    &&& e == if !is_text(vertex_src@) {
                        ShaderError::VertexSource
                    } else {
                        ShaderError::FragmentSource
                    }
                    &&& !is_text(vertex_src@) || !is_text(fragment_src@)
                },
            },
    {
        if !text_ok(vertex_src) {
            return Err(ShaderError::VertexSource);
        }
        if !text_ok(fragment_src) {
            return Err(ShaderError::FragmentSource);
        }
        gl.record(GlCall::ShaderSource(vertex_id));
        gl.record(GlCall::CompileShader(vertex_id));
        gl.record(GlCall::GetShaderStatus(vertex_id));
        gl.record(GlCall::ShaderSource(fragment_id));
        gl.record(GlCall::CompileShader(fragment_id));
        gl.record(GlCall::GetShaderStatus(fragment_id));
        Ok(Shader { vertex_id, fragment_id })
    }

    /// The name of the vertex shader.
    pub fn get_vertex_id(&self) -> (r: u32)
        ensures
            r == self.names().0,
    {
        self.vertex_id
    }

    /// The name of the fragment shader.
    pub fn get_fragment_id(&self) -> (r: u32)
        ensures
            r == self.names().1,
    {
        self.fragment_id
    }

    /// Reads the answer to `GlCall::GetShaderStatus`, the compile status of
    /// the shader: whether compiling failed, so that the log is to be
    /// fetched. The length of the log is asked for only then, and
    /// `log_buffer` gives the buffer for it.
    pub fn handle_shader_errors(success: i32) -> (r: bool)
        ensures
            r == has_failed(success),
    {
        success == 0
    }

    /// Deletes both shaders on the device.
    pub fn delete(self, gl: &mut Glwrapper)
        ensures
            final(gl)@ == old(gl)@ + seq![
                GlCall::DeleteShader(self.names().0),
                GlCall::DeleteShader(self.names().1),
            ],
    {
        gl.record(GlCall::DeleteShader(self.vertex_id));
        gl.record(GlCall::DeleteShader(self.fragment_id));
    }
}

/// A linked shader program on the device.
pub struct Program {
    id: u32,
}

impl Program {
    /// The name that the device gave to the program.
    pub closed spec fn name(&self) -> u32 {
        self.id
    }

    /// Links the two shaders to a program under the name `id` that the
    /// device gave. The answer to the status call is read by
    /// `handle_link_errors`.
    pub fn new(shader: &Shader, id: u32, gl: &mut Glwrapper) -> (r: Program)
        ensures
            r.name() == id,
            final(gl)@ == old(gl)@ + link_calls(id, shader.names().0, shader.names().1),
    {
        gl.record(GlCall::AttachShader { program: id, shader: shader.get_vertex_id() });
        gl.record(GlCall::AttachShader { program: id, shader: shader.get_fragment_id() });
        gl.record(GlCall::LinkProgram(id));
        gl.record(GlCall::GetProgramStatus(id));
        Program { id }
    }

    /// Reads the answer to `GlCall::GetProgramStatus`, the link status of the
    /// program: whether linking failed, so that the log is to be fetched.
    pub fn handle_link_errors(success: i32) -> (r: bool)
        ensures
            r == has_failed(success),
    {
        success == 0
    }

    /// Makes the program the one that draws.
    pub fn bind(&self, gl: &mut Glwrapper)
        ensures
            final(gl)@ == old(gl)@.push(GlCall::UseProgram(self.name())),
    {
        gl.record(GlCall::UseProgram(self.id));
    }

    /// The name that the device gave to the program.
    pub fn get_id(&self) -> (r: u32)
        ensures
            r == self.name(),
    {
        self.id
    }

    /// Deletes the program on the device.
    pub fn delete(&self, gl: &mut Glwrapper)
        ensures
            final(gl)@ == old(gl)@.push(GlCall::DeleteProgram(self.name())),
    {
        gl.record(GlCall::DeleteProgram(self.id));
    }
}

/// A buffer of `len` spaces, to be filled by the device with a text of that
/// length.
pub fn whitespaces_cstring(len: usize) -> (r: Vec<u8>)
    ensures
        r@ == Seq::new(len as nat, |i: int| SPACE),
{
    let mut buffer: Vec<u8> = Vec::new();
    let mut k: usize = 0;
    while k < len
        invariant
            0 <= k <= len,
            buffer@ == Seq::new(k as nat, |i: int| SPACE),
        decreases len - k,
    {
        buffer.push(SPACE);
        k += 1;
    }
    buffer
}

} // verus!
