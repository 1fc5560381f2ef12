//! The calls that the renderer sends to the graphics device, the constants
//! that they carry, and a model of the device state that draw calls depend on.

use vstd::prelude::*;

verus! {

pub const NO_ERROR: u32 = 0;

pub const INVALID_ENUM: u32 = 0x0500;

pub const INVALID_VALUE: u32 = 0x0501;

pub const INVALID_OPERATION: u32 = 0x0502;

pub const TRIANGLES: u32 = 0x0004;

pub const DEPTH_BUFFER_BIT: u32 = 0x0100;

pub const COLOR_BUFFER_BIT: u32 = 0x4000;

pub const DEPTH_TEST: u32 = 0x0b71;

pub const TEXTURE_2D: u32 = 0x0de1;

pub const UNSIGNED_BYTE: u32 = 0x1401;

pub const INT: u32 = 0x1404;

pub const UNSIGNED_INT: u32 = 0x1405;

pub const FLOAT: u32 = 0x1406;

pub const RGB: u32 = 0x1907;

pub const RGBA: u32 = 0x1908;

pub const LINEAR: u32 = 0x2601;

pub const TEXTURE_MAG_FILTER: u32 = 0x2800;

pub const TEXTURE_MIN_FILTER: u32 = 0x2801;

pub const TEXTURE_WRAP_S: u32 = 0x2802;

pub const TEXTURE_WRAP_T: u32 = 0x2803;

pub const REPEAT: u32 = 0x2901;

pub const RGBA4: u32 = 0x8056;

pub const FRAMEBUFFER_UNDEFINED: u32 = 0x8219;

pub const DEPTH_STENCIL_ATTACHMENT: u32 = 0x821a;

pub const TEXTURE0: u32 = 0x84c0;

pub const DEPTH24_STENCIL8: u32 = 0x88f0;

pub const ARRAY_BUFFER: u32 = 0x8892;

pub const ELEMENT_ARRAY_BUFFER: u32 = 0x8893;

pub const STATIC_DRAW: u32 = 0x88e4;

pub const FRAGMENT_SHADER: u32 = 0x8b30;

pub const VERTEX_SHADER: u32 = 0x8b31;

pub const BOOL: u32 = 0x8b56;

pub const COMPILE_STATUS: u32 = 0x8b81;

pub const LINK_STATUS: u32 = 0x8b82;

pub const INFO_LOG_LENGTH: u32 = 0x8b84;

pub const FRAMEBUFFER_COMPLETE: u32 = 0x8cd5;

pub const FRAMEBUFFER_INCOMPLETE_ATTACHMENT: u32 = 0x8cd6;

pub const FRAMEBUFFER_INCOMPLETE_MISSING_ATTACHMENT: u32 = 0x8cd7;

pub const FRAMEBUFFER_UNSUPPORTED: u32 = 0x8cdd;

pub const COLOR_ATTACHMENT0: u32 = 0x8ce0;

pub const FRAMEBUFFER: u32 = 0x8d40;

pub const RENDERBUFFER: u32 = 0x8d41;

pub const DEBUG_OUTPUT: u32 = 0x92e0;

/// One call to the graphics device. Names are those that the device gave;
/// scalars that the device reads as real numbers are carried as their 32-bit
/// patterns. A call that hands data to the device (the contents of a buffer,
/// the pixels of a texture, the source of a shader) names only what the data
/// is for: the data itself comes from whoever performs the call. A call that
/// asks the device something is answered to whoever performs it; the
/// functions that read the answers say which call they belong to.
#[derive(Clone, Copy, Debug, PartialEq, Eq)]
pub enum GlCall {
    Enable(u32),
    Disable(u32),
    DepthMask(bool),
    Viewport { x: i32, y: i32, width: i32, height: i32 },
    ClearColor { red: u32, green: u32, blue: u32, alpha: u32 },
    Clear(u32),
    DrawArrays { mode: u32, first: i32, count: i32 },
    DrawElements { mode: u32, count: i32, kind: u32 },
    GetError,
    SwapBuffers,
    BindBuffer { target: u32, buffer: u32 },
    BufferData { target: u32, size: isize, usage: u32 },
    DeleteBuffer(u32),
    BindVertexArray(u32),
    VertexAttribPointer {
        index: u32,
        components: i32,
        kind: u32,
        normalized: bool,
        stride: i32,
        offset: usize,
    },
    EnableVertexAttribArray(u32),
    DeleteVertexArray(u32),
    BindFramebuffer { target: u32, framebuffer: u32 },
    FramebufferTexture2D { target: u32, attachment: u32, textarget: u32, texture: u32, level: i32 },
    FramebufferRenderbuffer { target: u32, attachment: u32, renderbuffertarget: u32, renderbuffer: u32 },
    CheckFramebufferStatus(u32),
    DeleteFramebuffer(u32),
    BindRenderbuffer { target: u32, renderbuffer: u32 },
    RenderbufferStorage { target: u32, storage: u32, width: i32, height: i32 },
    DeleteRenderbuffer(u32),
    ActiveTexture(u32),
    BindTexture { target: u32, texture: u32 },
    TexParameteri { target: u32, pname: u32, param: i32 },
    TexImage2D {
        target: u32,
        level: i32,
        internalformat: i32,
        width: i32,
        height: i32,
        border: i32,
        format: u32,
        kind: u32,
        with_pixels: bool,
    },
    GenerateMipmap(u32),
    DeleteTexture(u32),
    ShaderSource(u32),
    CompileShader(u32),
    GetShaderStatus(u32),
    DeleteShader(u32),
    AttachShader { program: u32, shader: u32 },
    LinkProgram(u32),
    GetProgramStatus(u32),
    UseProgram(u32),
    DeleteProgram(u32),
    Uniform1f { location: i32, bits: u32 },
    Uniform4fv { location: i32, vector: [u32; 4] },
    Uniform1i { location: i32, value: i32 },
    UniformMatrix4fv { location: i32, transpose: bool, matrix: [u32; 16] },
}

/// What a draw call saw of the device when it was issued.
pub struct Draw {
    pub array_buffer: u32,
    pub vertex_array: u32,
    pub program: u32,
    pub framebuffer: u32,
    pub depth_test: bool,
    pub textures: Map<u32, u32>,
    pub first: i32,
    pub count: i32,
}

/// The part of the device state that the renderer relies on: what is bound
/// where, and the draw calls made so far with what each of them saw.
pub struct Device {
    pub array_buffer: u32,
    pub element_buffer: u32,
    pub vertex_array: u32,
    pub framebuffer: u32,
    pub renderbuffer: u32,
    pub program: u32,
    /// The active texture unit, as the constant that selects it.
    pub active_unit: u32,
    /// The texture bound to the two-dimensional target of each unit that had
    /// one bound.
    pub textures: Map<u32, u32>,
    pub depth_test: bool,
    pub viewport: (i32, i32),
    pub draws: Seq<Draw>,
}

/// `name` where it differs from `gone`, and zero where it is `gone`: what a
/// binding holds after the object `gone` was deleted.
pub open spec fn unless(name: u32, gone: u32) -> u32 {
    if name == gone {
        0
    } else {
        name
    }
}

impl Device {
    /// The device before any call: nothing bound, the first unit active.
    pub open spec fn initial() -> Device {
        Device {
            array_buffer: 0,
            element_buffer: 0,
            vertex_array: 0,
            framebuffer: 0,
            renderbuffer: 0,
            program: 0,
            active_unit: TEXTURE0,
            textures: Map::empty(),
            depth_test: false,
            viewport: (0, 0),
            draws: Seq::empty(),
        }
    }

    /// The texture bound to `unit`, zero if none.
    pub open spec fn texture_on(self, unit: u32) -> u32 {
        if self.textures.dom().contains(unit) {
            self.textures[unit]
        } else {
            0
        }
    }

    /// What a draw call of `count` vertices from `first` on sees now.
    pub open spec fn seen(self, first: i32, count: i32) -> Draw {
        Draw {
            array_buffer: self.array_buffer,
            vertex_array: self.vertex_array,
            program: self.program,
            framebuffer: self.framebuffer,
            depth_test: self.depth_test,
            textures: self.textures,
            first,
            count,
        }
    }

    /// The device after one call.
    pub open spec fn step(self, call: GlCall) -> Device {
        match call {
            GlCall::Enable(what) => if what == DEPTH_TEST {
                Device { depth_test: true, ..self }
            } else {
                self
            },
            GlCall::Disable(what) => if what == DEPTH_TEST {
                Device { depth_test: false, ..self }
            } else {
                self
            },
            GlCall::Viewport { x, y, width, height } => Device { viewport: (width, height), ..self },
            GlCall::DrawArrays { mode, first, count } => Device {
                draws: self.draws.push(self.seen(first, count)),
                ..self
            },
            GlCall::DrawElements { mode, count, kind } => Device {
                draws: self.draws.push(self.seen(0, count)),
                ..self
            },
            GlCall::BindBuffer { target, buffer } => if target == ARRAY_BUFFER {
                Device { array_buffer: buffer, ..self }
            } else if target == ELEMENT_ARRAY_BUFFER {
                Device { element_buffer: buffer, ..self }
            } else {
                self
            },
            GlCall::DeleteBuffer(name) => Device {
                array_buffer: unless(self.array_buffer, name),
                element_buffer: unless(self.element_buffer, name),
                ..self
            },
            GlCall::BindVertexArray(name) => Device { vertex_array: name, ..self },
            GlCall::DeleteVertexArray(name) => Device {
                vertex_array: unless(self.vertex_array, name),
                ..self
            },
            GlCall::BindFramebuffer { target, framebuffer } => if target == FRAMEBUFFER {
                Device { framebuffer, ..self }
            } else {
                self
            },
            GlCall::DeleteFramebuffer(name) => Device {
                framebuffer: unless(self.framebuffer, name),
                ..self
            },
            GlCall::BindRenderbuffer { target, renderbuffer } => if target == RENDERBUFFER {
                Device { renderbuffer, ..self }
            } else {
                self
            },
            GlCall::DeleteRenderbuffer(name) => Device {
                renderbuffer: unless(self.renderbuffer, name),
                ..self
            },
            GlCall::ActiveTexture(unit) => Device { active_unit: unit, ..self },
            GlCall::BindTexture { target, texture } => if target == TEXTURE_2D {
                Device { textures: self.textures.insert(self.active_unit, texture), ..self }
            } else {
                self
            },
            GlCall::DeleteTexture(name) => Device {
                textures: Map::new(
                    |unit: u32| self.textures.dom().contains(unit),
                    |unit: u32| unless(self.textures[unit], name),
                ),
                ..self
            },
            GlCall::UseProgram(name) => Device { program: name, ..self },
            _ => self,
        }
    }

    /// The device after a sequence of calls.
    pub open spec fn run(self, calls: Seq<GlCall>) -> Device
        decreases calls.len(),
    {
        if calls.len() == 0 {
            self
        } else {
            self.run(calls.drop_last()).step(calls.last())
        }
    }
}

/// Running one more call is one more step.
pub proof fn lemma_run_push(d: Device, calls: Seq<GlCall>, call: GlCall)
    ensures
        d.run(calls.push(call)) == d.run(calls).step(call),
{
    assert(calls.push(call).drop_last() =~= calls);
}

/// Running two sequences one after the other is running their concatenation.
pub proof fn lemma_run_concat(d: Device, first: Seq<GlCall>, second: Seq<GlCall>)
    ensures
        d.run(first + second) == d.run(first).run(second),
    decreases second.len(),
{
    if second.len() == 0 {
        assert(first + second =~= first);
    } else {
        lemma_run_concat(d, first, second.drop_last());
        assert((first + second).drop_last() =~= first + second.drop_last());
        assert((first + second).last() == second.last());
    }
}

/// Running two calls is two steps.
pub proof fn lemma_run_two(d: Device, a: GlCall, b: GlCall)
    ensures
        d.run(seq![a, b]) == d.step(a).step(b),
{
    lemma_run_push(d, Seq::empty(), a);
    lemma_run_push(d, seq![a], b);
    assert(seq![a].push(b) =~= seq![a, b]);
    assert(Seq::<GlCall>::empty().push(a) =~= seq![a]);
}

/// Running three calls is three steps.
pub proof fn lemma_run_three(d: Device, a: GlCall, b: GlCall, c: GlCall)
    ensures
        d.run(seq![a, b, c]) == d.step(a).step(b).step(c),
{
    lemma_run_two(d, a, b);
    lemma_run_push(d, seq![a, b], c);
    assert(seq![a, b].push(c) =~= seq![a, b, c]);
}

/// Running four calls is four steps.
pub proof fn lemma_run_four(d: Device, a: GlCall, b: GlCall, c: GlCall, e: GlCall)
    ensures
        d.run(seq![a, b, c, e]) == d.step(a).step(b).step(c).step(e),
{
    lemma_run_three(d, a, b, c);
    lemma_run_push(d, seq![a, b, c], e);
    assert(seq![a, b, c].push(e) =~= seq![a, b, c, e]);
}

/// Running five calls is five steps.
pub proof fn lemma_run_five(d: Device, a: GlCall, b: GlCall, c: GlCall, e: GlCall, f: GlCall)
    ensures
        d.run(seq![a, b, c, e, f]) == d.step(a).step(b).step(c).step(e).step(f),
{
    lemma_run_four(d, a, b, c, e);
    lemma_run_push(d, seq![a, b, c, e], f);
    assert(seq![a, b, c, e].push(f) =~= seq![a, b, c, e, f]);
}

} // verus!
