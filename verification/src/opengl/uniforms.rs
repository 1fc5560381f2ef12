//! Named values that a shader program reads.

use crate::opengl::gl::GlCall;
use crate::opengl::shaders::{is_text, text_ok};
use crate::opengl::Glwrapper;
use vstd::prelude::*;
use vstd::string::StringSliceAdditionalSpecFns;

verus! {

/// The location that the device gives to a uniform that no shader reads.
pub const INACTIVE: i32 = -1;

/// A value for a uniform. Scalars that a shader reads as real numbers are
/// given as their 32-bit patterns; matrices go column after column.
#[derive(Clone, Copy, Debug, PartialEq, Eq)]
pub enum UniformType {
    Float(u32),
    Float2([u32; 2]),
    Float3([u32; 3]),
    Float4([u32; 4]),
    Mat3x3([u32; 9]),
    Mat4x4([u32; 16]),
    Int(i32),
    Int2([i32; 2]),
    Int3([i32; 3]),
    Int4([i32; 4]),
    Bool(bool),
    /// The number of the texture unit on which the texture is bound.
    Texture(u32),
}

/// Why a uniform was not created or set.
#[derive(Clone, Copy, Debug, PartialEq, Eq)]
pub enum UniformError {
    /// The name holds the byte that ends a text.
    InvalidName,
    /// A value of this kind cannot be set here.
    Unsupported,
    /// The number of the texture unit is larger than the device can be told.
    OutOfRange,
}

/// The call that sets a uniform when it is created: for a single real
/// number, for four of them, for a texture unit that the device can be told,
/// and for a matrix of four columns. No other value can be set then.
pub open spec fn create_call(location: i32, value: UniformType) -> Result<GlCall, UniformError> {
    match value {
        UniformType::Float(v) => Ok(GlCall::Uniform1f { location, bits: v }),
        UniformType::Float4(v) => Ok(GlCall::Uniform4fv { location, vector: v }),
        UniformType::Texture(unit) => if unit <= i32::MAX {
            Ok(GlCall::Uniform1i { location, value: unit as i32 })
        } else {
            Err(UniformError::OutOfRange)
        },
        UniformType::Mat4x4(v) => Ok(
            GlCall::UniformMatrix4fv { location, transpose: false, matrix: v },
        ),
        _ => Err(UniformError::Unsupported),
    }
}

/// The call that sets a uniform later on: for a single real number, for four
/// of them, and for a matrix of four columns. No other value can be set
/// then.
pub open spec fn set_call(location: i32, value: UniformType) -> Result<GlCall, UniformError> {
    match value {
        UniformType::Float(v) => Ok(GlCall::Uniform1f { location, bits: v }),
        UniformType::Float4(v) => Ok(GlCall::Uniform4fv { location, vector: v }),
        UniformType::Mat4x4(v) => Ok(
            GlCall::UniformMatrix4fv { location, transpose: false, matrix: v },
        ),
        _ => Err(UniformError::Unsupported),
    }
}

/// The call for a value at creation, or why there is none.
fn first_call(location: i32, value: UniformType) -> (r: Result<GlCall, UniformError>)
    ensures
        r == create_call(location, value),
{
    match value {
        UniformType::Float(v) => Ok(GlCall::Uniform1f { location, bits: v }),
        UniformType::Float4(v) => Ok(GlCall::Uniform4fv { location, vector: v }),
        UniformType::Texture(unit) => if unit <= 0x7fff_ffff {
            Ok(GlCall::Uniform1i { location, value: unit as i32 })
        } else {
            Err(UniformError::OutOfRange)
        },
        UniformType::Mat4x4(v) => Ok(
            GlCall::UniformMatrix4fv { location, transpose: false, matrix: v },
        ),
        _ => Err(UniformError::Unsupported),
    }
}

/// The call for a value later on, or why there is none.
fn later_call(location: i32, value: UniformType) -> (r: Result<GlCall, UniformError>)
    ensures
        r == set_call(location, value),
{
    match value {
        UniformType::Float(v) => Ok(GlCall::Uniform1f { location, bits: v }),
        UniformType::Float4(v) => Ok(GlCall::Uniform4fv { location, vector: v }),
        UniformType::Mat4x4(v) => Ok(
            GlCall::UniformMatrix4fv { location, transpose: false, matrix: v },
        ),
        _ => Err(UniformError::Unsupported),
    }
}

/// A uniform of a program: its name and its location.
pub struct Uniform {
    name: String,
    id: i32,
}

impl Uniform {
    /// The name of the uniform.
    pub closed spec fn label(&self) -> Seq<char> {
        self.name@
    }

    /// The location of the uniform.
    pub closed spec fn location(&self) -> i32 {
        self.id
    }

    /// Creates the uniform `name` at the location that the device gave for
    /// it in the program that is bound, and sets it to `value`.
    ///
    /// A name that holds the byte which ends a text is refused, then a value
    /// that cannot be set; nothing is recorded for either. A uniform at the
    /// location of an inactive uniform is created all the same: `is_active`
    /// tells.
    pub fn new(name: &str, value: UniformType, location: i32, gl: &mut Glwrapper) -> (r: Result<
        Uniform,
        UniformError,
    >)
        ensures
            match r {
                Ok(u) => {
                    &&& is_text(name.spec_bytes())
                    &&& create_call(location, value) matches Ok(call)
                    &&& u.label() == name@
                    &&& u.location() == location
                    &&& final(gl)@ == old(gl)@.push(call)
                },
                Err(e) => {
                    &&& final(gl)@ == old(gl)@
                    &&& if !is_text(name.spec_bytes()) {
                        e == UniformError::InvalidName
                    } else {
                        create_call(location, value) == Err::<GlCall, UniformError>(e)
                    }
                },
            },
    {
        if !text_ok(name.as_bytes()) {
            return Err(UniformError::InvalidName);
        }
        match first_call(location, value) {
            Ok(call) => {
                gl.record(call);
                Ok(Uniform { name: name.to_owned(), id: location })
            },
            Err(e) => Err(e),
        }
    }

    /// The location of the uniform.
    pub fn get_id(&self) -> (r: i32)
        ensures
            r == self.location(),
    {
        self.id
    }

    /// Whether a shader reads the uniform: its location is not that of an
    /// inactive uniform.
    pub fn is_active(&self) -> (r: bool)
        ensures
            r == (self.location() != INACTIVE),
    {
        self.id != INACTIVE
    }

    /// Sets the uniform to `value`. The uniform itself stays as it is. A
    /// value that cannot be set is refused, and nothing is recorded.
    pub fn set(&mut self, value: UniformType, gl: &mut Glwrapper) -> (r: Result<(), UniformError>)
        ensures
            final(self).label() == old(self).label(),
            final(self).location() == old(self).location(),
            match r {
                Ok(()) => {
                    &&& set_call(old(self).location(), value) matches Ok(call)
                    &&& final(gl)@ == old(gl)@.push(call)
                },
                Err(e) => {
                    &&& set_call(old(self).location(), value) == Err::<GlCall, UniformError>(e)
                    &&& final(gl)@ == old(gl)@
                },
            },
    {
        match later_call(self.id, value) {
            Ok(call) => {
                gl.record(call);
                Ok(())
            },
            Err(e) => Err(e),
        }
    }

    /// The name of the uniform.
    pub fn name(&self) -> (r: &str)
        ensures
            r@ == self.label(),
    {
        self.name.as_str()
    }
}

} // verus!
