//! The device resource manager: buffers, vertex layouts, textures, render
//! targets, shader programs and uniforms.
//!
//! Nothing here touches the graphics device. Every operation records the
//! calls that it stands for in a `Glwrapper`, in the order in which the device
//! has to see them; whoever owns the device context performs them and hands
//! back what the device answers. An operation that creates an object takes
//! the name that the device gave to it. A texture is made of a picture that
//! was read already: reading and decoding files is not done here.

pub mod buffers;
pub mod gl;
pub mod shaders;
pub mod textures;
pub mod uniforms;

use crate::opengl::gl::GlCall;
use crate::opengl::textures::{
    create_calls, picture_size, picture_texture, Picture, Texture, TextureError,
};
use vstd::prelude::*;

verus! {

/// What the device reports when asked for its last error.
#[derive(Clone, Copy, Debug, PartialEq, Eq)]
pub enum DeviceError {
    InvalidValue,
    InvalidOperation,
    /// Any other error, with its code.
    Other(u32),
}

/// Why a framebuffer is not complete.
#[derive(Clone, Copy, Debug, PartialEq, Eq)]
pub enum Incomplete {
    Undefined,
    IncompleteAttachment,
    MissingAttachment,
    Unsupported,
    /// Any other status, with its code.
    Other(u32),
}

/// The error that an error code of the device stands for, none for the code
/// of no error.
pub open spec fn error_of(code: u32) -> Option<DeviceError> {
    if code == gl::NO_ERROR {
        None
    } else if code == gl::INVALID_VALUE {
        Some(DeviceError::InvalidValue)
    } else if code == gl::INVALID_OPERATION {
        Some(DeviceError::InvalidOperation)
    } else {
        Some(DeviceError::Other(code))
    }
}

/// What a framebuffer status says is missing, none for the status of a
/// complete framebuffer.
pub open spec fn incomplete_of(status: u32) -> Option<Incomplete> {
    if status == gl::FRAMEBUFFER_COMPLETE {
        None
    } else if status == gl::FRAMEBUFFER_UNDEFINED {
        Some(Incomplete::Undefined)
    } else if status == gl::FRAMEBUFFER_INCOMPLETE_ATTACHMENT {
        Some(Incomplete::IncompleteAttachment)
    } else if status == gl::FRAMEBUFFER_INCOMPLETE_MISSING_ATTACHMENT {
        Some(Incomplete::MissingAttachment)
    } else if status == gl::FRAMEBUFFER_UNSUPPORTED {
        Some(Incomplete::Unsupported)
    } else {
        Some(Incomplete::Other(status))
    }
}

/// Reads the answer to `GlCall::GetError`.
pub fn device_error(code: u32) -> (r: Option<DeviceError>)
    ensures
        r == error_of(code),
{
    if code == gl::NO_ERROR {
        None
    } else if code == gl::INVALID_VALUE {
        Some(DeviceError::InvalidValue)
    } else if code == gl::INVALID_OPERATION {
        Some(DeviceError::InvalidOperation)
    } else {
        Some(DeviceError::Other(code))
    }
}

/// Reads the answer to `GlCall::CheckFramebufferStatus`.
pub fn framebuffer_status(status: u32) -> (r: Option<Incomplete>)
    ensures
        r == incomplete_of(status),
{
    if status == gl::FRAMEBUFFER_COMPLETE {
        None
    } else if status == gl::FRAMEBUFFER_UNDEFINED {
        Some(Incomplete::Undefined)
    } else if status == gl::FRAMEBUFFER_INCOMPLETE_ATTACHMENT {
        Some(Incomplete::IncompleteAttachment)
    } else if status == gl::FRAMEBUFFER_INCOMPLETE_MISSING_ATTACHMENT {
        Some(Incomplete::MissingAttachment)
    } else if status == gl::FRAMEBUFFER_UNSUPPORTED {
        Some(Incomplete::Unsupported)
    } else {
        Some(Incomplete::Other(status))
    }
}

/// The calls recorded for the device and not yet handed over, oldest first.
pub struct Glwrapper {
    calls: Vec<GlCall>,
}

impl Glwrapper {
    /// The recorded calls.
    pub closed spec fn view(&self) -> Seq<GlCall> {
        self.calls@
    }

    /// The calls that set the device up: debug output and depth testing on,
    /// writing to the depth buffer allowed.
    pub open spec fn setup() -> Seq<GlCall> {
        seq![
            GlCall::Enable(gl::DEBUG_OUTPUT),
            GlCall::Enable(gl::DEPTH_TEST),
            GlCall::DepthMask(true),
        ]
    }

    /// A recorder that holds the calls which set the device up.
    pub fn new() -> (r: Glwrapper)
        ensures
            r@ == Glwrapper::setup(),
    {
        let mut calls: Vec<GlCall> = Vec::new();
        calls.push(GlCall::Enable(gl::DEBUG_OUTPUT));
        calls.push(GlCall::Enable(gl::DEPTH_TEST));
        calls.push(GlCall::DepthMask(true));
        Glwrapper { calls }
    }

    /// Records one call.
    pub fn record(&mut self, call: GlCall)
        ensures
            final(self)@ == old(self)@.push(call),
    {
        self.calls.push(call);
    }

    /// The recorded calls, oldest first.
    pub fn calls(&self) -> (r: &Vec<GlCall>)
        ensures
            r@ == self@,
    {
        &self.calls
    }

    /// Hands the recorded calls over and starts afresh.
    pub fn take(&mut self) -> (r: Vec<GlCall>)
        ensures
            r@ == old(self)@,
            final(self)@ == Seq::<GlCall>::empty(),
    {
        let mut out: Vec<GlCall> = Vec::new();
        std::mem::swap(&mut self.calls, &mut out);
        out
    }

    /// Sets the viewport to the whole window.
    pub fn resize(&mut self, width: i32, height: i32)
        ensures
            final(self)@ == old(self)@.push(GlCall::Viewport { x: 0, y: 0, width, height }),
    {
        self.record(GlCall::Viewport { x: 0, y: 0, width, height });
    }

    /// Clears the color buffer to `color`: red, green, blue and alpha.
    pub fn draw_frame(&mut self, color: [u32; 4])
        ensures
            final(self)@ == old(self)@ + seq![
                GlCall::ClearColor {
                    red: color[0],
                    green: color[1],
                    blue: color[2],
                    alpha: color[3],
                },
                GlCall::Clear(gl::COLOR_BUFFER_BIT),
            ],
    {
        self.record(
            GlCall::ClearColor { red: color[0], green: color[1], blue: color[2], alpha: color[3] },
        );
        self.record(GlCall::Clear(gl::COLOR_BUFFER_BIT));
    }

    /// Draws `count` vertices of what is bound as triangles.
    pub fn draw_triangles(&mut self, count: usize)
        requires
            count <= i32::MAX,
        ensures
            final(self)@ == old(self)@.push(
                GlCall::DrawArrays { mode: gl::TRIANGLES, first: 0, count: count as i32 },
            ),
    {
        self.record(GlCall::DrawArrays { mode: gl::TRIANGLES, first: 0, count: count as i32 });
    }

    /// Clears to the color of indexed drawing and draws `indices_to_draw`
    /// indices of what is bound as triangles.
    pub fn draw_elements(&mut self, indices_to_draw: i32)
        ensures
            final(self)@ == old(self)@ + seq![
                GlCall::ClearColor {
                    red: 0x3f4c_cccd,
                    green: 0x3dcc_cccd,
                    blue: 0x3e99_999a,
                    alpha: 0x3f80_0000,
                },
                GlCall::Clear(gl::COLOR_BUFFER_BIT),
                GlCall::DrawElements {
                    mode: gl::TRIANGLES,
                    count: indices_to_draw,
                    kind: gl::UNSIGNED_INT,
                },
            ],
    {
        self.record(
            GlCall::ClearColor {
                red: 0x3f4c_cccd,
                green: 0x3dcc_cccd,
                blue: 0x3e99_999a,
                alpha: 0x3f80_0000,
            },
        );
        self.record(GlCall::Clear(gl::COLOR_BUFFER_BIT));
        self.record(
            GlCall::DrawElements {
                mode: gl::TRIANGLES,
                count: indices_to_draw,
                kind: gl::UNSIGNED_INT,
            },
        );
    }

    /// Asks the device for its last error; `device_error` reads the answer.
    pub fn print_errors(&mut self)
        ensures
            final(self)@ == old(self)@.push(GlCall::GetError),
    {
        self.record(GlCall::GetError);
    }

    /// Binds the framebuffer of the screen.
    pub fn bind_drawing_buffer(&mut self)
        ensures
            final(self)@ == old(self)@.push(
                GlCall::BindFramebuffer { target: gl::FRAMEBUFFER, framebuffer: 0 },
            ),
    {
        self.record(GlCall::BindFramebuffer { target: gl::FRAMEBUFFER, framebuffer: 0 });
    }

    /// Clears the depth buffer.
    pub fn clear_depth_buffer(&mut self)
        ensures
            final(self)@ == old(self)@.push(GlCall::Clear(gl::DEPTH_BUFFER_BIT)),
    {
        self.record(GlCall::Clear(gl::DEPTH_BUFFER_BIT));
    }

    /// Puts a picture in the place of `texture`, as `Texture::replace` does.
    pub fn change_texture<T>(
        &mut self,
        texture: &mut Texture,
        picture: &Picture<T>,
        location: u32,
    ) -> (r: Result<(), TextureError>)
        ensures
            match r {
                Ok(()) => {
                    &&& picture_size(picture.width, picture.height, picture.pixels@.len()) == Ok::<
                        (i32, i32),
                        TextureError,
                    >((final(texture)@.width, final(texture)@.height))
                    &&& final(texture)@ == picture_texture(
                        old(texture)@.unit,
                        location,
                        picture.data_type,
                        (final(texture)@.width, final(texture)@.height),
                    )
                    &&& final(self)@ == old(self)@ + seq![
                        GlCall::DeleteTexture(old(texture)@.name),
                    ] + create_calls(final(texture)@, true)
                },
                Err(e) => {
                    &&& picture_size(picture.width, picture.height, picture.pixels@.len()) == Err::<
                        (i32, i32),
                        TextureError,
                    >(e)
                    &&& final(texture)@ == old(texture)@
                    &&& final(self)@ == old(self)@
                },
            },
    {
        texture.replace(picture, location, self)
    }

    /// Turns depth testing on or off.
    pub fn depth_test(&mut self, enable: bool)
        ensures
            final(self)@ == old(self)@.push(
                if enable {
                    GlCall::Enable(gl::DEPTH_TEST)
                } else {
                    GlCall::Disable(gl::DEPTH_TEST)
                },
            ),
    {
        if enable {
            self.record(GlCall::Enable(gl::DEPTH_TEST));
        } else {
            self.record(GlCall::Disable(gl::DEPTH_TEST));
        }
    }
}

} // verus!
