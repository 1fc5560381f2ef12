//! The frame orchestrator: what the renderer does when the window is resized,
//! the wheel is turned, a key is pressed, a file is dropped, a frame is due or
//! the window is closed.
//!
//! The orchestrator decides and records; it does not wait for events, read
//! files or talk to the device. Whoever runs the window hands it each event,
//! performs the calls that it recorded, and moves the camera by what it
//! answers.

pub mod bindings;
pub mod input;
pub mod scene;

pub use crate::frame::input::{
    classify, contains, key_shift, map_kind, scroll_shift, Dropped, Key, MapKind, ScrollUnit, Shift,
};
pub use crate::frame::scene::{
    mesh_attributes, quad_attributes, quad_stream, Scene, SceneView, QUAD_VERTICES,
};

use crate::frame::input::{dropped_of, key_of, scroll_of};
use crate::frame::scene::{
    bind_geometry, close_calls, frame_calls, geometry_binds, projection_call, resize_calls,
};
use crate::object::obj;
use crate::opengl::buffers::{upload_calls, WORD};
use crate::opengl::gl;
use crate::opengl::gl::GlCall;
use crate::opengl::textures::{
    create_calls, picture_size, picture_texture, Picture, TextureError, TextureView,
};
use crate::opengl::uniforms::UniformType;
use crate::opengl::Glwrapper;
use vstd::prelude::*;

verus! {

/// Where the orchestrator stands in the life of the window.
#[derive(Clone, Copy, Debug, PartialEq, Eq, Structural)]
pub enum Phase {
    /// The resources are there, the first frame is not yet prepared.
    Initializing,
    /// Events are handled and frames are drawn.
    Running,
    /// The resources are deleted. Nothing follows.
    Closing,
}

/// Why an event was not handled.
#[derive(Clone, Copy, Debug, PartialEq, Eq)]
pub enum FrameError {
    /// The orchestrator is not in the phase in which this can be done.
    WrongPhase,
    /// Two maps share a texture unit.
    UnitClash,
    /// A width, a height or a count is larger than the device can be told.
    TooLarge,
    /// The texture could not be replaced.
    Texture(TextureError),
}

/// The state of the orchestrator as a mathematical value.
pub struct FrameView {
    pub phase: Phase,
    pub scene: SceneView,
    /// The width and the height of the window.
    pub viewport: (i32, i32),
    /// The number of vertices of the mesh.
    pub vertices: i32,
    /// Something has changed that the last frame does not show: a frame is
    /// due.
    pub due: bool,
}

impl FrameView {
    /// The state after a resize to the given size: the viewport, the
    /// offscreen texture and the depth storage have that size, and nothing
    /// else has changed.
    pub open spec fn resized(self, width: i32, height: i32) -> FrameView {
        FrameView {
            viewport: (width, height),
            scene: SceneView {
                target_texture: TextureView { width, height, ..self.scene.target_texture },
                depth_size: (width, height),
                ..self.scene
            },
            ..self
        }
    }

    /// The width of the window by its height, as a fraction: what the camera
    /// takes as its aspect ratio.
    pub open spec fn aspect(self) -> (i32, i32) {
        self.viewport
    }
}

/// The orchestrator: the scene, the size of the window, the recorder of the
/// calls for the device, and the phase.
pub struct Orchestrator {
    phase: Phase,
    gl: Glwrapper,
    scene: Scene,
    viewport: (i32, i32),
    vertices: i32,
    due: bool,
}

impl Orchestrator {
    /// The state of the orchestrator.
    pub closed spec fn view(&self) -> FrameView {
        FrameView {
            phase: self.phase,
            scene: self.scene@,
            viewport: self.viewport,
            vertices: self.vertices,
            due: self.due,
        }
    }

    /// The calls recorded for the device and not yet handed over.
    pub closed spec fn calls(&self) -> Seq<GlCall> {
        self.gl@
    }

    /// Takes over a scene whose objects are created, for a mesh of
    /// `vertices` vertices and a window of the given size, together with the
    /// recorder that holds the calls made so far.
    ///
    /// A scene in which two maps share a unit is refused, and so is a size or
    /// a number of vertices that the device cannot be told.
    pub fn new(gl: Glwrapper, scene: Scene, vertices: usize, width: u32, height: u32) -> (r: Result<
        Orchestrator,
        FrameError,
    >)
        ensures
            match r {
                Ok(o) => {
                    &&& scene@.units_apart()
                    &&& vertices <= i32::MAX && width <= i32::MAX && height <= i32::MAX
                    &&& o@ == (FrameView {
                        phase: Phase::Initializing,
                        scene: scene@,
                        viewport: (width as i32, height as i32),
                        vertices: vertices as i32,
                        due: false,
                    })
                    &&& o.calls() == gl@
                },
                Err(e) => if !scene@.units_apart() {
                    e == FrameError::UnitClash
                } else {
                    e == FrameError::TooLarge && (vertices > i32::MAX || width > i32::MAX || height
                        > i32::MAX)
                },
            },
    {
        let d = scene.diffuse.get_id();
        let n = scene.normal.get_id();
        let s = scene.specularity.get_id();
        let e = scene.environment.get_id();
        let t = scene.target.get_unit();
        if d == n || d == s || d == e || n == s || n == e || s == e {
            return Err(FrameError::UnitClash);
        }
        if vertices > 0x7fff_ffff || width > 0x7fff_ffff || height > 0x7fff_ffff {
            return Err(FrameError::TooLarge);
        }
        Ok(
            Orchestrator {
                phase: Phase::Initializing,
                gl,
                scene,
                viewport: (width as i32, height as i32),
                vertices: vertices as i32,
                due: false,
            },
        )
    }

    /// The phase.
    pub fn phase(&self) -> (r: Phase)
        ensures
            r == self@.phase,
    {
        self.phase
    }

    /// The width and the height of the window.
    pub fn viewport(&self) -> (r: (i32, i32))
        ensures
            r == self@.viewport,
    {
        self.viewport
    }

    /// The width and the height of the offscreen target.
    pub fn target_size(&self) -> (r: (i32, i32))
        ensures
            r == (self@.scene.target_texture.width, self@.scene.target_texture.height),
    {
        self.scene.target.get_size()
    }

    /// Whether a frame is due: something has changed since the last frame
    /// was drawn.
    pub fn redraw_due(&self) -> (r: bool)
        ensures
            r == self@.due,
    {
        self.due
    }

    /// The number of vertices of the mesh.
    pub fn vertices(&self) -> (r: i32)
        ensures
            r == self@.vertices,
    {
        self.vertices
    }

    /// The scene.
    pub fn scene(&self) -> (r: &Scene)
        ensures
            r@ == self@.scene,
    {
        &self.scene
    }

    /// Hands the recorded calls over, oldest first, for the device to
    /// perform.
    pub fn take_calls(&mut self) -> (r: Vec<GlCall>)
        ensures
            r@ == old(self).calls(),
            final(self).calls() == Seq::<GlCall>::empty(),
            final(self)@ == old(self)@,
    {
        self.gl.take()
    }

    /// Prepares the first frame: binds what the geometry pass draws with and
    /// starts running. In any phase but the first nothing happens.
    pub fn start(&mut self) -> (r: Result<(), FrameError>)
        ensures
            match r {
                Ok(()) => {
                    &&& old(self)@.phase == Phase::Initializing
                    &&& final(self)@ == (FrameView { phase: Phase::Running, ..old(self)@ })
                    &&& final(self).calls() == old(self).calls() + geometry_binds(old(self)@.scene)
                },
                Err(e) => {
                    &&& e == FrameError::WrongPhase
                    &&& old(self)@.phase != Phase::Initializing
                    &&& final(self)@ == old(self)@
                    &&& final(self).calls() == old(self).calls()
                },
            },
    {
        if self.phase != Phase::Initializing {
            return Err(FrameError::WrongPhase);
        }
        bind_geometry(&self.scene, &mut self.gl);
        self.phase = Phase::Running;
        Ok(())
    }

    /// The move of the camera for a turn of the wheel, while running.
    pub fn handle_scroll(&self, unit: ScrollUnit) -> (r: Result<Shift, FrameError>)
        ensures
            r == if self@.phase == Phase::Running {
                Ok::<Shift, FrameError>(scroll_of(unit))
            } else {
                Err::<Shift, FrameError>(FrameError::WrongPhase)
            },
    {
        if self.phase != Phase::Running {
            return Err(FrameError::WrongPhase);
        }
        Ok(scroll_shift(unit))
    }

    /// The move of the camera for a key, if it has one, while running.
    pub fn handle_key(&self, key: Key) -> (r: Result<Option<Shift>, FrameError>)
        ensures
            r == if self@.phase == Phase::Running {
                Ok::<Option<Shift>, FrameError>(key_of(key))
            } else {
                Err::<Option<Shift>, FrameError>(FrameError::WrongPhase)
            },
    {
        if self.phase != Phase::Running {
            return Err(FrameError::WrongPhase);
        }
        Ok(key_shift(key))
    }

    /// What a dropped file is taken for, while running.
    pub fn handle_file_drop(&self, path: &[u8]) -> (r: Result<Dropped, FrameError>)
        ensures
            r == if self@.phase == Phase::Running {
                Ok::<Dropped, FrameError>(dropped_of(path@))
            } else {
                Err::<Dropped, FrameError>(FrameError::WrongPhase)
            },
    {
        if self.phase != Phase::Running {
            return Err(FrameError::WrongPhase);
        }
        Ok(classify(path))
    }

    /// Sets the projection of the main program to `projection`, the matrix of
    /// the camera after it moved. A frame is due afterwards. In any phase but
    /// the running one nothing happens.
    pub fn update_projection(&mut self, projection: [u32; 16]) -> (r: Result<(), FrameError>)
        ensures
            match r {
                Ok(()) => {
                    &&& old(self)@.phase == Phase::Running
                    &&& final(self)@ == (FrameView { due: true, ..old(self)@ })
                    &&& final(self).calls() == old(self).calls().push(
                        projection_call(old(self)@.scene.projection, projection),
                    )
                },
                Err(e) => {
                    &&& e == FrameError::WrongPhase
                    &&& old(self)@.phase != Phase::Running
                    &&& final(self)@ == old(self)@
                    &&& final(self).calls() == old(self).calls()
                },
            },
    {
        if self.phase != Phase::Running {
            return Err(FrameError::WrongPhase);
        }
        let done = self.scene.projection.set(UniformType::Mat4x4(projection), &mut self.gl);
        assert(done is Ok);
        self.due = true;
        Ok(())
    }

    /// Handles a resize of the window to the given size, with the matrix of
    /// the camera for the new aspect ratio, which is `width` by `height`.
    ///
    /// While running, with a size that the device can be told, the state is
    /// `resized` and the calls are `resize_calls`. Otherwise nothing happens.
    pub fn handle_resize(&mut self, width: u32, height: u32, projection: [u32; 16]) -> (r: Result<
        (),
        FrameError,
    >)
        ensures
            match r {
                Ok(()) => {
                    &&& old(self)@.phase == Phase::Running
                    &&& width <= i32::MAX && height <= i32::MAX
                    &&& final(self)@ == old(self)@.resized(width as i32, height as i32)
                    &&& final(self).calls() == old(self).calls() + resize_calls(
                        old(self)@.scene,
                        width as i32,
                        height as i32,
                        projection_call(old(self)@.scene.projection, projection),
                    )
                },
                Err(e) => {
                    &&& final(self)@ == old(self)@
                    &&& final(self).calls() == old(self).calls()
                    &&& if old(self)@.phase != Phase::Running {
                        e == FrameError::WrongPhase
                    } else {
                        e == FrameError::TooLarge && (width > i32::MAX || height > i32::MAX)
                    }
                },
            },
    {
        if self.phase != Phase::Running {
            return Err(FrameError::WrongPhase);
        }
        if width > 0x7fff_ffff || height > 0x7fff_ffff {
            return Err(FrameError::TooLarge);
        }
        let wide = width as i32;
        let high = height as i32;
        let done = self.scene.projection.set(UniformType::Mat4x4(projection), &mut self.gl);
        assert(done is Ok);
        self.viewport = (wide, high);
        self.gl.resize(wide, high);
        self.scene.target.resize_texture(wide, high, &mut self.gl);
        self.scene.diffuse.bind(&mut self.gl);
        self.scene.depth.resize(wide, high, &mut self.gl);
        Ok(())
    }

    /// Puts the picture of a dropped file in the place of the map of the
    /// given kind, under the name `location` that the device gave for the new
    /// texture. A frame is due afterwards.
    ///
    /// While running, with a picture of which a texture can be made, the old
    /// texture is deleted and the new one is created on the same unit.
    /// Otherwise nothing happens.
    pub fn update_texture<T>(&mut self, kind: MapKind, picture: &Picture<T>, location: u32) -> (r:
        Result<(), FrameError>)
        ensures
            match r {
                Ok(()) => {
                    &&& old(self)@.phase == Phase::Running
                    &&& picture_size(picture.width, picture.height, picture.pixels@.len())
                        matches Ok(size)
                    &&& final(self)@ == (FrameView {
                        scene: old(self)@.scene.with_map(
                            kind,
                            picture_texture(
                                old(self)@.scene.map(kind).unit,
                                location,
                                picture.data_type,
                                size,
                            ),
                        ),
                        due: true,
                        ..old(self)@
                    })
                    &&& final(self).calls() == old(self).calls() + seq![
                        GlCall::DeleteTexture(old(self)@.scene.map(kind).name),
                    ] + create_calls(final(self)@.scene.map(kind), true)
                },
                Err(e) => {
                    &&& final(self)@ == old(self)@
                    &&& final(self).calls() == old(self).calls()
                    &&& if old(self)@.phase != Phase::Running {
                        e == FrameError::WrongPhase
                    } else {
                        e matches FrameError::Texture(why) && picture_size(
                            picture.width,
                            picture.height,
                            picture.pixels@.len(),
                        ) == Err::<(i32, i32), TextureError>(why)
                    }
                },
            },
    {
        if self.phase != Phase::Running {
            return Err(FrameError::WrongPhase);
        }
        let done = match kind {
            MapKind::Diffuse => self.gl.change_texture(&mut self.scene.diffuse, picture, location),
            MapKind::Normal => self.gl.change_texture(&mut self.scene.normal, picture, location),
            MapKind::Specularity => self.gl.change_texture(
                &mut self.scene.specularity,
                picture,
                location,
            ),
            MapKind::Environment => self.gl.change_texture(
                &mut self.scene.environment,
                picture,
                location,
            ),
        };
        match done {
            Ok(()) => {
                self.due = true;
                Ok(())
            },
            Err(e) => Err(FrameError::Texture(e)),
        }
    }

    /// Puts the stream of a mesh that was loaded in the place of the one on
    /// the device. The buffer keeps its name. A frame is due afterwards.
    ///
    /// While running, with a stream that the device can be told, the whole
    /// buffer is filled anew and the number of vertices is that of the new
    /// mesh. Otherwise nothing happens.
    pub fn reload_mesh<T: Copy>(&mut self, model: &obj<T>) -> (r: Result<(), FrameError>)
        ensures
            match r {
                Ok(()) => {
                    &&& old(self)@.phase == Phase::Running
                    &&& model@.len() * WORD <= isize::MAX
                    &&& model.count_of() <= i32::MAX
                    &&& final(self)@ == (FrameView {
                        vertices: model.count_of() as i32,
                        due: true,
                        ..old(self)@
                    })
                    &&& final(self).calls() == old(self).calls() + upload_calls(
                        gl::ARRAY_BUFFER,
                        old(self)@.scene.mesh,
                        model@.len() * WORD,
                    )
                },
                Err(e) => {
                    &&& final(self)@ == old(self)@
                    &&& final(self).calls() == old(self).calls()
                    &&& if old(self)@.phase != Phase::Running {
                        e == FrameError::WrongPhase
                    } else {
                        e == FrameError::TooLarge && (model@.len() * WORD > isize::MAX
                            || model.count_of() > i32::MAX)
                    }
                },
            },
    {
        if self.phase != Phase::Running {
            return Err(FrameError::WrongPhase);
        }
        let scalars = model.get_vertices().len();
        let vertices = model.get_vertices_count();
        if scalars > (isize::MAX as usize) / WORD || vertices > 0x7fff_ffff {
            return Err(FrameError::TooLarge);
        }
        self.scene.mesh.update_data(scalars, &mut self.gl);
        self.vertices = vertices as i32;
        self.due = true;
        Ok(())
    }

    /// Draws one frame: the calls are `frame_calls`, and no frame is due any
    /// more. In any phase but the running one nothing happens.
    pub fn render_frame(&mut self) -> (r: Result<(), FrameError>)
        ensures
            match r {
                Ok(()) => {
                    &&& old(self)@.phase == Phase::Running
                    &&& final(self)@ == (FrameView { due: false, ..old(self)@ })
                    &&& final(self).calls() == old(self).calls() + frame_calls(
                        old(self)@.scene,
                        old(self)@.vertices,
                    )
                },
                Err(e) => {
                    &&& e == FrameError::WrongPhase
                    &&& old(self)@.phase != Phase::Running
                    &&& final(self)@ == old(self)@
                    &&& final(self).calls() == old(self).calls()
                },
            },
    {
        if self.phase != Phase::Running {
            return Err(FrameError::WrongPhase);
        }
        self.due = false;
        bind_geometry(&self.scene, &mut self.gl);
        self.gl.draw_frame([0x3d4c_cccd, 0x3d4c_cccd, 0x3d4c_cccd, 0x3f80_0000]);
        self.gl.clear_depth_buffer();
        self.gl.depth_test(true);
        self.gl.record(GlCall::DrawArrays { mode: gl::TRIANGLES, first: 0, count: self.vertices });
        self.scene.quad.bind(&mut self.gl);
        self.scene.quad_layout.bind(&mut self.gl);
        self.scene.post_program.bind(&mut self.gl);
        self.scene.target.bind_texture(&mut self.gl);
        self.gl.bind_drawing_buffer();
        self.gl.depth_test(false);
        self.gl.draw_triangles(QUAD_VERTICES);
        self.gl.record(GlCall::SwapBuffers);
        bind_geometry(&self.scene, &mut self.gl);
        Ok(())
    }

    /// Deletes every object of the scene and ends. In any phase but the
    /// running one nothing happens.
    pub fn close(&mut self) -> (r: Result<(), FrameError>)
        ensures
            match r {
                Ok(()) => {
                    &&& old(self)@.phase == Phase::Running
                    &&& final(self)@ == (FrameView { phase: Phase::Closing, ..old(self)@ })
                    &&& final(self).calls() == old(self).calls() + close_calls(old(self)@.scene)
                },
                Err(e) => {
                    &&& e == FrameError::WrongPhase
                    &&& old(self)@.phase != Phase::Running
                    &&& final(self)@ == old(self)@
                    &&& final(self).calls() == old(self).calls()
                },
            },
    {
        if self.phase != Phase::Running {
            return Err(FrameError::WrongPhase);
        }
        self.scene.mesh_layout.delete(&mut self.gl);
        self.scene.mesh.delete(&mut self.gl);
        self.scene.program.delete(&mut self.gl);
        self.scene.quad_layout.delete(&mut self.gl);
        self.scene.quad.delete(&mut self.gl);
        self.scene.post_program.delete(&mut self.gl);
        self.scene.diffuse.delete(&mut self.gl);
        self.scene.normal.delete(&mut self.gl);
        self.scene.specularity.delete(&mut self.gl);
        self.scene.environment.delete(&mut self.gl);
        self.scene.target.delete(&mut self.gl);
        self.scene.depth.delete(&mut self.gl);
        self.phase = Phase::Closing;
        Ok(())
    }
}

/// The last resize decides. After a resize and then another, the size of
/// the window, the aspect ratio that goes with it, the size of the offscreen
/// texture and the size of the depth storage are those of the second, and the
/// state is what the second alone would have left.
pub proof fn lemma_last_resize_decides(v: FrameView, first: (i32, i32), second: (i32, i32))
    ensures
        v.resized(first.0, first.1).resized(second.0, second.1) == v.resized(second.0, second.1),
        v.resized(second.0, second.1).viewport == second,
        v.resized(second.0, second.1).aspect() == second,
        v.resized(second.0, second.1).scene.target_texture.width == second.0,
        v.resized(second.0, second.1).scene.target_texture.height == second.1,
        v.resized(second.0, second.1).scene.depth_size == second,
{
}

} // verus!
