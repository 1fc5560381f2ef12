//! What the device has bound when it draws: laws that hold of the calls of a
//! frame, of a resize, of the replacement of a map and of the end of a scene,
//! whatever the device had bound before.

use crate::frame::input::MapKind;
use crate::frame::scene::{
    background, close_calls, frame_calls, geometry_binds, geometry_draw, map_binds,
    projection_call, resize_calls, screen_binds, screen_draw, SceneView,
};
use crate::opengl::buffers::{bind_framebuffer, bind_renderbuffer, depth_storage};
use crate::opengl::gl;
use crate::opengl::gl::{
    lemma_run_concat, lemma_run_five, lemma_run_four, lemma_run_push, lemma_run_three,
    lemma_run_two, Device, Draw, GlCall,
};
use crate::opengl::textures::{
    bind_calls, create_calls, lemma_create_binds, picture_texture, storage_call, TextureDataType,
    TextureView, LAST_UNIT,
};
use vstd::prelude::*;

verus! {

/// The constant that selects the unit of a texture.
pub open spec fn unit_of(t: TextureView) -> u32 {
    (gl::TEXTURE0 + t.unit) as u32
}

/// The device has bound what the geometry pass draws with: the mesh, its
/// layout, the main program, the offscreen target, and each map on its unit.
pub open spec fn ready_for_geometry(d: Device, s: SceneView) -> bool {
    &&& d.array_buffer == s.mesh
    &&& d.vertex_array == s.mesh_layout
    &&& d.program == s.program
    &&& d.framebuffer == s.target
    &&& d.texture_on(unit_of(s.diffuse)) == s.diffuse.name
    &&& d.texture_on(unit_of(s.normal)) == s.normal.name
    &&& d.texture_on(unit_of(s.specularity)) == s.specularity.name
    &&& d.texture_on(unit_of(s.environment)) == s.environment.name
}

/// A draw call saw what the geometry pass draws with, depth testing on.
pub open spec fn saw_geometry(draw: Draw, s: SceneView) -> bool {
    &&& draw.array_buffer == s.mesh
    &&& draw.vertex_array == s.mesh_layout
    &&& draw.program == s.program
    &&& draw.framebuffer == s.target
    &&& draw.depth_test
    &&& draw.textures.dom().contains(unit_of(s.diffuse))
    &&& draw.textures[unit_of(s.diffuse)] == s.diffuse.name
    &&& draw.textures.dom().contains(unit_of(s.normal))
    &&& draw.textures[unit_of(s.normal)] == s.normal.name
    &&& draw.textures.dom().contains(unit_of(s.specularity))
    &&& draw.textures[unit_of(s.specularity)] == s.specularity.name
    &&& draw.textures.dom().contains(unit_of(s.environment))
    &&& draw.textures[unit_of(s.environment)] == s.environment.name
}

/// A draw call saw what the second pass draws with: the quad, its layout,
/// its program, the screen as target, the offscreen texture on its unit, and
/// depth testing off.
pub open spec fn saw_screen(draw: Draw, s: SceneView) -> bool {
    &&& draw.array_buffer == s.quad
    &&& draw.vertex_array == s.quad_layout
    &&& draw.program == s.post_program
    &&& draw.framebuffer == 0
    &&& !draw.depth_test
    &&& draw.textures.dom().contains(unit_of(s.target_texture))
    &&& draw.textures[unit_of(s.target_texture)] == s.target_texture.name
}

/// The device after the two calls that bind a texture on its unit: that unit
/// is active and holds the texture; nothing else has changed.
pub proof fn lemma_run_bind(d: Device, unit: u32, name: u32)
    requires
        unit <= LAST_UNIT,
    ensures
        d.run(bind_calls(unit, name)) == (Device {
            active_unit: (gl::TEXTURE0 + unit) as u32,
            textures: d.textures.insert((gl::TEXTURE0 + unit) as u32, name),
            ..d
        }),
{
    lemma_run_two(
        d,
        GlCall::ActiveTexture((gl::TEXTURE0 + unit) as u32),
        GlCall::BindTexture { target: gl::TEXTURE_2D, texture: name },
    );
}

/// The device after the bindings of the geometry pass, whatever was bound
/// before: it is ready for the geometry pass, and no draw call was made.
pub proof fn lemma_geometry_binds(d: Device, s: SceneView)
    requires
        s.units_apart(),
    ensures
        ready_for_geometry(d.run(geometry_binds(s)), s),
        d.run(geometry_binds(s)).draws == d.draws,
        d.run(geometry_binds(s)).depth_test == d.depth_test,
        d.run(geometry_binds(s)).textures.dom().contains(unit_of(s.diffuse)),
        d.run(geometry_binds(s)).textures.dom().contains(unit_of(s.normal)),
        d.run(geometry_binds(s)).textures.dom().contains(unit_of(s.specularity)),
        d.run(geometry_binds(s)).textures.dom().contains(unit_of(s.environment)),
{
    let head = seq![
        GlCall::BindBuffer { target: gl::ARRAY_BUFFER, buffer: s.mesh },
        GlCall::BindVertexArray(s.mesh_layout),
        GlCall::UseProgram(s.program),
        bind_framebuffer(s.target),
    ];
    let b1 = bind_calls(s.diffuse.unit, s.diffuse.name);
    let b2 = bind_calls(s.normal.unit, s.normal.name);
    let b3 = bind_calls(s.specularity.unit, s.specularity.name);
    let b4 = bind_calls(s.environment.unit, s.environment.name);
    lemma_run_four(
        d,
        GlCall::BindBuffer { target: gl::ARRAY_BUFFER, buffer: s.mesh },
        GlCall::BindVertexArray(s.mesh_layout),
        GlCall::UseProgram(s.program),
        bind_framebuffer(s.target),
    );
    let d0 = d.run(head);
    lemma_run_bind(d0, s.diffuse.unit, s.diffuse.name);
    let d1 = d0.run(b1);
    lemma_run_bind(d1, s.normal.unit, s.normal.name);
    let d2 = d1.run(b2);
    lemma_run_bind(d2, s.specularity.unit, s.specularity.name);
    let d3 = d2.run(b3);
    lemma_run_bind(d3, s.environment.unit, s.environment.name);
    lemma_run_concat(d0, b1, b2);
    lemma_run_concat(d0, b1 + b2, b3);
    lemma_run_concat(d0, b1 + b2 + b3, b4);
    lemma_run_concat(d, head, map_binds(s));
}

/// What the two draw calls of a frame see, and how a frame leaves the device.
///
/// Whatever the device had bound before the frame: the frame makes two draw
/// calls and no more. The first draws all vertices of the mesh with the mesh,
/// its layout, the main program and the four maps bound, into the offscreen
/// target, with depth testing on. The second draws the six vertices of the
/// quad with the quad, its layout, its program and the offscreen texture
/// bound, onto the screen, with depth testing off. After the frame the device
/// is ready for the geometry pass again.
pub proof fn lemma_frame_draws(d: Device, s: SceneView, vertices: i32)
    requires
        s.units_apart(),
    ensures
        ({
            let after = d.run(frame_calls(s, vertices));
            let n = d.draws.len() as int;
            &&& after.draws.len() == n + 2
            &&& after.draws.subrange(0, n) == d.draws
            &&& saw_geometry(after.draws[n], s)
            &&& after.draws[n].count == vertices
            &&& saw_screen(after.draws[n + 1], s)
            &&& after.draws[n + 1].count == 6
            &&& ready_for_geometry(after, s)
        }),
{
    let a = geometry_binds(s);
    let b = geometry_draw(vertices);
    let c = screen_binds(s);
    let e = screen_draw();
    let f = seq![GlCall::SwapBuffers];
    lemma_run_concat(d, a + b + c + e + f, a);
    lemma_run_concat(d, a + b + c + e, f);
    lemma_run_concat(d, a + b + c, e);
    lemma_run_concat(d, a + b, c);
    lemma_run_concat(d, a, b);
    lemma_geometry_binds(d, s);
    let d1 = d.run(a);
    lemma_run_five(
        d1,
        background(),
        GlCall::Clear(gl::COLOR_BUFFER_BIT),
        GlCall::Clear(gl::DEPTH_BUFFER_BIT),
        GlCall::Enable(gl::DEPTH_TEST),
        GlCall::DrawArrays { mode: gl::TRIANGLES, first: 0, count: vertices },
    );
    let d2 = d1.run(b);
    assert(d2.draws == d.draws.push(d2.draws.last()));
    assert(saw_geometry(d2.draws.last(), s));
    let head = seq![
        GlCall::BindBuffer { target: gl::ARRAY_BUFFER, buffer: s.quad },
        GlCall::BindVertexArray(s.quad_layout),
        GlCall::UseProgram(s.post_program),
    ];
    lemma_run_three(
        d2,
        GlCall::BindBuffer { target: gl::ARRAY_BUFFER, buffer: s.quad },
        GlCall::BindVertexArray(s.quad_layout),
        GlCall::UseProgram(s.post_program),
    );
    let d3 = d2.run(head);
    let tb = bind_calls(s.target_texture.unit, s.target_texture.name);
    lemma_run_bind(d3, s.target_texture.unit, s.target_texture.name);
    lemma_run_push(d3, tb, bind_framebuffer(0));
    lemma_run_concat(d2, head, tb.push(bind_framebuffer(0)));
    let d4 = d2.run(c);
    lemma_run_two(
        d4,
        GlCall::Disable(gl::DEPTH_TEST),
        GlCall::DrawArrays { mode: gl::TRIANGLES, first: 0, count: 6 },
    );
    let d5 = d4.run(e);
    assert(d5.draws == d2.draws.push(d5.draws.last()));
    assert(saw_screen(d5.draws.last(), s));
    lemma_run_push(d5, Seq::empty(), GlCall::SwapBuffers);
    assert(Seq::<GlCall>::empty().push(GlCall::SwapBuffers) =~= f);
    let d6 = d5.run(f);
    assert(d6 == d5);
    lemma_geometry_binds(d6, s);
    let after = d6.run(a);
    assert(after == d.run(frame_calls(s, vertices)));
    assert(after.draws == d5.draws);
    assert(after.draws.subrange(0, d.draws.len() as int) =~= d.draws);
}

/// The maps stay on units of their own: neither a resize nor the
/// replacement of a map by a texture on the same unit brings two maps onto
/// one unit.
pub proof fn lemma_units_stay_apart(
    s: SceneView,
    kind: MapKind,
    name: u32,
    data_type: TextureDataType,
    size: (i32, i32),
    width: i32,
    height: i32,
)
    requires
        s.units_apart(),
    ensures
        s.with_map(kind, picture_texture(s.map(kind).unit, name, data_type, size)).units_apart(),
        (SceneView {
            target_texture: TextureView { width, height, ..s.target_texture },
            depth_size: (width, height),
            ..s
        }).units_apart(),
{
}

/// What a resize leaves bound.
///
/// Whatever the device had bound before: after the calls of a resize the
/// viewport has the new size, the diffuse map is back on its unit even where
/// the offscreen texture took that unit for a while, the depth storage is
/// bound, and the buffer, the layout, the program and the framebuffer that
/// were bound still are. No draw call was made.
pub proof fn lemma_resize_rebinds(
    d: Device,
    s: SceneView,
    width: i32,
    height: i32,
    at: i32,
    projection: [u32; 16],
)
    requires
        s.units_apart(),
    ensures
        ({
            let after = d.run(resize_calls(s, width, height, projection_call(at, projection)));
            &&& after.viewport == (width, height)
            &&& after.texture_on(unit_of(s.diffuse)) == s.diffuse.name
            &&& after.renderbuffer == s.depth
            &&& after.array_buffer == d.array_buffer
            &&& after.vertex_array == d.vertex_array
            &&& after.program == d.program
            &&& after.framebuffer == d.framebuffer
            &&& after.draws == d.draws
        }),
{
    let first = projection_call(at, projection);
    let second = GlCall::Viewport { x: 0, y: 0, width, height };
    let a = seq![first, second];
    let t = bind_calls(s.target_texture.unit, s.target_texture.name);
    let store = storage_call(TextureView { width, height, ..s.target_texture }, false);
    let b = bind_calls(s.diffuse.unit, s.diffuse.name);
    let c = seq![bind_renderbuffer(s.depth), depth_storage(width, height)];
    assert(resize_calls(s, width, height, first) == a + t.push(store) + b + c);
    lemma_run_two(d, first, second);
    let d1 = d.run(a);
    assert(d1 == Device { viewport: (width, height), ..d });
    lemma_run_bind(d1, s.target_texture.unit, s.target_texture.name);
    lemma_run_push(d1, t, store);
    let d2 = d1.run(t.push(store));
    assert(d2 == d1.run(t));
    lemma_run_bind(d2, s.diffuse.unit, s.diffuse.name);
    let d3 = d2.run(b);
    assert(d3.texture_on(unit_of(s.diffuse)) == s.diffuse.name);
    lemma_run_two(d3, bind_renderbuffer(s.depth), depth_storage(width, height));
    let d4 = d3.run(c);
    assert(d4 == Device { renderbuffer: s.depth, ..d3 });
    lemma_run_concat(d, a, t.push(store));
    lemma_run_concat(d, a + t.push(store), b);
    lemma_run_concat(d, a + t.push(store) + b, c);
    assert(d4 == d.run(a + t.push(store) + b + c));
}

/// What the replacement of a texture leaves bound.
///
/// Whatever the device had bound before: after the old texture is deleted and
/// the new one is created, the new one is bound on its unit, and the name of
/// the old one is bound on no unit, unless the device gave that name again.
pub proof fn lemma_replaced_texture_is_bound(d: Device, old_name: u32, made: TextureView)
    requires
        made.unit <= LAST_UNIT,
    ensures
        ({
            let after = d.run(seq![GlCall::DeleteTexture(old_name)] + create_calls(made, true));
            &&& after.texture_on(unit_of(made)) == made.name
            &&& forall|unit: u32|
                old_name != 0 && old_name != made.name ==> #[trigger] after.texture_on(unit)
                    != old_name
            &&& after.draws == d.draws
        }),
{
    let gone = seq![GlCall::DeleteTexture(old_name)];
    lemma_run_concat(d, gone, create_calls(made, true));
    lemma_run_push(d, Seq::empty(), GlCall::DeleteTexture(old_name));
    assert(Seq::<GlCall>::empty().push(GlCall::DeleteTexture(old_name)) =~= gone);
    lemma_create_binds(d.run(gone), made, true);
}

/// What closing leaves bound: nothing of the scene.
///
/// Whatever the device had bound before: after the calls that delete the
/// scene, neither buffer, neither layout, the offscreen target and the depth
/// storage are bound no more, and no texture of the scene is bound on any
/// unit. (The name zero stands for no object.)
pub proof fn lemma_close_unbinds(d: Device, s: SceneView)
    ensures
        ({
            let after = d.run(close_calls(s));
            &&& after.array_buffer == s.mesh || after.array_buffer == s.quad
                ==> after.array_buffer == 0
            &&& after.vertex_array == s.mesh_layout || after.vertex_array == s.quad_layout
                ==> after.vertex_array == 0
            &&& after.framebuffer == s.target ==> after.framebuffer == 0
            &&& after.renderbuffer == s.depth ==> after.renderbuffer == 0
            &&& forall|unit: u32|
                {
                    let bound = #[trigger] after.texture_on(unit);
                    bound == s.diffuse.name || bound == s.normal.name || bound
                        == s.specularity.name || bound == s.environment.name || bound
                        == s.target_texture.name ==> bound == 0
                }
            &&& after.draws == d.draws
        }),
{
    let a = seq![
        GlCall::DeleteVertexArray(s.mesh_layout),
        GlCall::DeleteBuffer(s.mesh),
        GlCall::DeleteProgram(s.program),
        GlCall::DeleteVertexArray(s.quad_layout),
        GlCall::DeleteBuffer(s.quad),
    ];
    let b = seq![
        GlCall::DeleteProgram(s.post_program),
        GlCall::DeleteTexture(s.diffuse.name),
        GlCall::DeleteTexture(s.normal.name),
        GlCall::DeleteTexture(s.specularity.name),
        GlCall::DeleteTexture(s.environment.name),
    ];
    let c = seq![
        GlCall::DeleteFramebuffer(s.target),
        GlCall::DeleteTexture(s.target_texture.name),
        GlCall::DeleteRenderbuffer(s.depth),
    ];
    assert(close_calls(s) =~= a + b + c);
    lemma_run_concat(d, a + b, c);
    lemma_run_concat(d, a, b);
    lemma_run_five(d, a[0], a[1], a[2], a[3], a[4]);
    assert(a =~= seq![a[0], a[1], a[2], a[3], a[4]]);
    let d1 = d.run(a);
    lemma_run_five(d1, b[0], b[1], b[2], b[3], b[4]);
    assert(b =~= seq![b[0], b[1], b[2], b[3], b[4]]);
    let d2 = d1.run(b);
    lemma_run_three(d2, c[0], c[1], c[2]);
    assert(c =~= seq![c[0], c[1], c[2]]);
}

} // verus!
