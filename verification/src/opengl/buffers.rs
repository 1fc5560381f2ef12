//! Vertex and index buffers, vertex layouts and render targets.

use crate::opengl::gl;
use crate::opengl::gl::{
    lemma_run_concat, lemma_run_push, lemma_run_three, lemma_run_two, Device, GlCall,
};
use crate::opengl::textures::{
    attach_calls, bind_calls, create_calls, storage_call, Texture, TextureColorFormat,
    TextureDataType, TextureView, LAST_UNIT,
};
use crate::opengl::Glwrapper;
use vstd::prelude::*;

verus! {

/// The number of bytes of one scalar of a vertex stream and of one index.
pub const WORD: usize = 4;

/// The calls that bind the buffer `id` to `target` and fill it with `bytes`
/// bytes of data that is not going to change.
pub open spec fn upload_calls(target: u32, id: u32, bytes: int) -> Seq<GlCall> {
    seq![
        GlCall::BindBuffer { target, buffer: id },
        GlCall::BufferData { target, size: bytes as isize, usage: gl::STATIC_DRAW },
    ]
}

/// A buffer of vertex data on the device.
pub struct VertexBuffer {
    id: u32,
}

impl VertexBuffer {
    /// The name that the device gave to the buffer.
    pub closed spec fn name(&self) -> u32 {
        self.id
    }

    /// Creates the buffer under the name `id` that the device gave and fills
    /// it with `scalars` scalars of four bytes each. The buffer stays bound.
    pub fn new(scalars: usize, id: u32, gl: &mut Glwrapper) -> (r: VertexBuffer)
        requires
            scalars * WORD <= isize::MAX,
        ensures
            r.name() == id,
            final(gl)@ == old(gl)@ + upload_calls(gl::ARRAY_BUFFER, id, scalars * WORD),
    {
        gl.record(GlCall::BindBuffer { target: gl::ARRAY_BUFFER, buffer: id });
        gl.record(
            GlCall::BufferData {
                target: gl::ARRAY_BUFFER,
                size: (scalars * WORD) as isize,
                usage: gl::STATIC_DRAW,
            },
        );
        VertexBuffer { id }
    }

    /// Replaces the whole contents of the buffer by `scalars` scalars. The
    /// buffer keeps its name and stays bound.
    pub fn update_data(&self, scalars: usize, gl: &mut Glwrapper)
        requires
            scalars * WORD <= isize::MAX,
        ensures
            final(gl)@ == old(gl)@ + upload_calls(gl::ARRAY_BUFFER, self.name(), scalars * WORD),
    {
        gl.record(GlCall::BindBuffer { target: gl::ARRAY_BUFFER, buffer: self.id });
        gl.record(
            GlCall::BufferData {
                target: gl::ARRAY_BUFFER,
                size: (scalars * WORD) as isize,
                usage: gl::STATIC_DRAW,
            },
        );
    }

    /// The name that the device gave to the buffer.
    pub fn get_id(&self) -> (r: u32)
        ensures
            r == self.name(),
    {
        self.id
    }

    /// Binds the buffer as the source of vertex data.
    pub fn bind(&self, gl: &mut Glwrapper)
        ensures
            final(gl)@ == old(gl)@.push(
                GlCall::BindBuffer { target: gl::ARRAY_BUFFER, buffer: self.name() },
            ),
    {
        gl.record(GlCall::BindBuffer { target: gl::ARRAY_BUFFER, buffer: self.id });
    }

    /// Deletes the buffer on the device.
    pub fn delete(&self, gl: &mut Glwrapper)
        ensures
            final(gl)@ == old(gl)@.push(GlCall::DeleteBuffer(self.name())),
    {
        gl.record(GlCall::DeleteBuffer(self.id));
    }
}

/// The type of a vertex attribute.
#[derive(Clone, Copy, Debug, PartialEq, Eq)]
pub enum AttributeType {
    Float,
    Float2,
    Float3,
    Float4,
    Mat3,
    Mat4,
    Int,
    Int2,
    Int3,
    Int4,
    Bool,
}

impl AttributeType {
    /// The number of components of the attribute.
    pub open spec fn components(self) -> int {
        match self {
            AttributeType::Float => 1,
            AttributeType::Float2 => 2,
            AttributeType::Float3 => 3,
            AttributeType::Float4 => 4,
            AttributeType::Mat3 => 9,
            AttributeType::Mat4 => 16,
            AttributeType::Int => 1,
            AttributeType::Int2 => 2,
            AttributeType::Int3 => 3,
            AttributeType::Int4 => 4,
            AttributeType::Bool => 1,
        }
    }

    /// The number of bytes of one component: one for a truth value, four for
    /// every other kind.
    pub open spec fn component_bytes(self) -> int {
        match self {
            AttributeType::Bool => 1,
            _ => 4,
        }
    }

    /// The number of bytes of the attribute: its components times the bytes
    /// of one of them.
    pub open spec fn width(self) -> int {
        self.components() * self.component_bytes()
    }

    /// The constant by which the device knows the kind of the components.
    pub open spec fn kind(self) -> u32 {
        match self {
            AttributeType::Float | AttributeType::Float2 | AttributeType::Float3
            | AttributeType::Float4 | AttributeType::Mat3 | AttributeType::Mat4 => gl::FLOAT,
            AttributeType::Int | AttributeType::Int2 | AttributeType::Int3
            | AttributeType::Int4 => gl::INT,
            AttributeType::Bool => gl::BOOL,
        }
    }

    /// The number of bytes of the attribute.
    pub fn bytes(&self) -> (r: usize)
        ensures
            r == self.width(),
            1 <= r <= 64,
    {
        match self {
            AttributeType::Float => 4,
            AttributeType::Float2 => 8,
            AttributeType::Float3 => 12,
            AttributeType::Float4 => 16,
            AttributeType::Mat3 => 36,
            AttributeType::Mat4 => 64,
            AttributeType::Int => 4,
            AttributeType::Int2 => 8,
            AttributeType::Int3 => 12,
            AttributeType::Int4 => 16,
            AttributeType::Bool => 1,
        }
    }

    /// The number of components of the attribute.
    pub fn size(&self) -> (r: i32)
        ensures
            r == self.components(),
    {
        match self {
            AttributeType::Float => 1,
            AttributeType::Float2 => 2,
            AttributeType::Float3 => 3,
            AttributeType::Float4 => 4,
            AttributeType::Mat3 => 9,
            AttributeType::Mat4 => 16,
            AttributeType::Int => 1,
            AttributeType::Int2 => 2,
            AttributeType::Int3 => 3,
            AttributeType::Int4 => 4,
            AttributeType::Bool => 1,
        }
    }

    /// The constant by which the device knows the kind of the components.
    pub fn gl_type(&self) -> (r: u32)
        ensures
            r == self.kind(),
    {
        match self {
            AttributeType::Float => gl::FLOAT,
            AttributeType::Float2 => gl::FLOAT,
            AttributeType::Float3 => gl::FLOAT,
            AttributeType::Float4 => gl::FLOAT,
            AttributeType::Mat3 => gl::FLOAT,
            AttributeType::Mat4 => gl::FLOAT,
            AttributeType::Int => gl::INT,
            AttributeType::Int2 => gl::INT,
            AttributeType::Int3 => gl::INT,
            AttributeType::Int4 => gl::INT,
            AttributeType::Bool => gl::BOOL,
        }
    }
}

/// The types of a list of named attributes, in its order.
pub open spec fn kinds_of(attributes: Seq<(String, AttributeType)>) -> Seq<AttributeType> {
    Seq::new(attributes.len(), |i: int| attributes[i].1)
}

/// The offset in bytes of attribute `index` in a vertex: the bytes of all
/// attributes before it. For the number of attributes this is the stride.
pub open spec fn offset_of(kinds: Seq<AttributeType>, index: int) -> int
    decreases index,
{
    if index <= 0 {
        0
    } else {
        offset_of(kinds, index - 1) + kinds[index - 1].width()
    }
}

/// The number of bytes from one vertex to the next.
pub open spec fn stride_of(kinds: Seq<AttributeType>) -> int {
    offset_of(kinds, kinds.len() as int)
}

/// The two calls that describe attribute `index` to the device and switch it
/// on: slot `index`, its components and their kind, not normalized, the
/// stride of the whole vertex and the offset of the attribute in it.
pub open spec fn attribute_calls(kinds: Seq<AttributeType>, index: int) -> Seq<GlCall> {
    seq![
        GlCall::VertexAttribPointer {
            index: index as u32,
            components: kinds[index].components() as i32,
            kind: kinds[index].kind(),
            normalized: false,
            stride: stride_of(kinds) as i32,
            offset: offset_of(kinds, index) as usize,
        },
        GlCall::EnableVertexAttribArray(index as u32),
    ]
}

/// The calls for the first `count` attributes, slot after slot.
pub open spec fn attributes_calls(kinds: Seq<AttributeType>, count: int) -> Seq<GlCall>
    decreases count,
{
    if count <= 0 {
        Seq::empty()
    } else {
        attributes_calls(kinds, count - 1) + attribute_calls(kinds, count - 1)
    }
}

/// The calls that create the layout `id`: bind it, then describe every
/// attribute.
pub open spec fn layout_calls(id: u32, kinds: Seq<AttributeType>) -> Seq<GlCall> {
    seq![GlCall::BindVertexArray(id)] + attributes_calls(kinds, kinds.len() as int)
}

/// Offsets grow with the index.
pub proof fn lemma_offsets_grow(kinds: Seq<AttributeType>, low: int, high: int)
    requires
        0 <= low <= high,
    ensures
        0 <= offset_of(kinds, low) <= offset_of(kinds, high),
    decreases high,
{
    if low < high {
        lemma_offsets_grow(kinds, low, high - 1);
    } else if high > 0 {
        lemma_offsets_grow(kinds, low - 1, high - 1);
    }
}

/// A list of named attributes and the vertex layout made of it on the device.
pub struct VertexBufferLayout {
    id: u32,
    attributes: Vec<(String, AttributeType)>,
}

impl VertexBufferLayout {
    /// The name that the device gave to the layout.
    pub closed spec fn name(&self) -> u32 {
        self.id
    }

    /// The attributes of the layout.
    pub closed spec fn view(&self) -> Seq<(String, AttributeType)> {
        self.attributes@
    }

    #[verifier::type_invariant]
    spec fn inv(&self) -> bool {
        stride_of(kinds_of(self.attributes@)) <= i32::MAX
    }

    /// Creates the layout under the name `id` that the device gave. The
    /// attributes take the slots from zero on in the order of the list, each
    /// at the offset that the attributes before it leave. The layout stays
    /// bound.
    pub fn new(attributes: Vec<(String, AttributeType)>, id: u32, gl: &mut Glwrapper) -> (r:
        VertexBufferLayout)
        requires
            attributes@.len() <= u32::MAX,
            stride_of(kinds_of(attributes@)) <= i32::MAX,
        ensures
            r.name() == id,
            r@ == attributes@,
            final(gl)@ == old(gl)@ + layout_calls(id, kinds_of(attributes@)),
    {
        let ghost kinds = kinds_of(attributes@);
        let mut total_size: usize = 0;
        let mut i: usize = 0;
        while i < attributes.len()
            invariant
                0 <= i <= attributes@.len(),
                kinds == kinds_of(attributes@),
                total_size == offset_of(kinds, i as int),
                stride_of(kinds) <= i32::MAX,
            decreases attributes@.len() - i,
        {
            proof {
                lemma_offsets_grow(kinds, i + 1, kinds.len() as int);
            }
            total_size += attributes[i].1.bytes();
            i += 1;
        }
        gl.record(GlCall::BindVertexArray(id));
        let mut offset: usize = 0;
        let mut i: usize = 0;
        while i < attributes.len()
            invariant
                0 <= i <= attributes@.len() <= u32::MAX,
                kinds == kinds_of(attributes@),
                total_size == stride_of(kinds) <= i32::MAX,
                offset == offset_of(kinds, i as int),
                gl@ == old(gl)@ + (seq![GlCall::BindVertexArray(id)] + attributes_calls(
                    kinds,
                    i as int,
                )),
            decreases attributes@.len() - i,
        {
            proof {
                lemma_offsets_grow(kinds, i + 1, kinds.len() as int);
            }
            let kind = attributes[i].1;
            gl.record(
                GlCall::VertexAttribPointer {
                    index: i as u32,
                    components: kind.size(),
                    kind: kind.gl_type(),
                    normalized: false,
                    stride: total_size as i32,
                    offset,
                },
            );
            gl.record(GlCall::EnableVertexAttribArray(i as u32));
            offset += kind.bytes();
            i += 1;
        }
        VertexBufferLayout { id, attributes }
    }

    /// The name that the device gave to the layout.
    pub fn get_id(&self) -> (r: u32)
        ensures
            r == self.name(),
    {
        self.id
    }

    /// The number of bytes from one vertex to the next.
    pub fn stride(&self) -> (r: usize)
        ensures
            r == stride_of(kinds_of(self@)),
            r <= i32::MAX,
    {
        proof {
            use_type_invariant(self);
        }
        let ghost kinds = kinds_of(self.attributes@);
        let mut total_size: usize = 0;
        let mut i: usize = 0;
        while i < self.attributes.len()
            invariant
                0 <= i <= self.attributes@.len(),
                kinds == kinds_of(self.attributes@),
                total_size == offset_of(kinds, i as int),
                stride_of(kinds) <= usize::MAX,
            decreases self.attributes@.len() - i,
        {
            proof {
                lemma_offsets_grow(kinds, i + 1, kinds.len() as int);
            }
            total_size += self.attributes[i].1.bytes();
            i += 1;
        }
        total_size
    }

    /// Binds the layout.
    pub fn bind(&self, gl: &mut Glwrapper)
        ensures
            final(gl)@ == old(gl)@.push(GlCall::BindVertexArray(self.name())),
    {
        gl.record(GlCall::BindVertexArray(self.id));
    }

    /// Deletes the layout on the device.
    pub fn delete(&self, gl: &mut Glwrapper)
        ensures
            final(gl)@ == old(gl)@.push(GlCall::DeleteVertexArray(self.name())),
    {
        gl.record(GlCall::DeleteVertexArray(self.id));
    }
}

/// A buffer of indices on the device.
pub struct IndexBuffer {
    id: u32,
    indices_count: usize,
}

impl IndexBuffer {
    /// The name that the device gave to the buffer.
    pub closed spec fn name(&self) -> u32 {
        self.id
    }

    /// The number of indices in the buffer.
    pub closed spec fn count(&self) -> nat {
        self.indices_count as nat
    }

    /// Creates the buffer under the name `id` that the device gave and fills
    /// it with `indices`, four bytes each. The buffer stays bound.
    pub fn new(indices: Vec<u32>, id: u32, gl: &mut Glwrapper) -> (r: IndexBuffer)
        requires
            indices@.len() * WORD <= isize::MAX,
        ensures
            r.name() == id,
            r.count() == indices@.len(),
            final(gl)@ == old(gl)@ + upload_calls(
                gl::ELEMENT_ARRAY_BUFFER,
                id,
                indices@.len() * WORD,
            ),
    {
        gl.record(GlCall::BindBuffer { target: gl::ELEMENT_ARRAY_BUFFER, buffer: id });
        let bytes = indices.len() * WORD;
        gl.record(
            GlCall::BufferData {
                target: gl::ELEMENT_ARRAY_BUFFER,
                size: bytes as isize,
                usage: gl::STATIC_DRAW,
            },
        );
        IndexBuffer { id, indices_count: indices.len() }
    }

    /// The name that the device gave to the buffer.
    pub fn get_id(&self) -> (r: u32)
        ensures
            r == self.name(),
    {
        self.id
    }

    /// Binds the buffer as the source of indices.
    pub fn bind(&self, gl: &mut Glwrapper)
        ensures
            final(gl)@ == old(gl)@.push(
                GlCall::BindBuffer { target: gl::ELEMENT_ARRAY_BUFFER, buffer: self.name() },
            ),
    {
        gl.record(GlCall::BindBuffer { target: gl::ELEMENT_ARRAY_BUFFER, buffer: self.id });
    }

    /// Deletes the buffer on the device.
    pub fn delete(&self, gl: &mut Glwrapper)
        ensures
            final(gl)@ == old(gl)@.push(GlCall::DeleteBuffer(self.name())),
    {
        gl.record(GlCall::DeleteBuffer(self.id));
    }

    /// The number of indices in the buffer.
    pub fn get_indices_count(&self) -> (r: usize)
        ensures
            r == self.count(),
    {
        self.indices_count
    }
}

/// The binding of a framebuffer.
pub open spec fn bind_framebuffer(id: u32) -> GlCall {
    GlCall::BindFramebuffer { target: gl::FRAMEBUFFER, framebuffer: id }
}

/// The texture into which a framebuffer draws: three channels, empty.
pub open spec fn target_texture(
    unit: u32,
    name: u32,
    width: i32,
    height: i32,
    data_type: TextureDataType,
) -> TextureView {
    TextureView {
        unit,
        name,
        data_type,
        color_format: TextureColorFormat::RGB,
        width,
        height,
    }
}

/// The calls that create a framebuffer with its color texture: bind the
/// framebuffer, create the texture, attach it, ask whether the framebuffer is
/// complete, and bind the framebuffer of the screen again.
pub open spec fn framebuffer_calls(id: u32, texture: TextureView) -> Seq<GlCall> {
    seq![bind_framebuffer(id)] + create_calls(texture, false) + attach_calls(
        texture.unit,
        texture.name,
    ) + seq![GlCall::CheckFramebufferStatus(gl::FRAMEBUFFER), bind_framebuffer(0)]
}

/// An offscreen render target: a framebuffer with the texture that holds its
/// colors.
pub struct FrameBuffer {
    id: u32,
    texture: Texture,
}

impl FrameBuffer {
    /// The name that the device gave to the framebuffer.
    pub closed spec fn name(&self) -> u32 {
        self.id
    }

    /// The color texture of the framebuffer.
    pub closed spec fn texture(&self) -> TextureView {
        self.texture@
    }

    /// Creates a framebuffer under the name `id`, with a color texture of the
    /// given size under the name `texture_location` on unit
    /// `texture_counter`; both names are those that the device gave. The
    /// answer to the status call is read by `framebuffer_status`; whatever it
    /// says, the framebuffer is there. The framebuffer of the screen is
    /// bound afterwards.
    pub fn new(
        texture_counter: u32,
        vw: i32,
        vh: i32,
        data_type: TextureDataType,
        id: u32,
        texture_location: u32,
        gl: &mut Glwrapper,
    ) -> (r: FrameBuffer)
        requires
            texture_counter <= LAST_UNIT,
        ensures
            r.name() == id,
            r.texture() == target_texture(texture_counter, texture_location, vw, vh, data_type),
            final(gl)@ == old(gl)@ + framebuffer_calls(id, r.texture()),
    {
        gl.record(GlCall::BindFramebuffer { target: gl::FRAMEBUFFER, framebuffer: id });
        let texture = Texture::new(
            texture_counter,
            vw,
            vh,
            false,
            TextureColorFormat::RGB,
            data_type,
            texture_location,
            gl,
        );
        texture.attach_to_frame_buffer(gl);
        gl.record(GlCall::CheckFramebufferStatus(gl::FRAMEBUFFER));
        gl.record(GlCall::BindFramebuffer { target: gl::FRAMEBUFFER, framebuffer: 0 });
        FrameBuffer { id, texture }
    }

    /// The name that the device gave to the framebuffer.
    pub fn get_id(&self) -> (r: u32)
        ensures
            r == self.name(),
    {
        self.id
    }

    /// The width and the height of the color texture.
    pub fn get_size(&self) -> (r: (i32, i32))
        ensures
            r == (self.texture().width, self.texture().height),
    {
        self.texture.get_size()
    }

    /// The number of the unit of the color texture.
    pub fn get_unit(&self) -> (r: u32)
        ensures
            r == self.texture().unit,
            r <= LAST_UNIT,
    {
        self.texture.get_id()
    }

    /// Binds the framebuffer as the target of drawing.
    pub fn bind(&self, gl: &mut Glwrapper)
        ensures
            final(gl)@ == old(gl)@.push(bind_framebuffer(self.name())),
    {
        gl.record(GlCall::BindFramebuffer { target: gl::FRAMEBUFFER, framebuffer: self.id });
    }

    /// Binds the color texture on its unit.
    pub fn bind_texture(&self, gl: &mut Glwrapper)
        ensures
            final(gl)@ == old(gl)@ + bind_calls(self.texture().unit, self.texture().name),
    {
        self.texture.bind(gl);
    }

    /// Deletes the framebuffer on the device, and then its color texture.
    pub fn delete(&self, gl: &mut Glwrapper)
        ensures
            final(gl)@ == old(gl)@ + seq![
                GlCall::DeleteFramebuffer(self.name()),
                GlCall::DeleteTexture(self.texture().name),
            ],
    {
        gl.record(GlCall::DeleteFramebuffer(self.id));
        self.texture.delete(gl);
    }

    /// Gives the color texture new storage of the given size. The framebuffer
    /// and the texture keep their names; the size held is the new one.
    pub fn resize_texture(&mut self, width: i32, height: i32, gl: &mut Glwrapper)
        ensures
            final(self).name() == old(self).name(),
            final(self).texture() == (TextureView { width, height, ..old(self).texture() }),
            final(gl)@ == old(gl)@ + bind_calls(
                old(self).texture().unit,
                old(self).texture().name,
            ).push(storage_call(final(self).texture(), false)),
    {
        self.texture.resize(width, height, gl);
    }
}

/// The call that gives the bound renderbuffer storage for depth and stencil.
pub open spec fn depth_storage(width: i32, height: i32) -> GlCall {
    GlCall::RenderbufferStorage {
        target: gl::RENDERBUFFER,
        storage: gl::DEPTH24_STENCIL8,
        width,
        height,
    }
}

/// The binding of a renderbuffer.
pub open spec fn bind_renderbuffer(id: u32) -> GlCall {
    GlCall::BindRenderbuffer { target: gl::RENDERBUFFER, renderbuffer: id }
}

/// The calls that create a renderbuffer for depth and stencil and attach it
/// to the bound framebuffer: bind it, give it storage, unbind it, attach it,
/// ask whether the framebuffer is complete, and bind the framebuffer of the
/// screen.
pub open spec fn renderbuffer_calls(id: u32, width: i32, height: i32) -> Seq<GlCall> {
    seq![
        bind_renderbuffer(id),
        depth_storage(width, height),
        bind_renderbuffer(0),
        GlCall::FramebufferRenderbuffer {
            target: gl::FRAMEBUFFER,
            attachment: gl::DEPTH_STENCIL_ATTACHMENT,
            renderbuffertarget: gl::RENDERBUFFER,
            renderbuffer: id,
        },
        GlCall::CheckFramebufferStatus(gl::FRAMEBUFFER),
        bind_framebuffer(0),
    ]
}

/// Storage for depth and stencil on the device.
pub struct RenderBuffer {
    id: u32,
    width: i32,
    height: i32,
}

impl RenderBuffer {
    /// The name that the device gave to the renderbuffer.
    pub closed spec fn name(&self) -> u32 {
        self.id
    }

    /// The width and the height of the storage last asked for.
    pub closed spec fn size(&self) -> (i32, i32) {
        (self.width, self.height)
    }

    /// Creates a renderbuffer under the name `id` that the device gave, with
    /// storage of the given size, and attaches it to the framebuffer that is
    /// bound. The answer to the status call is read by `framebuffer_status`.
    /// The framebuffer of the screen is bound afterwards.
    pub fn new(width: i32, height: i32, id: u32, gl: &mut Glwrapper) -> (r: RenderBuffer)
        ensures
            r.name() == id,
            r.size() == (width, height),
            final(gl)@ == old(gl)@ + renderbuffer_calls(id, width, height),
    {
        gl.record(GlCall::BindRenderbuffer { target: gl::RENDERBUFFER, renderbuffer: id });
        gl.record(
            GlCall::RenderbufferStorage {
                target: gl::RENDERBUFFER,
                storage: gl::DEPTH24_STENCIL8,
                width,
                height,
            },
        );
        gl.record(GlCall::BindRenderbuffer { target: gl::RENDERBUFFER, renderbuffer: 0 });
        gl.record(
            GlCall::FramebufferRenderbuffer {
                target: gl::FRAMEBUFFER,
                attachment: gl::DEPTH_STENCIL_ATTACHMENT,
                renderbuffertarget: gl::RENDERBUFFER,
                renderbuffer: id,
            },
        );
        gl.record(GlCall::CheckFramebufferStatus(gl::FRAMEBUFFER));
        gl.record(GlCall::BindFramebuffer { target: gl::FRAMEBUFFER, framebuffer: 0 });
        RenderBuffer { id, width, height }
    }

    /// Binds the renderbuffer.
    pub fn bind(&self, gl: &mut Glwrapper)
        ensures
            final(gl)@ == old(gl)@.push(bind_renderbuffer(self.name())),
    {
        gl.record(GlCall::BindRenderbuffer { target: gl::RENDERBUFFER, renderbuffer: self.id });
    }

    /// The name that the device gave to the renderbuffer.
    pub fn get_id(&self) -> (r: u32)
        ensures
            r == self.name(),
    {
        self.id
    }

    /// The width and the height of the storage last asked for.
    pub fn get_size(&self) -> (r: (i32, i32))
        ensures
            r == self.size(),
    {
        (self.width, self.height)
    }

    /// Deletes the renderbuffer on the device.
    pub fn delete(&self, gl: &mut Glwrapper)
        ensures
            final(gl)@ == old(gl)@.push(GlCall::DeleteRenderbuffer(self.name())),
    {
        gl.record(GlCall::DeleteRenderbuffer(self.id));
    }

    /// Gives the renderbuffer new storage of the given size. It keeps its
    /// name and stays bound.
    pub fn resize(&mut self, width: i32, height: i32, gl: &mut Glwrapper)
        ensures
            final(self).name() == old(self).name(),
            final(self).size() == (width, height),
            final(gl)@ == old(gl)@ + seq![
                bind_renderbuffer(old(self).name()),
                depth_storage(width, height),
            ],
    {
        self.width = width;
        self.height = height;
        gl.record(GlCall::BindRenderbuffer { target: gl::RENDERBUFFER, renderbuffer: self.id });
        gl.record(
            GlCall::RenderbufferStorage {
                target: gl::RENDERBUFFER,
                storage: gl::DEPTH24_STENCIL8,
                width,
                height,
            },
        );
    }
}

/// Creating an object changes what is bound. The laws below say what each
/// creation leaves bound, whatever was bound before, so that callers know
/// what they have to bind again.
///
/// After a buffer is filled it is bound to its target.
pub proof fn lemma_upload_binds(d: Device, target: u32, id: u32, bytes: int)
    ensures
        target == gl::ARRAY_BUFFER ==> d.run(upload_calls(target, id, bytes)).array_buffer == id,
        target == gl::ELEMENT_ARRAY_BUFFER ==> d.run(upload_calls(target, id, bytes)).element_buffer
            == id,
        d.run(upload_calls(target, id, bytes)).draws == d.draws,
{
    lemma_run_two(
        d,
        GlCall::BindBuffer { target, buffer: id },
        GlCall::BufferData { target, size: bytes as isize, usage: gl::STATIC_DRAW },
    );
}

/// Describing attributes changes nothing that is bound.
pub proof fn lemma_attributes_bind_nothing(d: Device, kinds: Seq<AttributeType>, count: int)
    ensures
        d.run(attributes_calls(kinds, count)) == d,
    decreases count,
{
    if count > 0 {
        lemma_attributes_bind_nothing(d, kinds, count - 1);
        lemma_run_concat(d, attributes_calls(kinds, count - 1), attribute_calls(kinds, count - 1));
        let calls = attribute_calls(kinds, count - 1);
        lemma_run_two(d, calls[0], calls[1]);
        assert(calls =~= seq![calls[0], calls[1]]);
    }
}

/// After a layout is created it is bound, and nothing else has changed.
pub proof fn lemma_layout_binds(d: Device, id: u32, kinds: Seq<AttributeType>)
    ensures
        d.run(layout_calls(id, kinds)) == (Device { vertex_array: id, ..d }),
{
    let head = seq![GlCall::BindVertexArray(id)];
    lemma_run_concat(d, head, attributes_calls(kinds, kinds.len() as int));
    lemma_run_push(d, Seq::empty(), GlCall::BindVertexArray(id));
    assert(Seq::<GlCall>::empty().push(GlCall::BindVertexArray(id)) =~= head);
    lemma_attributes_bind_nothing(d.run(head), kinds, kinds.len() as int);
}

/// After a framebuffer is created the framebuffer of the screen is bound, and
/// the color texture of the new framebuffer is bound on its unit.
pub proof fn lemma_framebuffer_binds(d: Device, id: u32, texture: TextureView)
    requires
        texture.unit <= LAST_UNIT,
    ensures
        d.run(framebuffer_calls(id, texture)).framebuffer == 0,
        d.run(framebuffer_calls(id, texture)).texture_on((gl::TEXTURE0 + texture.unit) as u32)
            == texture.name,
        d.run(framebuffer_calls(id, texture)).draws == d.draws,
{
    let head = seq![bind_framebuffer(id)];
    let binds = bind_calls(texture.unit, texture.name);
    let made = create_calls(texture, false);
    let attach = attach_calls(texture.unit, texture.name);
    let tail = seq![GlCall::CheckFramebufferStatus(gl::FRAMEBUFFER), bind_framebuffer(0)];
    lemma_run_concat(d, head + made + attach, tail);
    lemma_run_concat(d, head + made, attach);
    lemma_run_concat(d, head, made);
    lemma_run_push(d, Seq::empty(), bind_framebuffer(id));
    assert(Seq::<GlCall>::empty().push(bind_framebuffer(id)) =~= head);
    let d1 = d.run(head);
    crate::opengl::textures::lemma_create_binds(d1, texture, false);
    let d2 = d1.run(made);
    lemma_run_two(d2, binds[0], binds[1]);
    assert(binds =~= seq![binds[0], binds[1]]);
    lemma_run_push(d2, binds, attach.last());
    assert(binds.push(attach.last()) =~= attach);
    let d3 = d2.run(attach);
    lemma_run_two(d3, GlCall::CheckFramebufferStatus(gl::FRAMEBUFFER), bind_framebuffer(0));
}

/// After depth storage is created no renderbuffer is bound, and the
/// framebuffer of the screen is bound.
pub proof fn lemma_renderbuffer_binds(d: Device, id: u32, width: i32, height: i32)
    ensures
        d.run(renderbuffer_calls(id, width, height)).renderbuffer == 0,
        d.run(renderbuffer_calls(id, width, height)).framebuffer == 0,
        d.run(renderbuffer_calls(id, width, height)).draws == d.draws,
{
    let calls = renderbuffer_calls(id, width, height);
    let first = seq![calls[0], calls[1], calls[2]];
    let rest = seq![calls[3], calls[4], calls[5]];
    assert(calls =~= first + rest);
    lemma_run_concat(d, first, rest);
    lemma_run_three(d, calls[0], calls[1], calls[2]);
    lemma_run_three(d.run(first), calls[3], calls[4], calls[5]);
}

} // verus!
