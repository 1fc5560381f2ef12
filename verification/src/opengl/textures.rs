//! Two-dimensional textures and the pictures that fill them. Pictures are
//! read from their files by whoever reads files; the library is told their
//! size and the type of their samples.

use crate::opengl::gl;
use crate::opengl::gl::{lemma_run_concat, lemma_run_four, lemma_run_two, Device, GlCall};
use crate::opengl::Glwrapper;
use crate::text::is_word;
use vstd::prelude::*;

verus! {

/// The type of one sample of a texture.
#[derive(Clone, Copy, Debug, PartialEq, Eq)]
pub enum TextureDataType {
    Float,
    UnsignedByte,
}

impl TextureDataType {
    /// The constant by which the device knows the type.
    pub open spec fn gl_of(self) -> u32 {
        match self {
            TextureDataType::Float => gl::FLOAT,
            TextureDataType::UnsignedByte => gl::UNSIGNED_BYTE,
        }
    }

    /// The constant by which the device knows the type.
    pub fn to_gl(&self) -> (r: u32)
        ensures
            r == self.gl_of(),
    {
        match self {
            TextureDataType::Float => gl::FLOAT,
            TextureDataType::UnsignedByte => gl::UNSIGNED_BYTE,
        }
    }
}

/// The channels of one pixel of a texture.
#[derive(Clone, Copy, Debug, PartialEq, Eq)]
pub enum TextureColorFormat {
    RGB,
    RGBA,
    RGBA4,
}

impl TextureColorFormat {
    /// The constant by which the device knows the format.
    pub open spec fn gl_of(self) -> u32 {
        match self {
            TextureColorFormat::RGB => gl::RGB,
            TextureColorFormat::RGBA => gl::RGBA,
            TextureColorFormat::RGBA4 => gl::RGBA4,
        }
    }

    /// The constant by which the device knows the format.
    pub fn to_gl(&self) -> (r: u32)
        ensures
            r == self.gl_of(),
    {
        match self {
            TextureColorFormat::RGB => gl::RGB,
            TextureColorFormat::RGBA => gl::RGBA,
            TextureColorFormat::RGBA4 => gl::RGBA4,
        }
    }
}

/// The largest number of a texture unit: the constant that selects a unit is
/// the constant of the first unit plus the number.
pub const LAST_UNIT: u32 = 0xffff_7b3f;

/// A texture as a mathematical value.
pub struct TextureView {
    /// The number of the texture unit on which the texture is bound.
    pub unit: u32,
    /// The name that the device gave to the texture.
    pub name: u32,
    pub data_type: TextureDataType,
    pub color_format: TextureColorFormat,
    /// The width of the storage last asked for.
    pub width: i32,
    /// The height of the storage last asked for.
    pub height: i32,
}

/// The calls that make unit `unit` active and bind the texture `name` on it.
pub open spec fn bind_calls(unit: u32, name: u32) -> Seq<GlCall> {
    seq![
        GlCall::ActiveTexture((gl::TEXTURE0 + unit) as u32),
        GlCall::BindTexture { target: gl::TEXTURE_2D, texture: name },
    ]
}

/// The call that gives the bound texture the storage that `t` describes,
/// filled with pixels or left empty.
pub open spec fn storage_call(t: TextureView, with_pixels: bool) -> GlCall {
    GlCall::TexImage2D {
        target: gl::TEXTURE_2D,
        level: 0,
        internalformat: t.color_format.gl_of() as i32,
        width: t.width,
        height: t.height,
        border: 0,
        format: t.color_format.gl_of(),
        kind: t.data_type.gl_of(),
        with_pixels,
    }
}

/// The calls that create the texture `t`: bind it on its unit, let it repeat
/// in both directions and filter linearly, give it storage and build its
/// smaller copies.
pub open spec fn create_calls(t: TextureView, with_pixels: bool) -> Seq<GlCall> {
    bind_calls(t.unit, t.name) + seq![
        GlCall::TexParameteri {
            target: gl::TEXTURE_2D,
            pname: gl::TEXTURE_WRAP_S,
            param: gl::REPEAT as i32,
        },
        GlCall::TexParameteri {
            target: gl::TEXTURE_2D,
            pname: gl::TEXTURE_WRAP_T,
            param: gl::REPEAT as i32,
        },
        GlCall::TexParameteri {
            target: gl::TEXTURE_2D,
            pname: gl::TEXTURE_MIN_FILTER,
            param: gl::LINEAR as i32,
        },
        GlCall::TexParameteri {
            target: gl::TEXTURE_2D,
            pname: gl::TEXTURE_MAG_FILTER,
            param: gl::LINEAR as i32,
        },
        storage_call(t, with_pixels),
        GlCall::GenerateMipmap(gl::TEXTURE_2D),
    ]
}

/// The calls that attach the texture as the color target of the bound
/// framebuffer.
pub open spec fn attach_calls(unit: u32, name: u32) -> Seq<GlCall> {
    bind_calls(unit, name).push(
        GlCall::FramebufferTexture2D {
            target: gl::FRAMEBUFFER,
            attachment: gl::COLOR_ATTACHMENT0,
            textarget: gl::TEXTURE_2D,
            texture: name,
            level: 0,
        },
    )
}

/// The file formats from which pictures are read.
#[derive(Clone, Copy, Debug, PartialEq, Eq)]
pub enum PictureFormat {
    Png,
    Jpeg,
    Bmp,
    Tiff,
    Hdr,
}

/// A picture that was read from a file: its size, the type of its samples,
/// and its samples in rows from the top, three for each pixel: red, green,
/// blue. The samples are of any type: the library counts them and hands
/// them on.
#[derive(Debug, PartialEq, Eq)]
pub struct Picture<T> {
    pub width: u32,
    pub height: u32,
    pub data_type: TextureDataType,
    pub pixels: Vec<T>,
}

/// Why no texture was made of a picture.
#[derive(Clone, Copy, Debug, PartialEq, Eq)]
pub enum TextureError {
    /// The picture is wider or higher than the device can be told.
    TooLarge,
    /// The picture does not hold three samples for each of its pixels.
    PixelCount,
}

impl PictureFormat {
    /// The type of the samples of a picture of this format: real numbers for
    /// the format of high dynamic range, bytes for every other.
    pub open spec fn samples(self) -> TextureDataType {
        match self {
            PictureFormat::Hdr => TextureDataType::Float,
            _ => TextureDataType::UnsignedByte,
        }
    }

    /// The type of the samples of a picture of this format.
    pub fn data_type(&self) -> (r: TextureDataType)
        ensures
            r == self.samples(),
    {
        match self {
            PictureFormat::Hdr => TextureDataType::Float,
            _ => TextureDataType::UnsignedByte,
        }
    }
}

/// The four bytes of `.png`.
pub open spec fn ext_png() -> Seq<u8> {
    seq![0x2eu8, 0x70u8, 0x6eu8, 0x67u8]
}

/// The four bytes of `.jpg`.
pub open spec fn ext_jpg() -> Seq<u8> {
    seq![0x2eu8, 0x6au8, 0x70u8, 0x67u8]
}

/// The five bytes of `.jpeg`.
pub open spec fn ext_jpeg() -> Seq<u8> {
    seq![0x2eu8, 0x6au8, 0x70u8, 0x65u8, 0x67u8]
}

/// The four bytes of `.bmp`.
pub open spec fn ext_bmp() -> Seq<u8> {
    seq![0x2eu8, 0x62u8, 0x6du8, 0x70u8]
}

/// The five bytes of `.tiff`.
pub open spec fn ext_tiff() -> Seq<u8> {
    seq![0x2eu8, 0x74u8, 0x69u8, 0x66u8, 0x66u8]
}

/// The four bytes of `.hdr`.
pub open spec fn ext_hdr() -> Seq<u8> {
    seq![0x2eu8, 0x68u8, 0x64u8, 0x72u8]
}

/// The path ends in `ending`, letters read without regard to case.
pub open spec fn ends_in(path: Seq<u8>, ending: Seq<u8>) -> bool {
    path.len() >= ending.len() && is_word(
        path,
        path.len() - ending.len(),
        path.len() as int,
        ending,
    )
}

/// The format that the ending of a path promises: `.png`, `.jpg` or `.jpeg`,
/// `.bmp`, `.tiff`, `.hdr`, in any case; none for any other ending.
pub open spec fn format_of(path: Seq<u8>) -> Option<PictureFormat> {
    if ends_in(path, ext_png()) {
        Some(PictureFormat::Png)
    } else if ends_in(path, ext_jpg()) || ends_in(path, ext_jpeg()) {
        Some(PictureFormat::Jpeg)
    } else if ends_in(path, ext_bmp()) {
        Some(PictureFormat::Bmp)
    } else if ends_in(path, ext_tiff()) {
        Some(PictureFormat::Tiff)
    } else if ends_in(path, ext_hdr()) {
        Some(PictureFormat::Hdr)
    } else {
        None
    }
}

/// Whether `path` ends in `ending` without regard to the case of letters.
pub fn ends_with(path: &[u8], ending: &[u8]) -> (r: bool)
    ensures
        r == ends_in(path@, ending@),
{
    path.len() >= ending.len() && crate::text::word(
        path,
        path.len() - ending.len(),
        path.len(),
        ending,
    )
}

/// The format that the ending of `path` promises.
pub fn picture_format(path: &[u8]) -> (r: Option<PictureFormat>)
    ensures
        r == format_of(path@),
{
    let png: [u8; 4] = [0x2e, 0x70, 0x6e, 0x67];
    let jpg: [u8; 4] = [0x2e, 0x6a, 0x70, 0x67];
    let jpeg: [u8; 5] = [0x2e, 0x6a, 0x70, 0x65, 0x67];
    let bmp: [u8; 4] = [0x2e, 0x62, 0x6d, 0x70];
    let tiff: [u8; 5] = [0x2e, 0x74, 0x69, 0x66, 0x66];
    let hdr: [u8; 4] = [0x2e, 0x68, 0x64, 0x72];
    assert(png@ =~= ext_png());
    assert(jpg@ =~= ext_jpg());
    assert(jpeg@ =~= ext_jpeg());
    assert(bmp@ =~= ext_bmp());
    assert(tiff@ =~= ext_tiff());
    assert(hdr@ =~= ext_hdr());
    if ends_with(path, png.as_slice()) {
        Some(PictureFormat::Png)
    } else if ends_with(path, jpg.as_slice()) || ends_with(path, jpeg.as_slice()) {
        Some(PictureFormat::Jpeg)
    } else if ends_with(path, bmp.as_slice()) {
        Some(PictureFormat::Bmp)
    } else if ends_with(path, tiff.as_slice()) {
        Some(PictureFormat::Tiff)
    } else if ends_with(path, hdr.as_slice()) {
        Some(PictureFormat::Hdr)
    } else {
        None
    }
}

/// The size of the texture that can be made of a picture, or why none can.
pub fn picture_fits<T>(picture: &Picture<T>) -> (r: Result<(i32, i32), TextureError>)
    ensures
        r == picture_size(picture.width, picture.height, picture.pixels@.len()),
{
    if picture.width > 0x7fff_ffff || picture.height > 0x7fff_ffff {
        return Err(TextureError::TooLarge);
    }
    let wide: u64 = picture.width as u64;
    let high: u64 = picture.height as u64;
    assert(3 * wide * high <= 3 * 0x7fff_ffff * 0x7fff_ffff) by (nonlinear_arith)
        requires
            wide <= 0x7fff_ffff,
            high <= 0x7fff_ffff,
    ;
    assert(3 * wide * high == 3 * picture.width * picture.height);
    let needed: u64 = 3 * wide * high;
    if picture.pixels.len() as u64 != needed {
        return Err(TextureError::PixelCount);
    }
    Ok((picture.width as i32, picture.height as i32))
}

/// A texture of the device: its unit, its name, the layout of its pixels and
/// the size of its storage.
pub struct Texture {
    id: u32,
    location: u32,
    data_type: TextureDataType,
    color_format: TextureColorFormat,
    width: i32,
    height: i32,
}

/// What making a texture of a picture of the given size with `pixels` samples
/// gives: the error of a picture that cannot be handed to the device, or the
/// size of the texture.
pub open spec fn picture_size(width: u32, height: u32, pixels: nat) -> Result<
    (i32, i32),
    TextureError,
> {
    if width > i32::MAX || height > i32::MAX {
        Err(TextureError::TooLarge)
    } else if pixels != 3 * width * height {
        Err(TextureError::PixelCount)
    } else {
        Ok((width as i32, height as i32))
    }
}

/// The texture of three channels on unit `unit` with the name `name`, the
/// given type of samples and the given size.
pub open spec fn picture_texture(
    unit: u32,
    name: u32,
    data_type: TextureDataType,
    size: (i32, i32),
) -> TextureView {
    TextureView {
        unit,
        name,
        data_type,
        color_format: TextureColorFormat::RGB,
        width: size.0,
        height: size.1,
    }
}

impl Texture {
    /// The texture as a mathematical value.
    pub closed spec fn view(&self) -> TextureView {
        TextureView {
            unit: self.id,
            name: self.location,
            data_type: self.data_type,
            color_format: self.color_format,
            width: self.width,
            height: self.height,
        }
    }

    #[verifier::type_invariant]
    spec fn inv(&self) -> bool {
        self.id <= LAST_UNIT
    }

    /// Creates a texture on unit `id_counter` under the name `location` that
    /// the device gave, with storage of the given size, filled with pixels
    /// that come with the call or left empty.
    pub fn new(
        id_counter: u32,
        width: i32,
        height: i32,
        with_pixels: bool,
        color_format: TextureColorFormat,
        data_type: TextureDataType,
        location: u32,
        gl: &mut Glwrapper,
    ) -> (r: Texture)
        requires
            id_counter <= LAST_UNIT,
        ensures
            r@ == (TextureView {
                unit: id_counter,
                name: location,
                data_type,
                color_format,
                width,
                height,
            }),
            final(gl)@ == old(gl)@ + create_calls(r@, with_pixels),
    {
        let texture = Texture { id: id_counter, location, data_type, color_format, width, height };
        gl.record(GlCall::ActiveTexture(gl::TEXTURE0 + id_counter));
        gl.record(GlCall::BindTexture { target: gl::TEXTURE_2D, texture: location });
        gl.record(
            GlCall::TexParameteri {
                target: gl::TEXTURE_2D,
                pname: gl::TEXTURE_WRAP_S,
                param: gl::REPEAT as i32,
            },
        );
        gl.record(
            GlCall::TexParameteri {
                target: gl::TEXTURE_2D,
                pname: gl::TEXTURE_WRAP_T,
                param: gl::REPEAT as i32,
            },
        );
        gl.record(
            GlCall::TexParameteri {
                target: gl::TEXTURE_2D,
                pname: gl::TEXTURE_MIN_FILTER,
                param: gl::LINEAR as i32,
            },
        );
        gl.record(
            GlCall::TexParameteri {
                target: gl::TEXTURE_2D,
                pname: gl::TEXTURE_MAG_FILTER,
                param: gl::LINEAR as i32,
            },
        );
        gl.record(
            GlCall::TexImage2D {
                target: gl::TEXTURE_2D,
                level: 0,
                internalformat: color_format.to_gl() as i32,
                width,
                height,
                border: 0,
                format: color_format.to_gl(),
                kind: data_type.to_gl(),
                with_pixels,
            },
        );
        gl.record(GlCall::GenerateMipmap(gl::TEXTURE_2D));
        texture
    }

    /// Makes a texture of a picture on unit `id_counter` under the name
    /// `location` that the device gave: three channels of the samples of the
    /// picture, filled with its pixels, which go to the device with the call
    /// that gives the texture its storage. A picture that is too large for the
    /// device, or that does not hold three samples for each pixel, is refused
    /// and nothing is recorded.
    pub fn load_new<T>(picture: &Picture<T>, id_counter: u32, location: u32, gl: &mut Glwrapper) -> (r:
        Result<Texture, TextureError>)
        requires
            id_counter <= LAST_UNIT,
        ensures
            match r {
                Ok(t) => {
                    &&& picture_size(picture.width, picture.height, picture.pixels@.len()) == Ok::<
                        (i32, i32),
                        TextureError,
                    >((t@.width, t@.height))
                    &&& t@ == picture_texture(
                        id_counter,
                        location,
                        picture.data_type,
                        (t@.width, t@.height),
                    )
                    &&& final(gl)@ == old(gl)@ + create_calls(t@, true)
                },
                Err(e) => {
                    &&& picture_size(picture.width, picture.height, picture.pixels@.len()) == Err::<
                        (i32, i32),
                        TextureError,
                    >(e)
                    &&& final(gl)@ == old(gl)@
                },
            },
    {
        match picture_fits(picture) {
            Ok(_) => {},
            Err(e) => {
                return Err(e);
            },
        }
        Ok(
            Texture::new(
                id_counter,
                picture.width as i32,
                picture.height as i32,
                true,
                TextureColorFormat::RGB,
                picture.data_type,
                location,
                gl,
            ),
        )
    }

    /// Puts a picture in the place of this texture: the old texture is
    /// deleted, and a new one is made of the picture under the name
    /// `location` that the device gave, on the same unit. Where no texture
    /// can be made of the picture, nothing is recorded and the texture stays.
    pub fn replace<T>(&mut self, picture: &Picture<T>, location: u32, gl: &mut Glwrapper) -> (r:
        Result<(), TextureError>)
        ensures
            match r {
                Ok(()) => {
                    &&& picture_size(picture.width, picture.height, picture.pixels@.len()) == Ok::<
                        (i32, i32),
                        TextureError,
                    >((final(self)@.width, final(self)@.height))
                    &&& final(self)@ == picture_texture(
                        old(self)@.unit,
                        location,
                        picture.data_type,
                        (final(self)@.width, final(self)@.height),
                    )
                    &&& final(gl)@ == old(gl)@ + seq![GlCall::DeleteTexture(old(self)@.name)]
                        + create_calls(final(self)@, true)
                },
                Err(e) => {
                    &&& picture_size(picture.width, picture.height, picture.pixels@.len()) == Err::<
                        (i32, i32),
                        TextureError,
                    >(e)
                    &&& final(self)@ == old(self)@
                    &&& final(gl)@ == old(gl)@
                },
            },
    {
        proof {
            use_type_invariant(&*self);
        }
        match picture_fits(picture) {
            Ok(_) => {},
            Err(e) => {
                return Err(e);
            },
        }
        let unit = self.id;
        gl.record(GlCall::DeleteTexture(self.location));
        let made = Texture::new(
            unit,
            picture.width as i32,
            picture.height as i32,
            true,
            TextureColorFormat::RGB,
            picture.data_type,
            location,
            gl,
        );
        *self = made;
        Ok(())
    }

    /// Makes the unit of the texture active and binds the texture on it.
    pub fn bind(&self, gl: &mut Glwrapper)
        ensures
            final(gl)@ == old(gl)@ + bind_calls(self@.unit, self@.name),
    {
        proof {
            use_type_invariant(self);
        }
        gl.record(GlCall::ActiveTexture(gl::TEXTURE0 + self.id));
        gl.record(GlCall::BindTexture { target: gl::TEXTURE_2D, texture: self.location });
    }

    /// The number of the unit of the texture.
    pub fn get_id(&self) -> (r: u32)
        ensures
            r == self@.unit,
            r <= LAST_UNIT,
    {
        proof {
            use_type_invariant(self);
        }
        self.id
    }

    /// The name that the device gave to the texture.
    pub fn get_location(&self) -> (r: u32)
        ensures
            r == self@.name,
    {
        self.location
    }

    /// The width and the height of the storage last asked for.
    pub fn get_size(&self) -> (r: (i32, i32))
        ensures
            r == (self@.width, self@.height),
    {
        (self.width, self.height)
    }

    /// Deletes the texture on the device.
    pub fn delete(&self, gl: &mut Glwrapper)
        ensures
            final(gl)@ == old(gl)@.push(GlCall::DeleteTexture(self@.name)),
    {
        gl.record(GlCall::DeleteTexture(self.location));
    }

    /// Attaches the texture as the color target of the bound framebuffer.
    pub fn attach_to_frame_buffer(&self, gl: &mut Glwrapper)
        ensures
            final(gl)@ == old(gl)@ + attach_calls(self@.unit, self@.name),
    {
        self.bind(gl);
        gl.record(
            GlCall::FramebufferTexture2D {
                target: gl::FRAMEBUFFER,
                attachment: gl::COLOR_ATTACHMENT0,
                textarget: gl::TEXTURE_2D,
                texture: self.location,
                level: 0,
            },
        );
    }

    /// Gives the texture new, empty storage of the given size. Its unit, its
    /// name and the layout of its pixels stay.
    pub fn resize(&mut self, width: i32, height: i32, gl: &mut Glwrapper)
        ensures
            final(self)@ == (TextureView { width, height, ..old(self)@ }),
            final(gl)@ == old(gl)@ + bind_calls(old(self)@.unit, old(self)@.name).push(
                storage_call(final(self)@, false),
            ),
    {
        proof {
            use_type_invariant(&*self);
        }
        self.width = width;
        self.height = height;
        self.bind(gl);
        gl.record(
            GlCall::TexImage2D {
                target: gl::TEXTURE_2D,
                level: 0,
                internalformat: self.color_format.to_gl() as i32,
                width,
                height,
                border: 0,
                format: self.color_format.to_gl(),
                kind: self.data_type.to_gl(),
                with_pixels: false,
            },
        );
    }
}

/// After a texture is created its unit is active and the texture is bound on
/// it; nothing else has changed.
pub proof fn lemma_create_binds(d: Device, t: TextureView, with_pixels: bool)
    requires
        t.unit <= LAST_UNIT,
    ensures
        d.run(create_calls(t, with_pixels)) == (Device {
            active_unit: (gl::TEXTURE0 + t.unit) as u32,
            textures: d.textures.insert((gl::TEXTURE0 + t.unit) as u32, t.name),
            ..d
        }),
{
    let binds = bind_calls(t.unit, t.name);
    let all = create_calls(t, with_pixels);
    let first = seq![all[2], all[3], all[4], all[5]];
    let second = seq![all[6], all[7]];
    assert(all =~= binds + first + second);
    lemma_run_concat(d, binds + first, second);
    lemma_run_concat(d, binds, first);
    lemma_run_two(d, binds[0], binds[1]);
    assert(binds =~= seq![binds[0], binds[1]]);
    let d1 = d.run(binds);
    lemma_run_four(d1, all[2], all[3], all[4], all[5]);
    lemma_run_two(d1.run(first), all[6], all[7]);
}

} // verus!
