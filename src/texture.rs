use vstd::prelude::*;

verus! {

/// How the texel data of a texture image is to be interpreted by the renderer.
#[derive(Clone, Copy, Debug, PartialEq, Eq, Structural)]
pub enum TextureFormat {
    /// Four channels of colour in the sRGB colour space.
    Srgb,
    /// Four channels of linear data, such as a normal map.
    Linear,
    /// A single linear channel, taken from the red channel of the image.
    LinearRed,
}

/// The pixel formats that textures are stored in on the GPU.
#[derive(Clone, Copy, Debug, PartialEq, Eq, Structural)]
pub enum PixelFormat {
    R8G8B8A8Srgb,
    R8G8B8A8Unorm,
    R8Unorm,
}

impl TextureFormat {
    pub open spec fn spec_pixel_format(self) -> PixelFormat {
        match self {
            TextureFormat::Srgb => PixelFormat::R8G8B8A8Srgb,
            TextureFormat::Linear => PixelFormat::R8G8B8A8Unorm,
            TextureFormat::LinearRed => PixelFormat::R8Unorm,
        }
    }

    /// The GPU pixel format that a texture of this format is stored in.
    pub fn pixel_format(&self) -> (r: PixelFormat)
        ensures
            r == self.spec_pixel_format(),
    {
        match self {
            TextureFormat::Srgb => PixelFormat::R8G8B8A8Srgb,
            TextureFormat::Linear => PixelFormat::R8G8B8A8Unorm,
            TextureFormat::LinearRed => PixelFormat::R8Unorm,
        }
    }

    /// Bytes of RGBA source data that make up one texel of this format.
    pub open spec fn spec_chunk_size(self) -> nat {
        match self {
            TextureFormat::LinearRed => 4,
            _ => 1,
        }
    }

    /// The size of the chunks that the RGBA source data is cut into; the first byte of each
    /// chunk is uploaded.
    pub fn chunk_size(&self) -> (r: usize)
        ensures
            r as nat == self.spec_chunk_size(),
    {
        match self {
            TextureFormat::LinearRed => 4,
            _ => 1,
        }
    }
}

impl PixelFormat {
    pub open spec fn spec_texture_format(self) -> TextureFormat {
        match self {
            PixelFormat::R8G8B8A8Srgb => TextureFormat::Srgb,
            PixelFormat::R8G8B8A8Unorm => TextureFormat::Linear,
            PixelFormat::R8Unorm => TextureFormat::LinearRed,
        }
    }

    /// The texture format whose textures are stored in this pixel format.
    pub fn texture_format(&self) -> (r: TextureFormat)
        ensures
            r == self.spec_texture_format(),
    {
        match self {
            PixelFormat::R8G8B8A8Srgb => TextureFormat::Srgb,
            PixelFormat::R8G8B8A8Unorm => TextureFormat::Linear,
            PixelFormat::R8Unorm => TextureFormat::LinearRed,
        }
    }
}

/// The number of chunks of `size` bytes that `len` bytes are cut into, the last one possibly
/// shorter.
pub open spec fn chunk_count(len: nat, size: nat) -> nat {
    if size == 0 {
        0
    } else if len % size == 0 {
        len / size
    } else {
        len / size + 1
    }
}

/// The bytes uploaded for RGBA source data in the given format: the first byte of every chunk.
pub open spec fn staging_bytes(data: Seq<u8>, format: TextureFormat) -> Seq<u8> {
    let size = format.spec_chunk_size();
    Seq::new(chunk_count(data.len(), size), |i: int| data[i * size])
}

proof fn lemma_chunk_count_step(i: nat, size: nat)
    requires
        size == 1 || size == 4,
    ensures
        i % size == 0 ==> chunk_count(i + 1, size) == chunk_count(i, size) + 1
            && chunk_count(i, size) * size == i,
        i % size != 0 ==> chunk_count(i + 1, size) == chunk_count(i, size),
{
    if size == 4 {
        assert(i % 4 == 0 ==> chunk_count(i + 1, 4) == chunk_count(i, 4) + 1 && chunk_count(i, 4)
            * 4 == i) by (nonlinear_arith);
        assert(i % 4 != 0 ==> chunk_count(i + 1, 4) == chunk_count(i, 4)) by (nonlinear_arith);
    }
}

/// Cuts RGBA source data into the bytes that are uploaded for a texture of `format`: every byte
/// where a texel has four channels, only the first byte of each four-byte pixel for `LinearRed`.
pub fn staging_data(image_data: &Vec<u8>, format: TextureFormat) -> (r: Vec<u8>)
    ensures
        r@ == staging_bytes(image_data@, format),
{
    let size = format.chunk_size();
    let ghost s = size as nat;
    let mut out: Vec<u8> = Vec::new();
    let mut i: usize = 0;
    while i < image_data.len()
        invariant
            s == format.spec_chunk_size(),
            size as nat == s,
            i <= image_data.len(),
            out@ =~= Seq::new(chunk_count(i as nat, s), |m: int| image_data@[m * s]),
        decreases image_data.len() - i,
    {
        proof {
            lemma_chunk_count_step(i as nat, s);
        }
        if i % size == 0 {
            out.push(image_data[i]);
        }
        i = i + 1;
    }
    out
}

/// A texture that a renderer can load: where its image comes from and how to interpret it.
pub struct Texture {
    pub source: String,
    pub format: TextureFormat,
    pub submitted: bool,
}

impl Texture {
    /// A texture of the image at `path`, not yet submitted for loading.
    pub fn new(path: String, format: TextureFormat) -> (r: Texture)
        ensures
            r.source@ == path@,
            r.format == format,
            !r.submitted,
    {
        Texture { source: path, format, submitted: false }
    }
}

/// Each texture format is stored in exactly one pixel format, and that pixel format gives the
/// texture format back: no two texture formats share a pixel format.
pub proof fn lemma_pixel_format_round_trip(format: TextureFormat, other: TextureFormat)
    ensures
        format.spec_pixel_format().spec_texture_format() == format,
        format.spec_pixel_format() == other.spec_pixel_format() <==> format == other,
{
}

/// For `LinearRed` only the first byte of every four-byte pixel is uploaded, one byte per pixel
/// (a trailing partial pixel counts as a pixel); the other formats upload the data unchanged.
pub proof fn lemma_linear_red_takes_first_bytes(data: Seq<u8>)
    ensures
        staging_bytes(data, TextureFormat::LinearRed).len() == (data.len() + 3) / 4,
        forall|i: int|
            0 <= i < staging_bytes(data, TextureFormat::LinearRed).len() ==> 4 * i < data.len()
                && #[trigger] staging_bytes(data, TextureFormat::LinearRed)[i] == data[4 * i],
        staging_bytes(data, TextureFormat::Srgb) == data,
        staging_bytes(data, TextureFormat::Linear) == data,
{
    let len = data.len();
    assert(chunk_count(len, 4) == (len + 3) / 4) by (nonlinear_arith);
    assert forall|i: int|
        0 <= i < staging_bytes(data, TextureFormat::LinearRed).len() implies 4 * i < len
            && #[trigger] staging_bytes(data, TextureFormat::LinearRed)[i] == data[4 * i] by {
        assert(0 <= i < chunk_count(len, 4) ==> 4 * i < len) by (nonlinear_arith);
    }
    assert(chunk_count(len, 1) == len) by (nonlinear_arith);
    assert(staging_bytes(data, TextureFormat::Srgb) =~= data);
    assert(staging_bytes(data, TextureFormat::Linear) =~= data);
}

} // verus!
