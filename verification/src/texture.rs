//! Texture descriptions, the texture record kept by the renderer, the mip
//! level count of a texture, and the checks made before an upload.

use vstd::prelude::*;
use vstd::arithmetic::power2::pow2;
use vstd::arithmetic::power2::lemma_pow2_unfold;
use crate::gl_enums;
use crate::texture_format::GlFormatInfo;
use crate::texture_format::TextureDimensions;
use crate::texture_format::TextureFormat;
use crate::texture_format::TextureFormatInfo;

verus! {

/// Texture creation options, one bit per option.
#[derive(Copy, Clone, Debug, PartialEq, Eq, Structural)]
pub struct TextureOptions {
    pub bits: u32,
}

/// Allocate the texture with sparse storage.
pub const SPARSE_STORAGE: u32 = 1;

impl TextureOptions {
    /// No option.
    pub fn empty() -> (r: TextureOptions)
        ensures
            r.bits == 0,
    {
        TextureOptions { bits: 0 }
    }

    /// All the options of `flags` are set.
    pub fn contains(&self, flags: u32) -> (r: bool)
        ensures
            r == (self.bits & flags == flags),
    {
        self.bits & flags == flags
    }
}

#[derive(Copy, Clone, Debug, PartialEq, Eq, Structural)]
pub struct TextureDesc {
    /// Texture dimensions
    pub dimensions: TextureDimensions,
    /// Texture format
    pub format: TextureFormat,
    /// Width in pixels
    pub width: u32,
    /// Height in pixels, or array size of 1D texture arrays
    pub height: u32,
    /// Depth in pixels, or array size of 2D texture arrays
    pub depth: u32,
    /// Number of samples for multisample textures
    /// 0 means that the texture will not be allocated with multisampling
    pub sample_count: u32,
    /// Number of mipmap levels that should be allocated for this texture
    /// See also: `get_texture_mip_map_count`
    pub mip_map_count: u32,
    pub options: TextureOptions,
}

impl Default for TextureDesc {
    /// A 2D RGBA8 texture of size zero, without mipmaps or multisampling.
    fn default() -> (r: TextureDesc)
        ensures
            r == (TextureDesc {
                dimensions: TextureDimensions::Tex2D,
                format: TextureFormat::R8G8B8A8_UNORM,
                width: 0,
                height: 0,
                depth: 0,
                sample_count: 0,
                mip_map_count: 0,
                options: TextureOptions { bits: 0 },
            }),
    {
        TextureDesc {
            dimensions: TextureDimensions::Tex2D,
            format: TextureFormat::R8G8B8A8_UNORM,
            width: 0,
            height: 0,
            depth: 0,
            sample_count: 0,
            mip_map_count: 0,
            options: TextureOptions::empty(),
        }
    }
}

/// A texture: the GL object and the description it was created with.
#[derive(Debug)]
pub struct Texture {
    obj: u32,
    desc: TextureDesc,
}

/// Trait for pixel types that can be uploaded to the GPU with glTextureSubImage*
/// Describes the format of the client data
pub trait ClientFormatInfo {
    fn get_format_info() -> TextureFormatInfo;
}

/// The GL texture target of a description: 1D, 2D (multisample with more
/// than one sample) or 3D; other dimensions have no target here.
pub open spec fn texture_target_spec(desc: TextureDesc) -> Option<u32> {
    match desc.dimensions {
        TextureDimensions::Tex1D => Some(gl_enums::GL_TEXTURE_1D),
        TextureDimensions::Tex2D => if desc.sample_count > 1 {
            Some(gl_enums::GL_TEXTURE_2D_MULTISAMPLE)
        } else {
            Some(gl_enums::GL_TEXTURE_2D)
        },
        TextureDimensions::Tex3D => Some(gl_enums::GL_TEXTURE_3D),
        _ => None,
    }
}

/// The GL texture target of a description (see `texture_target_spec`).
pub fn texture_target(desc: &TextureDesc) -> (r: Option<u32>)
    ensures
        r == texture_target_spec(*desc),
{
    match desc.dimensions {
        TextureDimensions::Tex1D => Some(gl_enums::GL_TEXTURE_1D),
        TextureDimensions::Tex2D => if desc.sample_count > 1 {
            Some(gl_enums::GL_TEXTURE_2D_MULTISAMPLE)
        } else {
            Some(gl_enums::GL_TEXTURE_2D)
        },
        TextureDimensions::Tex3D => Some(gl_enums::GL_TEXTURE_3D),
        _ => None,
    }
}

impl Texture {
    /// The record of the GL texture `obj` created from `desc`.
    pub fn from_object(obj: u32, desc: &TextureDesc) -> (r: Texture)
        ensures
            r.spec_object() == obj,
            r.spec_desc() == *desc,
    {
        Texture { obj, desc: *desc }
    }

    pub closed spec fn spec_desc(&self) -> TextureDesc {
        self.desc
    }

    pub closed spec fn spec_object(&self) -> u32 {
        self.obj
    }

    /// The GL texture object.
    pub fn object(&self) -> (r: u32)
        ensures
            r == self.spec_object(),
    {
        self.obj
    }

    /// Returns the TextureDesc object describing this texture
    pub fn desc(&self) -> (r: &TextureDesc)
        ensures
            *r == self.spec_desc(),
    {
        &self.desc
    }

    /// The width in pixels of this texture
    pub fn width(&self) -> (r: u32)
        ensures
            r == self.spec_desc().width,
    {
        self.desc.width
    }

    /// The height in pixels of this texture or the array size of 1D texture
    /// arrays; 1 for a 1D texture.
    pub fn height(&self) -> (r: u32)
        ensures
            r == (if self.spec_desc().dimensions == TextureDimensions::Tex1D {
                1
            } else {
                self.spec_desc().height
            }),
    {
        match self.desc.dimensions {
            TextureDimensions::Tex1D => 1,
            _ => self.desc.height,
        }
    }

    /// The depth in pixels of this texture for 3D textures or the array size of 2D texture arrays
    pub fn depth(&self) -> (r: u32)
        ensures
            r == self.spec_desc().depth,
    {
        self.desc.depth
    }

    /// Checks an upload of a region of `size` texels with `data_len` bytes
    /// of data and returns the client format of the upload: the format must
    /// not be compressed, and the data must hold exactly the texels.
    pub fn upload_format(&self, size: (u32, u32, u32), data_len: usize) -> (r: GlFormatInfo)
        requires
            !self.spec_desc().format.spec_info().spec_is_compressed(),
            self.spec_desc().format.spec_info().total_bits() <= 255,
            size.0 * size.1 <= u32::MAX,
            size.0 * size.1 * size.2 <= u32::MAX,
            data_len == (size.0 * size.1 * size.2) * (self.spec_desc().format.spec_info().total_bits() / 8),
            crate::texture_format::gl_format_supported(self.spec_desc().format),
        ensures
            r == crate::texture_format::spec_gl_format_info(self.spec_desc().format),
    {
        GlFormatInfo::from_texture_format(self.desc.format)
    }
}

/// `floor(log2(n))` for `n >= 1`.
pub open spec fn floor_log2(n: nat) -> nat
    decreases n,
{
    if n <= 1 {
        0
    } else {
        1 + floor_log2(n / 2)
    }
}

/// Get the maximum number of mip map levels for a 2D texture of size (width,height)
/// numLevels = 1 + floor(log2(max(w, h))); a texture of size zero has one level.
pub fn get_texture_mip_map_count(width: u32, height: u32) -> (r: u32)
    ensures
        r == 1 + floor_log2(if width >= height {
            width as nat
        } else {
            height as nat
        }),
{
    let mut n = if width >= height {
        width
    } else {
        height
    };
    let ghost n0 = n as nat;
    let mut levels: u32 = 1;
    proof {
        assert(n <= (0xffff_ffffu32 >> 0u32)) by (bit_vector);
    }
    while n > 1
        invariant
            1 <= levels <= 32,
            levels + floor_log2(n as nat) == 1 + floor_log2(n0),
            n <= (0xffff_ffffu32 >> ((levels - 1) as u32)),
        decreases n,
    {
        proof {
            assert(levels <= 31 && n / 2 <= (0xffff_ffffu32 >> (levels as u32))) by (bit_vector)
                requires
                    n > 1,
                    n <= (0xffff_ffffu32 >> ((levels - 1) as u32)),
                    1 <= levels <= 32,
            ;
        }
        n = n / 2;
        levels = levels + 1;
    }
    levels
}

/// The number of mip levels `1 + floor_log2(n)` of a size `n` is the number
/// of halvings that bring it down to one texel: `2^(levels - 1) <= n <
/// 2^levels`.
pub proof fn lemma_mip_levels_cover_size(n: nat)
    requires
        n >= 1,
    ensures
        pow2(floor_log2(n)) <= n < pow2(floor_log2(n) + 1),
    decreases n,
{
    if n > 1 {
        let k = floor_log2(n / 2);
        lemma_mip_levels_cover_size(n / 2);
        lemma_pow2_unfold(k + 1);
        lemma_pow2_unfold(k + 2);
    } else {
        lemma_pow2_unfold(1);
        assert(pow2(0) == 1) by {
            reveal(vstd::arithmetic::power::pow);
        }
    }
}

} // verus!
