//! Texture formats (Vulkan-style names), their component description, and the
//! matching OpenGL upload formats.

use vstd::prelude::*;
use crate::gl_enums;

verus! {

/// The dimensionality of a texture.
#[derive(Clone, Copy, Debug, PartialEq, Eq, Structural)]
pub enum TextureDimensions {
    Tex1D,
    Tex2D,
    Tex3D,
    Tex1DArray,
    Tex2DArray,
    TexCube,
}

/// Texture storage formats. The variants follow the order of the Vulkan format
/// enumeration, starting at `UNDEFINED`.
#[allow(non_camel_case_types)]
#[derive(Clone, Copy, Debug, PartialEq, Eq, Structural)]
pub enum TextureFormat {
    UNDEFINED,
    R4G4_UNORM_PACK8,
    R4G4B4A4_UNORM_PACK16,
    B4G4R4A4_UNORM_PACK16,
    R5G6B5_UNORM_PACK16,
    B5G6R5_UNORM_PACK16,
    R5G5B5A1_UNORM_PACK16,
    B5G5R5A1_UNORM_PACK16,
    A1R5G5B5_UNORM_PACK16,
    R8_UNORM,
    R8_SNORM,
    R8_USCALED,
    R8_SSCALED,
    R8_UINT,
    R8_SINT,
    R8_SRGB,
    R8G8_UNORM,
    R8G8_SNORM,
    R8G8_USCALED,
    R8G8_SSCALED,
    R8G8_UINT,
    R8G8_SINT,
    R8G8_SRGB,
    R8G8B8_UNORM,
    R8G8B8_SNORM,
    R8G8B8_USCALED,
    R8G8B8_SSCALED,
    R8G8B8_UINT,
    R8G8B8_SINT,
    R8G8B8_SRGB,
    B8G8R8_UNORM,
    B8G8R8_SNORM,
    B8G8R8_USCALED,
    B8G8R8_SSCALED,
    B8G8R8_UINT,
    B8G8R8_SINT,
    B8G8R8_SRGB,
    R8G8B8A8_UNORM,
    R8G8B8A8_SNORM,
    R8G8B8A8_USCALED,
    R8G8B8A8_SSCALED,
    R8G8B8A8_UINT,
    R8G8B8A8_SINT,
    R8G8B8A8_SRGB,
    B8G8R8A8_UNORM,
    B8G8R8A8_SNORM,
    B8G8R8A8_USCALED,
    B8G8R8A8_SSCALED,
    B8G8R8A8_UINT,
    B8G8R8A8_SINT,
    B8G8R8A8_SRGB,
    A8B8G8R8_UNORM_PACK32,
    A8B8G8R8_SNORM_PACK32,
    A8B8G8R8_USCALED_PACK32,
    A8B8G8R8_SSCALED_PACK32,
    A8B8G8R8_UINT_PACK32,
    A8B8G8R8_SINT_PACK32,
    A8B8G8R8_SRGB_PACK32,
    A2R10G10B10_UNORM_PACK32,
    A2R10G10B10_SNORM_PACK32,
    A2R10G10B10_USCALED_PACK32,
    A2R10G10B10_SSCALED_PACK32,
    A2R10G10B10_UINT_PACK32,
    A2R10G10B10_SINT_PACK32,
    A2B10G10R10_UNORM_PACK32,
    A2B10G10R10_SNORM_PACK32,
    A2B10G10R10_USCALED_PACK32,
    A2B10G10R10_SSCALED_PACK32,
    A2B10G10R10_UINT_PACK32,
    A2B10G10R10_SINT_PACK32,
    R16_UNORM,
    R16_SNORM,
    R16_USCALED,
    R16_SSCALED,
    R16_UINT,
    R16_SINT,
    R16_SFLOAT,
    R16G16_UNORM,
    R16G16_SNORM,
    R16G16_USCALED,
    R16G16_SSCALED,
    R16G16_UINT,
    R16G16_SINT,
    R16G16_SFLOAT,
    R16G16B16_UNORM,
    R16G16B16_SNORM,
    R16G16B16_USCALED,
    R16G16B16_SSCALED,
    R16G16B16_UINT,
    R16G16B16_SINT,
    R16G16B16_SFLOAT,
    R16G16B16A16_UNORM,
    R16G16B16A16_SNORM,
    R16G16B16A16_USCALED,
    R16G16B16A16_SSCALED,
    R16G16B16A16_UINT,
    R16G16B16A16_SINT,
    R16G16B16A16_SFLOAT,
    R32_UINT,
    R32_SINT,
    R32_SFLOAT,
    R32G32_UINT,
    R32G32_SINT,
    R32G32_SFLOAT,
    R32G32B32_UINT,
    R32G32B32_SINT,
    R32G32B32_SFLOAT,
    R32G32B32A32_UINT,
    R32G32B32A32_SINT,
    R32G32B32A32_SFLOAT,
    R64_UINT,
    R64_SINT,
    R64_SFLOAT,
    R64G64_UINT,
    R64G64_SINT,
    R64G64_SFLOAT,
    R64G64B64_UINT,
    R64G64B64_SINT,
    R64G64B64_SFLOAT,
    R64G64B64A64_UINT,
    R64G64B64A64_SINT,
    R64G64B64A64_SFLOAT,
    B10G11R11_UFLOAT_PACK32,
    E5B9G9R9_UFLOAT_PACK32,
    D16_UNORM,
    X8_D24_UNORM_PACK32,
    D32_SFLOAT,
    S8_UINT,
    D16_UNORM_S8_UINT,
    D24_UNORM_S8_UINT,
    D32_SFLOAT_S8_UINT,
    BC1_RGB_UNORM_BLOCK,
    BC1_RGB_SRGB_BLOCK,
    BC1_RGBA_UNORM_BLOCK,
    BC1_RGBA_SRGB_BLOCK,
    BC2_UNORM_BLOCK,
    BC2_SRGB_BLOCK,
    BC3_UNORM_BLOCK,
    BC3_SRGB_BLOCK,
    BC4_UNORM_BLOCK,
    BC4_SNORM_BLOCK,
    BC5_UNORM_BLOCK,
    BC5_SNORM_BLOCK,
    BC6H_UFLOAT_BLOCK,
    BC6H_SFLOAT_BLOCK,
    BC7_UNORM_BLOCK,
    BC7_SRGB_BLOCK,
    ETC2_R8G8B8_UNORM_BLOCK,
    ETC2_R8G8B8_SRGB_BLOCK,
    ETC2_R8G8B8A1_UNORM_BLOCK,
    ETC2_R8G8B8A1_SRGB_BLOCK,
    ETC2_R8G8B8A8_UNORM_BLOCK,
    ETC2_R8G8B8A8_SRGB_BLOCK,
    EAC_R11_UNORM_BLOCK,
    EAC_R11_SNORM_BLOCK,
    EAC_R11G11_UNORM_BLOCK,
    EAC_R11G11_SNORM_BLOCK,
    ASTC_4x4_UNORM_BLOCK,
    ASTC_4x4_SRGB_BLOCK,
    ASTC_5x4_UNORM_BLOCK,
    ASTC_5x4_SRGB_BLOCK,
    ASTC_5x5_UNORM_BLOCK,
    ASTC_5x5_SRGB_BLOCK,
    ASTC_6x5_UNORM_BLOCK,
    ASTC_6x5_SRGB_BLOCK,
    ASTC_6x6_UNORM_BLOCK,
    ASTC_6x6_SRGB_BLOCK,
    ASTC_8x5_UNORM_BLOCK,
    ASTC_8x5_SRGB_BLOCK,
    ASTC_8x6_UNORM_BLOCK,
    ASTC_8x6_SRGB_BLOCK,
    ASTC_8x8_UNORM_BLOCK,
    ASTC_8x8_SRGB_BLOCK,
    ASTC_10x5_UNORM_BLOCK,
    ASTC_10x5_SRGB_BLOCK,
    ASTC_10x6_UNORM_BLOCK,
    ASTC_10x6_SRGB_BLOCK,
    ASTC_10x8_UNORM_BLOCK,
    ASTC_10x8_SRGB_BLOCK,
    ASTC_10x10_UNORM_BLOCK,
    ASTC_10x10_SRGB_BLOCK,
    ASTC_12x10_UNORM_BLOCK,
    ASTC_12x10_SRGB_BLOCK,
    ASTC_12x12_UNORM_BLOCK,
    ASTC_12x12_SRGB_BLOCK,
}

/// Order of the components of a texel.
#[allow(non_camel_case_types)]
#[derive(Clone, Copy, Debug, PartialEq, Eq, Structural)]
pub enum ComponentLayout {
    UNKNOWN,
    R,
    RG,
    RGB,
    RGBA,
    BGR,
    BGRA,
    ARGB,
    ABGR,
    EBGR,
    D,
    DS,
    S,
    XD,
}

/// Interpretation of the components of a texel.
#[allow(non_camel_case_types)]
#[derive(Clone, Copy, Debug, PartialEq, Eq, Structural)]
pub enum TextureFormatType {
    UNKNOWN,
    UNORM,
    SNORM,
    USCALED,
    SSCALED,
    UINT,
    SINT,
    SRGB,
    UFLOAT,
    SFLOAT,
    UNORM_UINT,
    SFLOAT_UINT,
}

/// Description of a texture format: component order, bits per component and
/// component type. Block-compressed formats have all component bits equal to zero.
#[derive(Clone, Copy, Debug)]
pub struct TextureFormatInfo {
    pub component_layout: ComponentLayout,
    pub component_bits: [u8; 4],
    pub format_type: TextureFormatType,
}

/// The format description with the given layout, bits and type.
pub open spec fn info(
    layout: ComponentLayout,
    b0: u8,
    b1: u8,
    b2: u8,
    b3: u8,
    ty: TextureFormatType,
) -> TextureFormatInfo {
    TextureFormatInfo { component_layout: layout, component_bits: [b0, b1, b2, b3], format_type: ty }
}

fn make_info(
    layout: ComponentLayout,
    b0: u8,
    b1: u8,
    b2: u8,
    b3: u8,
    ty: TextureFormatType,
) -> (r: TextureFormatInfo)
    ensures
        r == info(layout, b0, b1, b2, b3, ty),
{
    TextureFormatInfo { component_layout: layout, component_bits: [b0, b1, b2, b3], format_type: ty }
}

impl TextureFormatInfo {
    /// Total number of bits of a texel (the sum of the component bits).
    pub open spec fn total_bits(self) -> int {
        self.component_bits[0] as int + self.component_bits[1] as int
            + self.component_bits[2] as int + self.component_bits[3] as int
    }

    /// A format is compressed when no per-component bit count is given.
    pub open spec fn spec_is_compressed(self) -> bool {
        &&& self.component_bits[0] == 0
        &&& self.component_bits[1] == 0
        &&& self.component_bits[2] == 0
        &&& self.component_bits[3] == 0
    }

    /// Returns true if the format is block-compressed.
    pub fn is_compressed(&self) -> (r: bool)
        ensures
            r == self.spec_is_compressed(),
    {
        self.component_bits[0] == 0 && self.component_bits[1] == 0 && self.component_bits[2] == 0
            && self.component_bits[3] == 0
    }

    /// Size in bytes of one texel: the total number of bits, divided by 8.
    /// The bits are summed as `u8`, so a total above 255 is outside the domain.
    pub fn byte_size(&self) -> (r: usize)
        requires
            self.total_bits() <= 255,
        ensures
            r == self.total_bits() / 8,
    {
        let sum: u8 = self.component_bits[0] + self.component_bits[1] + self.component_bits[2]
            + self.component_bits[3];
        sum as usize / 8
    }
}

/// The block-compressed formats (the `*_BLOCK` variants).
pub open spec fn is_block_format(f: TextureFormat) -> bool {
        ||| f == TextureFormat::BC1_RGB_UNORM_BLOCK
        ||| f == TextureFormat::BC1_RGB_SRGB_BLOCK
        ||| f == TextureFormat::BC1_RGBA_UNORM_BLOCK
        ||| f == TextureFormat::BC1_RGBA_SRGB_BLOCK
        ||| f == TextureFormat::BC2_UNORM_BLOCK
        ||| f == TextureFormat::BC2_SRGB_BLOCK
        ||| f == TextureFormat::BC3_UNORM_BLOCK
        ||| f == TextureFormat::BC3_SRGB_BLOCK
        ||| f == TextureFormat::BC4_UNORM_BLOCK
        ||| f == TextureFormat::BC4_SNORM_BLOCK
        ||| f == TextureFormat::BC5_UNORM_BLOCK
        ||| f == TextureFormat::BC5_SNORM_BLOCK
        ||| f == TextureFormat::BC6H_UFLOAT_BLOCK
        ||| f == TextureFormat::BC6H_SFLOAT_BLOCK
        ||| f == TextureFormat::BC7_UNORM_BLOCK
        ||| f == TextureFormat::BC7_SRGB_BLOCK
        ||| f == TextureFormat::ETC2_R8G8B8_UNORM_BLOCK
        ||| f == TextureFormat::ETC2_R8G8B8_SRGB_BLOCK
        ||| f == TextureFormat::ETC2_R8G8B8A1_UNORM_BLOCK
        ||| f == TextureFormat::ETC2_R8G8B8A1_SRGB_BLOCK
        ||| f == TextureFormat::ETC2_R8G8B8A8_UNORM_BLOCK
        ||| f == TextureFormat::ETC2_R8G8B8A8_SRGB_BLOCK
        ||| f == TextureFormat::EAC_R11_UNORM_BLOCK
        ||| f == TextureFormat::EAC_R11_SNORM_BLOCK
        ||| f == TextureFormat::EAC_R11G11_UNORM_BLOCK
        ||| f == TextureFormat::EAC_R11G11_SNORM_BLOCK
        ||| f == TextureFormat::ASTC_4x4_UNORM_BLOCK
        ||| f == TextureFormat::ASTC_4x4_SRGB_BLOCK
        ||| f == TextureFormat::ASTC_5x4_UNORM_BLOCK
        ||| f == TextureFormat::ASTC_5x4_SRGB_BLOCK
        ||| f == TextureFormat::ASTC_5x5_UNORM_BLOCK
        ||| f == TextureFormat::ASTC_5x5_SRGB_BLOCK
        ||| f == TextureFormat::ASTC_6x5_UNORM_BLOCK
        ||| f == TextureFormat::ASTC_6x5_SRGB_BLOCK
        ||| f == TextureFormat::ASTC_6x6_UNORM_BLOCK
        ||| f == TextureFormat::ASTC_6x6_SRGB_BLOCK
        ||| f == TextureFormat::ASTC_8x5_UNORM_BLOCK
        ||| f == TextureFormat::ASTC_8x5_SRGB_BLOCK
        ||| f == TextureFormat::ASTC_8x6_UNORM_BLOCK
        ||| f == TextureFormat::ASTC_8x6_SRGB_BLOCK
        ||| f == TextureFormat::ASTC_8x8_UNORM_BLOCK
        ||| f == TextureFormat::ASTC_8x8_SRGB_BLOCK
        ||| f == TextureFormat::ASTC_10x5_UNORM_BLOCK
        ||| f == TextureFormat::ASTC_10x5_SRGB_BLOCK
        ||| f == TextureFormat::ASTC_10x6_UNORM_BLOCK
        ||| f == TextureFormat::ASTC_10x6_SRGB_BLOCK
        ||| f == TextureFormat::ASTC_10x8_UNORM_BLOCK
        ||| f == TextureFormat::ASTC_10x8_SRGB_BLOCK
        ||| f == TextureFormat::ASTC_10x10_UNORM_BLOCK
        ||| f == TextureFormat::ASTC_10x10_SRGB_BLOCK
        ||| f == TextureFormat::ASTC_12x10_UNORM_BLOCK
        ||| f == TextureFormat::ASTC_12x10_SRGB_BLOCK
        ||| f == TextureFormat::ASTC_12x12_UNORM_BLOCK
        ||| f == TextureFormat::ASTC_12x12_SRGB_BLOCK
}

/// A format has no per-component bit counts exactly when it is `UNDEFINED`
/// or block-compressed.
pub proof fn lemma_compressed_iff_block(f: TextureFormat)
    ensures
        f.spec_info().spec_is_compressed() <==> (f == TextureFormat::UNDEFINED || is_block_format(f)),
{
}

/// The texel width in bits that the name of a format gives: the number
/// after `PACK` for packed formats, else the sum of the numbers after the
/// component letters (`D32_SFLOAT_S8_UINT`: 32 + 8); 0 for `UNDEFINED` and
/// the block-compressed formats, whose names give no texel width.
pub open spec fn name_bits(f: TextureFormat) -> int {
    match f {
        TextureFormat::R4G4_UNORM_PACK8
        | TextureFormat::R8_UNORM
        | TextureFormat::R8_SNORM
        | TextureFormat::R8_USCALED
        | TextureFormat::R8_SSCALED
        | TextureFormat::R8_UINT
        | TextureFormat::R8_SINT
        | TextureFormat::R8_SRGB
        | TextureFormat::S8_UINT => 8,
        TextureFormat::R4G4B4A4_UNORM_PACK16
        | TextureFormat::B4G4R4A4_UNORM_PACK16
        | TextureFormat::R5G6B5_UNORM_PACK16
        | TextureFormat::B5G6R5_UNORM_PACK16
        | TextureFormat::R5G5B5A1_UNORM_PACK16
        | TextureFormat::B5G5R5A1_UNORM_PACK16
        | TextureFormat::A1R5G5B5_UNORM_PACK16
        | TextureFormat::R8G8_UNORM
        | TextureFormat::R8G8_SNORM
        | TextureFormat::R8G8_USCALED
        | TextureFormat::R8G8_SSCALED
        | TextureFormat::R8G8_UINT
        | TextureFormat::R8G8_SINT
        | TextureFormat::R8G8_SRGB
        | TextureFormat::R16_UNORM
        | TextureFormat::R16_SNORM
        | TextureFormat::R16_USCALED
        | TextureFormat::R16_SSCALED
        | TextureFormat::R16_UINT
        | TextureFormat::R16_SINT
        | TextureFormat::R16_SFLOAT
        | TextureFormat::D16_UNORM => 16,
        TextureFormat::R8G8B8_UNORM
        | TextureFormat::R8G8B8_SNORM
        | TextureFormat::R8G8B8_USCALED
        | TextureFormat::R8G8B8_SSCALED
        | TextureFormat::R8G8B8_UINT
        | TextureFormat::R8G8B8_SINT
        | TextureFormat::R8G8B8_SRGB
        | TextureFormat::B8G8R8_UNORM
        | TextureFormat::B8G8R8_SNORM
        | TextureFormat::B8G8R8_USCALED
        | TextureFormat::B8G8R8_SSCALED
        | TextureFormat::B8G8R8_UINT
        | TextureFormat::B8G8R8_SINT
        | TextureFormat::B8G8R8_SRGB
        | TextureFormat::D16_UNORM_S8_UINT => 24,
        TextureFormat::R8G8B8A8_UNORM
        | TextureFormat::R8G8B8A8_SNORM
        | TextureFormat::R8G8B8A8_USCALED
        | TextureFormat::R8G8B8A8_SSCALED
        | TextureFormat::R8G8B8A8_UINT
        | TextureFormat::R8G8B8A8_SINT
        | TextureFormat::R8G8B8A8_SRGB
        | TextureFormat::B8G8R8A8_UNORM
        | TextureFormat::B8G8R8A8_SNORM
        | TextureFormat::B8G8R8A8_USCALED
        | TextureFormat::B8G8R8A8_SSCALED
        | TextureFormat::B8G8R8A8_UINT
        | TextureFormat::B8G8R8A8_SINT
        | TextureFormat::B8G8R8A8_SRGB
        | TextureFormat::A8B8G8R8_UNORM_PACK32
        | TextureFormat::A8B8G8R8_SNORM_PACK32
        | TextureFormat::A8B8G8R8_USCALED_PACK32
        | TextureFormat::A8B8G8R8_SSCALED_PACK32
        | TextureFormat::A8B8G8R8_UINT_PACK32
        | TextureFormat::A8B8G8R8_SINT_PACK32
        | TextureFormat::A8B8G8R8_SRGB_PACK32
        | TextureFormat::A2R10G10B10_UNORM_PACK32
        | TextureFormat::A2R10G10B10_SNORM_PACK32
        | TextureFormat::A2R10G10B10_USCALED_PACK32
        | TextureFormat::A2R10G10B10_SSCALED_PACK32
        | TextureFormat::A2R10G10B10_UINT_PACK32
        | TextureFormat::A2R10G10B10_SINT_PACK32
        | TextureFormat::A2B10G10R10_UNORM_PACK32
        | TextureFormat::A2B10G10R10_SNORM_PACK32
        | TextureFormat::A2B10G10R10_USCALED_PACK32
        | TextureFormat::A2B10G10R10_SSCALED_PACK32
        | TextureFormat::A2B10G10R10_UINT_PACK32
        | TextureFormat::A2B10G10R10_SINT_PACK32
        | TextureFormat::R16G16_UNORM
        | TextureFormat::R16G16_SNORM
        | TextureFormat::R16G16_USCALED
        | TextureFormat::R16G16_SSCALED
        | TextureFormat::R16G16_UINT
        | TextureFormat::R16G16_SINT
        | TextureFormat::R16G16_SFLOAT
        | TextureFormat::R32_UINT
        | TextureFormat::R32_SINT
        | TextureFormat::R32_SFLOAT
        | TextureFormat::B10G11R11_UFLOAT_PACK32
        | TextureFormat::E5B9G9R9_UFLOAT_PACK32
        | TextureFormat::X8_D24_UNORM_PACK32
        | TextureFormat::D32_SFLOAT
        | TextureFormat::D24_UNORM_S8_UINT => 32,
        TextureFormat::D32_SFLOAT_S8_UINT => 40,
        TextureFormat::R16G16B16_UNORM
        | TextureFormat::R16G16B16_SNORM
        | TextureFormat::R16G16B16_USCALED
        | TextureFormat::R16G16B16_SSCALED
        | TextureFormat::R16G16B16_UINT
        | TextureFormat::R16G16B16_SINT
        | TextureFormat::R16G16B16_SFLOAT => 48,
        TextureFormat::R16G16B16A16_UNORM
        | TextureFormat::R16G16B16A16_SNORM
        | TextureFormat::R16G16B16A16_USCALED
        | TextureFormat::R16G16B16A16_SSCALED
        | TextureFormat::R16G16B16A16_UINT
        | TextureFormat::R16G16B16A16_SINT
        | TextureFormat::R16G16B16A16_SFLOAT
        | TextureFormat::R32G32_UINT
        | TextureFormat::R32G32_SINT
        | TextureFormat::R32G32_SFLOAT
        | TextureFormat::R64_UINT
        | TextureFormat::R64_SINT
        | TextureFormat::R64_SFLOAT => 64,
        TextureFormat::R32G32B32_UINT
        | TextureFormat::R32G32B32_SINT
        | TextureFormat::R32G32B32_SFLOAT => 96,
        TextureFormat::R32G32B32A32_UINT
        | TextureFormat::R32G32B32A32_SINT
        | TextureFormat::R32G32B32A32_SFLOAT
        | TextureFormat::R64G64_UINT
        | TextureFormat::R64G64_SINT
        | TextureFormat::R64G64_SFLOAT => 128,
        TextureFormat::R64G64B64_UINT
        | TextureFormat::R64G64B64_SINT
        | TextureFormat::R64G64B64_SFLOAT => 192,
        TextureFormat::R64G64B64A64_UINT
        | TextureFormat::R64G64B64A64_SINT
        | TextureFormat::R64G64B64A64_SFLOAT => 256,
        _ => 0,
    }
}

/// For every format that is neither `UNDEFINED` nor block-compressed, the
/// bit counts of its components sum to the texel width its name gives.
pub proof fn lemma_bits_match_name(f: TextureFormat)
    ensures
        !(f == TextureFormat::UNDEFINED || is_block_format(f)) ==> f.spec_info().total_bits() == name_bits(f),
{
    match f {
        TextureFormat::UNDEFINED => {},
        TextureFormat::R4G4_UNORM_PACK8 => {},
        TextureFormat::R4G4B4A4_UNORM_PACK16 => {},
        TextureFormat::B4G4R4A4_UNORM_PACK16 => {},
        TextureFormat::R5G6B5_UNORM_PACK16 => {},
        TextureFormat::B5G6R5_UNORM_PACK16 => {},
        TextureFormat::R5G5B5A1_UNORM_PACK16 => {},
        TextureFormat::B5G5R5A1_UNORM_PACK16 => {},
        TextureFormat::A1R5G5B5_UNORM_PACK16 => {},
        TextureFormat::R8_UNORM => {},
        TextureFormat::R8_SNORM => {},
        TextureFormat::R8_USCALED => {},
        TextureFormat::R8_SSCALED => {},
        TextureFormat::R8_UINT => {},
        TextureFormat::R8_SINT => {},
        TextureFormat::R8_SRGB => {},
        TextureFormat::R8G8_UNORM => {},
        TextureFormat::R8G8_SNORM => {},
        TextureFormat::R8G8_USCALED => {},
        TextureFormat::R8G8_SSCALED => {},
        TextureFormat::R8G8_UINT => {},
        TextureFormat::R8G8_SINT => {},
        TextureFormat::R8G8_SRGB => {},
        TextureFormat::R8G8B8_UNORM => {},
        TextureFormat::R8G8B8_SNORM => {},
        TextureFormat::R8G8B8_USCALED => {},
        TextureFormat::R8G8B8_SSCALED => {},
        TextureFormat::R8G8B8_UINT => {},
        TextureFormat::R8G8B8_SINT => {},
        TextureFormat::R8G8B8_SRGB => {},
        TextureFormat::B8G8R8_UNORM => {},
        TextureFormat::B8G8R8_SNORM => {},
        TextureFormat::B8G8R8_USCALED => {},
        TextureFormat::B8G8R8_SSCALED => {},
        TextureFormat::B8G8R8_UINT => {},
        TextureFormat::B8G8R8_SINT => {},
        TextureFormat::B8G8R8_SRGB => {},
        TextureFormat::R8G8B8A8_UNORM => {},
        TextureFormat::R8G8B8A8_SNORM => {},
        TextureFormat::R8G8B8A8_USCALED => {},
        TextureFormat::R8G8B8A8_SSCALED => {},
        TextureFormat::R8G8B8A8_UINT => {},
        TextureFormat::R8G8B8A8_SINT => {},
        TextureFormat::R8G8B8A8_SRGB => {},
        TextureFormat::B8G8R8A8_UNORM => {},
        TextureFormat::B8G8R8A8_SNORM => {},
        TextureFormat::B8G8R8A8_USCALED => {},
        TextureFormat::B8G8R8A8_SSCALED => {},
        TextureFormat::B8G8R8A8_UINT => {},
        TextureFormat::B8G8R8A8_SINT => {},
        TextureFormat::B8G8R8A8_SRGB => {},
        TextureFormat::A8B8G8R8_UNORM_PACK32 => {},
        TextureFormat::A8B8G8R8_SNORM_PACK32 => {},
        TextureFormat::A8B8G8R8_USCALED_PACK32 => {},
        TextureFormat::A8B8G8R8_SSCALED_PACK32 => {},
        TextureFormat::A8B8G8R8_UINT_PACK32 => {},
        TextureFormat::A8B8G8R8_SINT_PACK32 => {},
        TextureFormat::A8B8G8R8_SRGB_PACK32 => {},
        TextureFormat::A2R10G10B10_UNORM_PACK32 => {},
        TextureFormat::A2R10G10B10_SNORM_PACK32 => {},
        TextureFormat::A2R10G10B10_USCALED_PACK32 => {},
        TextureFormat::A2R10G10B10_SSCALED_PACK32 => {},
        TextureFormat::A2R10G10B10_UINT_PACK32 => {},
        TextureFormat::A2R10G10B10_SINT_PACK32 => {},
        TextureFormat::A2B10G10R10_UNORM_PACK32 => {},
        TextureFormat::A2B10G10R10_SNORM_PACK32 => {},
        TextureFormat::A2B10G10R10_USCALED_PACK32 => {},
        TextureFormat::A2B10G10R10_SSCALED_PACK32 => {},
        TextureFormat::A2B10G10R10_UINT_PACK32 => {},
        TextureFormat::A2B10G10R10_SINT_PACK32 => {},
        TextureFormat::R16_UNORM => {},
        TextureFormat::R16_SNORM => {},
        TextureFormat::R16_USCALED => {},
        TextureFormat::R16_SSCALED => {},
        TextureFormat::R16_UINT => {},
        TextureFormat::R16_SINT => {},
        TextureFormat::R16_SFLOAT => {},
        TextureFormat::R16G16_UNORM => {},
        TextureFormat::R16G16_SNORM => {},
        TextureFormat::R16G16_USCALED => {},
        TextureFormat::R16G16_SSCALED => {},
        TextureFormat::R16G16_UINT => {},
        TextureFormat::R16G16_SINT => {},
        TextureFormat::R16G16_SFLOAT => {},
        TextureFormat::R16G16B16_UNORM => {},
        TextureFormat::R16G16B16_SNORM => {},
        TextureFormat::R16G16B16_USCALED => {},
        TextureFormat::R16G16B16_SSCALED => {},
        TextureFormat::R16G16B16_UINT => {},
        TextureFormat::R16G16B16_SINT => {},
        TextureFormat::R16G16B16_SFLOAT => {},
        TextureFormat::R16G16B16A16_UNORM => {},
        TextureFormat::R16G16B16A16_SNORM => {},
        TextureFormat::R16G16B16A16_USCALED => {},
        TextureFormat::R16G16B16A16_SSCALED => {},
        TextureFormat::R16G16B16A16_UINT => {},
        TextureFormat::R16G16B16A16_SINT => {},
        TextureFormat::R16G16B16A16_SFLOAT => {},
        TextureFormat::R32_UINT => {},
        TextureFormat::R32_SINT => {},
        TextureFormat::R32_SFLOAT => {},
        TextureFormat::R32G32_UINT => {},
        TextureFormat::R32G32_SINT => {},
        TextureFormat::R32G32_SFLOAT => {},
        TextureFormat::R32G32B32_UINT => {},
        TextureFormat::R32G32B32_SINT => {},
        TextureFormat::R32G32B32_SFLOAT => {},
        TextureFormat::R32G32B32A32_UINT => {},
        TextureFormat::R32G32B32A32_SINT => {},
        TextureFormat::R32G32B32A32_SFLOAT => {},
        TextureFormat::R64_UINT => {},
        TextureFormat::R64_SINT => {},
        TextureFormat::R64_SFLOAT => {},
        TextureFormat::R64G64_UINT => {},
        TextureFormat::R64G64_SINT => {},
        TextureFormat::R64G64_SFLOAT => {},
        TextureFormat::R64G64B64_UINT => {},
        TextureFormat::R64G64B64_SINT => {},
        TextureFormat::R64G64B64_SFLOAT => {},
        TextureFormat::R64G64B64A64_UINT => {},
        TextureFormat::R64G64B64A64_SINT => {},
        TextureFormat::R64G64B64A64_SFLOAT => {},
        TextureFormat::B10G11R11_UFLOAT_PACK32 => {},
        TextureFormat::E5B9G9R9_UFLOAT_PACK32 => {},
        TextureFormat::D16_UNORM => {},
        TextureFormat::X8_D24_UNORM_PACK32 => {},
        TextureFormat::D32_SFLOAT => {},
        TextureFormat::S8_UINT => {},
        TextureFormat::D16_UNORM_S8_UINT => {},
        TextureFormat::D24_UNORM_S8_UINT => {},
        TextureFormat::D32_SFLOAT_S8_UINT => {},
        TextureFormat::BC1_RGB_UNORM_BLOCK => {},
        TextureFormat::BC1_RGB_SRGB_BLOCK => {},
        TextureFormat::BC1_RGBA_UNORM_BLOCK => {},
        TextureFormat::BC1_RGBA_SRGB_BLOCK => {},
        TextureFormat::BC2_UNORM_BLOCK => {},
        TextureFormat::BC2_SRGB_BLOCK => {},
        TextureFormat::BC3_UNORM_BLOCK => {},
        TextureFormat::BC3_SRGB_BLOCK => {},
        TextureFormat::BC4_UNORM_BLOCK => {},
        TextureFormat::BC4_SNORM_BLOCK => {},
        TextureFormat::BC5_UNORM_BLOCK => {},
        TextureFormat::BC5_SNORM_BLOCK => {},
        TextureFormat::BC6H_UFLOAT_BLOCK => {},
        TextureFormat::BC6H_SFLOAT_BLOCK => {},
        TextureFormat::BC7_UNORM_BLOCK => {},
        TextureFormat::BC7_SRGB_BLOCK => {},
        TextureFormat::ETC2_R8G8B8_UNORM_BLOCK => {},
        TextureFormat::ETC2_R8G8B8_SRGB_BLOCK => {},
        TextureFormat::ETC2_R8G8B8A1_UNORM_BLOCK => {},
        TextureFormat::ETC2_R8G8B8A1_SRGB_BLOCK => {},
        TextureFormat::ETC2_R8G8B8A8_UNORM_BLOCK => {},
        TextureFormat::ETC2_R8G8B8A8_SRGB_BLOCK => {},
        TextureFormat::EAC_R11_UNORM_BLOCK => {},
        TextureFormat::EAC_R11_SNORM_BLOCK => {},
        TextureFormat::EAC_R11G11_UNORM_BLOCK => {},
        TextureFormat::EAC_R11G11_SNORM_BLOCK => {},
        TextureFormat::ASTC_4x4_UNORM_BLOCK => {},
        TextureFormat::ASTC_4x4_SRGB_BLOCK => {},
        TextureFormat::ASTC_5x4_UNORM_BLOCK => {},
        TextureFormat::ASTC_5x4_SRGB_BLOCK => {},
        TextureFormat::ASTC_5x5_UNORM_BLOCK => {},
        TextureFormat::ASTC_5x5_SRGB_BLOCK => {},
        TextureFormat::ASTC_6x5_UNORM_BLOCK => {},
        TextureFormat::ASTC_6x5_SRGB_BLOCK => {},
        TextureFormat::ASTC_6x6_UNORM_BLOCK => {},
        TextureFormat::ASTC_6x6_SRGB_BLOCK => {},
        TextureFormat::ASTC_8x5_UNORM_BLOCK => {},
        TextureFormat::ASTC_8x5_SRGB_BLOCK => {},
        TextureFormat::ASTC_8x6_UNORM_BLOCK => {},
        TextureFormat::ASTC_8x6_SRGB_BLOCK => {},
        TextureFormat::ASTC_8x8_UNORM_BLOCK => {},
        TextureFormat::ASTC_8x8_SRGB_BLOCK => {},
        TextureFormat::ASTC_10x5_UNORM_BLOCK => {},
        TextureFormat::ASTC_10x5_SRGB_BLOCK => {},
        TextureFormat::ASTC_10x6_UNORM_BLOCK => {},
        TextureFormat::ASTC_10x6_SRGB_BLOCK => {},
        TextureFormat::ASTC_10x8_UNORM_BLOCK => {},
        TextureFormat::ASTC_10x8_SRGB_BLOCK => {},
        TextureFormat::ASTC_10x10_UNORM_BLOCK => {},
        TextureFormat::ASTC_10x10_SRGB_BLOCK => {},
        TextureFormat::ASTC_12x10_UNORM_BLOCK => {},
        TextureFormat::ASTC_12x10_SRGB_BLOCK => {},
        TextureFormat::ASTC_12x12_UNORM_BLOCK => {},
        TextureFormat::ASTC_12x12_SRGB_BLOCK => {},
    }
}

impl TextureFormat {
    pub open spec fn spec_info(self) -> TextureFormatInfo {
        match self {
            TextureFormat::UNDEFINED => info(ComponentLayout::UNKNOWN, 0, 0, 0, 0, TextureFormatType::UNKNOWN),
            TextureFormat::R4G4_UNORM_PACK8 => info(ComponentLayout::RG, 4, 4, 0, 0, TextureFormatType::UNORM),
            TextureFormat::R4G4B4A4_UNORM_PACK16 => info(ComponentLayout::RGBA, 4, 4, 4, 4, TextureFormatType::UNORM),
            TextureFormat::B4G4R4A4_UNORM_PACK16 => info(ComponentLayout::BGRA, 4, 4, 4, 4, TextureFormatType::UNORM),
            TextureFormat::R5G6B5_UNORM_PACK16 => info(ComponentLayout::RGB, 5, 6, 5, 0, TextureFormatType::UNORM),
            TextureFormat::B5G6R5_UNORM_PACK16 => info(ComponentLayout::BGR, 5, 6, 5, 0, TextureFormatType::UNORM),
            TextureFormat::R5G5B5A1_UNORM_PACK16 => info(ComponentLayout::RGBA, 5, 5, 5, 1, TextureFormatType::UNORM),
            TextureFormat::B5G5R5A1_UNORM_PACK16 => info(ComponentLayout::BGRA, 5, 5, 5, 1, TextureFormatType::UNORM),
            TextureFormat::A1R5G5B5_UNORM_PACK16 => info(ComponentLayout::ARGB, 1, 5, 5, 5, TextureFormatType::UNORM),
            TextureFormat::R8_UNORM => info(ComponentLayout::R, 8, 0, 0, 0, TextureFormatType::UNORM),
            TextureFormat::R8_SNORM => info(ComponentLayout::R, 8, 0, 0, 0, TextureFormatType::SNORM),
            TextureFormat::R8_USCALED => info(ComponentLayout::R, 8, 0, 0, 0, TextureFormatType::USCALED),
            TextureFormat::R8_SSCALED => info(ComponentLayout::R, 8, 0, 0, 0, TextureFormatType::SSCALED),
            TextureFormat::R8_UINT => info(ComponentLayout::R, 8, 0, 0, 0, TextureFormatType::UINT),
            TextureFormat::R8_SINT => info(ComponentLayout::R, 8, 0, 0, 0, TextureFormatType::SINT),
            TextureFormat::R8_SRGB => info(ComponentLayout::R, 8, 0, 0, 0, TextureFormatType::SRGB),
            TextureFormat::R8G8_UNORM => info(ComponentLayout::RG, 8, 8, 0, 0, TextureFormatType::UNORM),
            TextureFormat::R8G8_SNORM => info(ComponentLayout::RG, 8, 8, 0, 0, TextureFormatType::SNORM),
            TextureFormat::R8G8_USCALED => info(ComponentLayout::RG, 8, 8, 0, 0, TextureFormatType::USCALED),
            TextureFormat::R8G8_SSCALED => info(ComponentLayout::RG, 8, 8, 0, 0, TextureFormatType::SSCALED),
            TextureFormat::R8G8_UINT => info(ComponentLayout::RG, 8, 8, 0, 0, TextureFormatType::UINT),
            TextureFormat::R8G8_SINT => info(ComponentLayout::RG, 8, 8, 0, 0, TextureFormatType::SINT),
            TextureFormat::R8G8_SRGB => info(ComponentLayout::RG, 8, 8, 0, 0, TextureFormatType::SRGB),
            TextureFormat::R8G8B8_UNORM => info(ComponentLayout::RGB, 8, 8, 8, 0, TextureFormatType::UNORM),
            TextureFormat::R8G8B8_SNORM => info(ComponentLayout::RGB, 8, 8, 8, 0, TextureFormatType::SNORM),
            TextureFormat::R8G8B8_USCALED => info(ComponentLayout::RGB, 8, 8, 8, 0, TextureFormatType::USCALED),
            TextureFormat::R8G8B8_SSCALED => info(ComponentLayout::RGB, 8, 8, 8, 0, TextureFormatType::SSCALED),
            TextureFormat::R8G8B8_UINT => info(ComponentLayout::RGB, 8, 8, 8, 0, TextureFormatType::UINT),
            TextureFormat::R8G8B8_SINT => info(ComponentLayout::RGB, 8, 8, 8, 0, TextureFormatType::SINT),
            TextureFormat::R8G8B8_SRGB => info(ComponentLayout::RGB, 8, 8, 8, 0, TextureFormatType::SRGB),
            TextureFormat::B8G8R8_UNORM => info(ComponentLayout::BGR, 8, 8, 8, 0, TextureFormatType::UNORM),
            TextureFormat::B8G8R8_SNORM => info(ComponentLayout::BGR, 8, 8, 8, 0, TextureFormatType::SNORM),
            TextureFormat::B8G8R8_USCALED => info(ComponentLayout::BGR, 8, 8, 8, 0, TextureFormatType::USCALED),
            TextureFormat::B8G8R8_SSCALED => info(ComponentLayout::BGR, 8, 8, 8, 0, TextureFormatType::SSCALED),
            TextureFormat::B8G8R8_UINT => info(ComponentLayout::BGR, 8, 8, 8, 0, TextureFormatType::UINT),
            TextureFormat::B8G8R8_SINT => info(ComponentLayout::BGR, 8, 8, 8, 0, TextureFormatType::SINT),
            TextureFormat::B8G8R8_SRGB => info(ComponentLayout::BGR, 8, 8, 8, 0, TextureFormatType::SRGB),
            TextureFormat::R8G8B8A8_UNORM => info(ComponentLayout::RGBA, 8, 8, 8, 8, TextureFormatType::UNORM),
            TextureFormat::R8G8B8A8_SNORM => info(ComponentLayout::RGBA, 8, 8, 8, 8, TextureFormatType::SNORM),
            TextureFormat::R8G8B8A8_USCALED => info(ComponentLayout::RGBA, 8, 8, 8, 8, TextureFormatType::USCALED),
            TextureFormat::R8G8B8A8_SSCALED => info(ComponentLayout::RGBA, 8, 8, 8, 8, TextureFormatType::SSCALED),
            TextureFormat::R8G8B8A8_UINT => info(ComponentLayout::RGBA, 8, 8, 8, 8, TextureFormatType::UINT),
            TextureFormat::R8G8B8A8_SINT => info(ComponentLayout::RGBA, 8, 8, 8, 8, TextureFormatType::SINT),
            TextureFormat::R8G8B8A8_SRGB => info(ComponentLayout::RGBA, 8, 8, 8, 8, TextureFormatType::SRGB),
            TextureFormat::B8G8R8A8_UNORM => info(ComponentLayout::BGRA, 8, 8, 8, 8, TextureFormatType::UNORM),
            TextureFormat::B8G8R8A8_SNORM => info(ComponentLayout::BGRA, 8, 8, 8, 8, TextureFormatType::SNORM),
            TextureFormat::B8G8R8A8_USCALED => info(ComponentLayout::BGRA, 8, 8, 8, 8, TextureFormatType::USCALED),
            TextureFormat::B8G8R8A8_SSCALED => info(ComponentLayout::BGRA, 8, 8, 8, 8, TextureFormatType::SSCALED),
            TextureFormat::B8G8R8A8_UINT => info(ComponentLayout::BGRA, 8, 8, 8, 8, TextureFormatType::UINT),
            TextureFormat::B8G8R8A8_SINT => info(ComponentLayout::BGRA, 8, 8, 8, 8, TextureFormatType::SINT),
            TextureFormat::B8G8R8A8_SRGB => info(ComponentLayout::BGRA, 8, 8, 8, 8, TextureFormatType::SRGB),
            TextureFormat::A8B8G8R8_UNORM_PACK32 => info(ComponentLayout::ABGR, 8, 8, 8, 8, TextureFormatType::UNORM),
            TextureFormat::A8B8G8R8_SNORM_PACK32 => info(ComponentLayout::ABGR, 8, 8, 8, 8, TextureFormatType::SNORM),
            TextureFormat::A8B8G8R8_USCALED_PACK32 => info(ComponentLayout::ABGR, 8, 8, 8, 8, TextureFormatType::USCALED),
            TextureFormat::A8B8G8R8_SSCALED_PACK32 => info(ComponentLayout::ABGR, 8, 8, 8, 8, TextureFormatType::SSCALED),
            TextureFormat::A8B8G8R8_UINT_PACK32 => info(ComponentLayout::ABGR, 8, 8, 8, 8, TextureFormatType::UINT),
            TextureFormat::A8B8G8R8_SINT_PACK32 => info(ComponentLayout::ABGR, 8, 8, 8, 8, TextureFormatType::SINT),
            TextureFormat::A8B8G8R8_SRGB_PACK32 => info(ComponentLayout::ABGR, 8, 8, 8, 8, TextureFormatType::SRGB),
            TextureFormat::A2R10G10B10_UNORM_PACK32 => info(ComponentLayout::ARGB, 2, 10, 10, 10, TextureFormatType::UNORM),
            TextureFormat::A2R10G10B10_SNORM_PACK32 => info(ComponentLayout::ARGB, 2, 10, 10, 10, TextureFormatType::SNORM),
            TextureFormat::A2R10G10B10_USCALED_PACK32 => info(ComponentLayout::ARGB, 2, 10, 10, 10, TextureFormatType::USCALED),
            TextureFormat::A2R10G10B10_SSCALED_PACK32 => info(ComponentLayout::ARGB, 2, 10, 10, 10, TextureFormatType::SSCALED),
            TextureFormat::A2R10G10B10_UINT_PACK32 => info(ComponentLayout::ARGB, 2, 10, 10, 10, TextureFormatType::UINT),
            TextureFormat::A2R10G10B10_SINT_PACK32 => info(ComponentLayout::ARGB, 2, 10, 10, 10, TextureFormatType::SINT),
            TextureFormat::A2B10G10R10_UNORM_PACK32 => info(ComponentLayout::ABGR, 2, 10, 10, 10, TextureFormatType::UNORM),
            TextureFormat::A2B10G10R10_SNORM_PACK32 => info(ComponentLayout::ABGR, 2, 10, 10, 10, TextureFormatType::SNORM),
            TextureFormat::A2B10G10R10_USCALED_PACK32 => info(ComponentLayout::ABGR, 2, 10, 10, 10, TextureFormatType::USCALED),
            TextureFormat::A2B10G10R10_SSCALED_PACK32 => info(ComponentLayout::ABGR, 2, 10, 10, 10, TextureFormatType::SSCALED),
            TextureFormat::A2B10G10R10_UINT_PACK32 => info(ComponentLayout::ABGR, 2, 10, 10, 10, TextureFormatType::UINT),
            TextureFormat::A2B10G10R10_SINT_PACK32 => info(ComponentLayout::ABGR, 2, 10, 10, 10, TextureFormatType::SINT),
            TextureFormat::R16_UNORM => info(ComponentLayout::R, 16, 0, 0, 0, TextureFormatType::UNORM),
            TextureFormat::R16_SNORM => info(ComponentLayout::R, 16, 0, 0, 0, TextureFormatType::SNORM),
            TextureFormat::R16_USCALED => info(ComponentLayout::R, 16, 0, 0, 0, TextureFormatType::USCALED),
            TextureFormat::R16_SSCALED => info(ComponentLayout::R, 16, 0, 0, 0, TextureFormatType::SSCALED),
            TextureFormat::R16_UINT => info(ComponentLayout::R, 16, 0, 0, 0, TextureFormatType::UINT),
            TextureFormat::R16_SINT => info(ComponentLayout::R, 16, 0, 0, 0, TextureFormatType::SINT),
            TextureFormat::R16_SFLOAT => info(ComponentLayout::R, 16, 0, 0, 0, TextureFormatType::SFLOAT),
            TextureFormat::R16G16_UNORM => info(ComponentLayout::RG, 16, 16, 0, 0, TextureFormatType::UNORM),
            TextureFormat::R16G16_SNORM => info(ComponentLayout::RG, 16, 16, 0, 0, TextureFormatType::SNORM),
            TextureFormat::R16G16_USCALED => info(ComponentLayout::RG, 16, 16, 0, 0, TextureFormatType::USCALED),
            TextureFormat::R16G16_SSCALED => info(ComponentLayout::RG, 16, 16, 0, 0, TextureFormatType::SSCALED),
            TextureFormat::R16G16_UINT => info(ComponentLayout::RG, 16, 16, 0, 0, TextureFormatType::UINT),
            TextureFormat::R16G16_SINT => info(ComponentLayout::RG, 16, 16, 0, 0, TextureFormatType::SINT),
            TextureFormat::R16G16_SFLOAT => info(ComponentLayout::RG, 16, 16, 0, 0, TextureFormatType::SFLOAT),
            TextureFormat::R16G16B16_UNORM => info(ComponentLayout::RGB, 16, 16, 16, 0, TextureFormatType::UNORM),
            TextureFormat::R16G16B16_SNORM => info(ComponentLayout::RGB, 16, 16, 16, 0, TextureFormatType::SNORM),
            TextureFormat::R16G16B16_USCALED => info(ComponentLayout::RGB, 16, 16, 16, 0, TextureFormatType::USCALED),
            TextureFormat::R16G16B16_SSCALED => info(ComponentLayout::RGB, 16, 16, 16, 0, TextureFormatType::SSCALED),
            TextureFormat::R16G16B16_UINT => info(ComponentLayout::RGB, 16, 16, 16, 0, TextureFormatType::UINT),
            TextureFormat::R16G16B16_SINT => info(ComponentLayout::RGB, 16, 16, 16, 0, TextureFormatType::SINT),
            TextureFormat::R16G16B16_SFLOAT => info(ComponentLayout::RGB, 16, 16, 16, 0, TextureFormatType::SFLOAT),
            TextureFormat::R16G16B16A16_UNORM => info(ComponentLayout::RGBA, 16, 16, 16, 16, TextureFormatType::UNORM),
            TextureFormat::R16G16B16A16_SNORM => info(ComponentLayout::RGBA, 16, 16, 16, 16, TextureFormatType::SNORM),
            TextureFormat::R16G16B16A16_USCALED => info(ComponentLayout::RGBA, 16, 16, 16, 16, TextureFormatType::USCALED),
            TextureFormat::R16G16B16A16_SSCALED => info(ComponentLayout::RGBA, 16, 16, 16, 16, TextureFormatType::SSCALED),
            TextureFormat::R16G16B16A16_UINT => info(ComponentLayout::RGBA, 16, 16, 16, 16, TextureFormatType::UINT),
            TextureFormat::R16G16B16A16_SINT => info(ComponentLayout::RGBA, 16, 16, 16, 16, TextureFormatType::SINT),
            TextureFormat::R16G16B16A16_SFLOAT => info(ComponentLayout::RGBA, 16, 16, 16, 16, TextureFormatType::SFLOAT),
            TextureFormat::R32_UINT => info(ComponentLayout::R, 32, 0, 0, 0, TextureFormatType::UINT),
            TextureFormat::R32_SINT => info(ComponentLayout::R, 32, 0, 0, 0, TextureFormatType::SINT),
            TextureFormat::R32_SFLOAT => info(ComponentLayout::R, 32, 0, 0, 0, TextureFormatType::SFLOAT),
            TextureFormat::R32G32_UINT => info(ComponentLayout::RG, 32, 32, 0, 0, TextureFormatType::UINT),
            TextureFormat::R32G32_SINT => info(ComponentLayout::RG, 32, 32, 0, 0, TextureFormatType::SINT),
            TextureFormat::R32G32_SFLOAT => info(ComponentLayout::RG, 32, 32, 0, 0, TextureFormatType::SFLOAT),
            TextureFormat::R32G32B32_UINT => info(ComponentLayout::RGB, 32, 32, 32, 0, TextureFormatType::UINT),
            TextureFormat::R32G32B32_SINT => info(ComponentLayout::RGB, 32, 32, 32, 0, TextureFormatType::SINT),
            TextureFormat::R32G32B32_SFLOAT => info(ComponentLayout::RGB, 32, 32, 32, 0, TextureFormatType::SFLOAT),
            TextureFormat::R32G32B32A32_UINT => info(ComponentLayout::RGBA, 32, 32, 32, 32, TextureFormatType::UINT),
            TextureFormat::R32G32B32A32_SINT => info(ComponentLayout::RGBA, 32, 32, 32, 32, TextureFormatType::SINT),
            TextureFormat::R32G32B32A32_SFLOAT => info(ComponentLayout::RGBA, 32, 32, 32, 32, TextureFormatType::SFLOAT),
            TextureFormat::R64_UINT => info(ComponentLayout::R, 64, 0, 0, 0, TextureFormatType::UINT),
            TextureFormat::R64_SINT => info(ComponentLayout::R, 64, 0, 0, 0, TextureFormatType::SINT),
            TextureFormat::R64_SFLOAT => info(ComponentLayout::R, 64, 0, 0, 0, TextureFormatType::SFLOAT),
            TextureFormat::R64G64_UINT => info(ComponentLayout::RG, 64, 64, 0, 0, TextureFormatType::UINT),
            TextureFormat::R64G64_SINT => info(ComponentLayout::RG, 64, 64, 0, 0, TextureFormatType::SINT),
            TextureFormat::R64G64_SFLOAT => info(ComponentLayout::RG, 64, 64, 0, 0, TextureFormatType::SFLOAT),
            TextureFormat::R64G64B64_UINT => info(ComponentLayout::RGB, 64, 64, 64, 0, TextureFormatType::UINT),
            TextureFormat::R64G64B64_SINT => info(ComponentLayout::RGB, 64, 64, 64, 0, TextureFormatType::SINT),
            TextureFormat::R64G64B64_SFLOAT => info(ComponentLayout::RGB, 64, 64, 64, 0, TextureFormatType::SFLOAT),
            TextureFormat::R64G64B64A64_UINT => info(ComponentLayout::RGBA, 64, 64, 64, 64, TextureFormatType::UINT),
            TextureFormat::R64G64B64A64_SINT => info(ComponentLayout::RGBA, 64, 64, 64, 64, TextureFormatType::SINT),
            TextureFormat::R64G64B64A64_SFLOAT => info(ComponentLayout::RGBA, 64, 64, 64, 64, TextureFormatType::SFLOAT),
            TextureFormat::B10G11R11_UFLOAT_PACK32 => info(ComponentLayout::BGR, 10, 11, 11, 0, TextureFormatType::UFLOAT),
            TextureFormat::E5B9G9R9_UFLOAT_PACK32 => info(ComponentLayout::EBGR, 5, 9, 9, 9, TextureFormatType::UFLOAT),
            TextureFormat::D16_UNORM => info(ComponentLayout::D, 16, 0, 0, 0, TextureFormatType::UNORM),
            TextureFormat::X8_D24_UNORM_PACK32 => info(ComponentLayout::XD, 8, 24, 0, 0, TextureFormatType::UNORM),
            TextureFormat::D32_SFLOAT => info(ComponentLayout::D, 32, 0, 0, 0, TextureFormatType::SFLOAT),
            TextureFormat::S8_UINT => info(ComponentLayout::S, 8, 0, 0, 0, TextureFormatType::UINT),
            TextureFormat::D16_UNORM_S8_UINT => info(ComponentLayout::DS, 16, 8, 0, 0, TextureFormatType::UNORM_UINT),
            TextureFormat::D24_UNORM_S8_UINT => info(ComponentLayout::DS, 24, 8, 0, 0, TextureFormatType::UNORM_UINT),
            TextureFormat::D32_SFLOAT_S8_UINT => info(ComponentLayout::DS, 32, 8, 0, 0, TextureFormatType::SFLOAT_UINT),
            TextureFormat::BC1_RGB_UNORM_BLOCK => info(ComponentLayout::RGB, 0, 0, 0, 0, TextureFormatType::UNORM),
            TextureFormat::BC1_RGB_SRGB_BLOCK => info(ComponentLayout::RGB, 0, 0, 0, 0, TextureFormatType::SRGB),
            TextureFormat::BC1_RGBA_UNORM_BLOCK => info(ComponentLayout::RGBA, 0, 0, 0, 0, TextureFormatType::UNORM),
            TextureFormat::BC1_RGBA_SRGB_BLOCK => info(ComponentLayout::RGBA, 0, 0, 0, 0, TextureFormatType::SRGB),
            TextureFormat::BC2_UNORM_BLOCK => info(ComponentLayout::RGBA, 0, 0, 0, 0, TextureFormatType::UNORM),
            TextureFormat::BC2_SRGB_BLOCK => info(ComponentLayout::RGBA, 0, 0, 0, 0, TextureFormatType::SRGB),
            TextureFormat::BC3_UNORM_BLOCK => info(ComponentLayout::RGBA, 0, 0, 0, 0, TextureFormatType::UNORM),
            TextureFormat::BC3_SRGB_BLOCK => info(ComponentLayout::RGBA, 0, 0, 0, 0, TextureFormatType::SRGB),
            TextureFormat::BC4_UNORM_BLOCK => info(ComponentLayout::R, 0, 0, 0, 0, TextureFormatType::UNORM),
            TextureFormat::BC4_SNORM_BLOCK => info(ComponentLayout::R, 0, 0, 0, 0, TextureFormatType::SNORM),
            TextureFormat::BC5_UNORM_BLOCK => info(ComponentLayout::RG, 0, 0, 0, 0, TextureFormatType::UNORM),
            TextureFormat::BC5_SNORM_BLOCK => info(ComponentLayout::RG, 0, 0, 0, 0, TextureFormatType::SNORM),
            TextureFormat::BC6H_UFLOAT_BLOCK => info(ComponentLayout::RGB, 0, 0, 0, 0, TextureFormatType::UFLOAT),
            TextureFormat::BC6H_SFLOAT_BLOCK => info(ComponentLayout::RGB, 0, 0, 0, 0, TextureFormatType::SFLOAT),
            TextureFormat::BC7_UNORM_BLOCK => info(ComponentLayout::RGBA, 0, 0, 0, 0, TextureFormatType::UNORM),
            TextureFormat::BC7_SRGB_BLOCK => info(ComponentLayout::RGBA, 0, 0, 0, 0, TextureFormatType::SRGB),
            TextureFormat::ETC2_R8G8B8_UNORM_BLOCK => info(ComponentLayout::RGB, 0, 0, 0, 0, TextureFormatType::UNORM),
            TextureFormat::ETC2_R8G8B8_SRGB_BLOCK => info(ComponentLayout::RGB, 0, 0, 0, 0, TextureFormatType::SRGB),
            TextureFormat::ETC2_R8G8B8A1_UNORM_BLOCK => info(ComponentLayout::RGBA, 0, 0, 0, 0, TextureFormatType::UNORM),
            TextureFormat::ETC2_R8G8B8A1_SRGB_BLOCK => info(ComponentLayout::RGBA, 0, 0, 0, 0, TextureFormatType::SRGB),
            TextureFormat::ETC2_R8G8B8A8_UNORM_BLOCK => info(ComponentLayout::RGBA, 0, 0, 0, 0, TextureFormatType::UNORM),
            TextureFormat::ETC2_R8G8B8A8_SRGB_BLOCK => info(ComponentLayout::RGBA, 0, 0, 0, 0, TextureFormatType::SRGB),
            TextureFormat::EAC_R11_UNORM_BLOCK => info(ComponentLayout::R, 0, 0, 0, 0, TextureFormatType::UNORM),
            TextureFormat::EAC_R11_SNORM_BLOCK => info(ComponentLayout::R, 0, 0, 0, 0, TextureFormatType::SNORM),
            TextureFormat::EAC_R11G11_UNORM_BLOCK => info(ComponentLayout::RG, 0, 0, 0, 0, TextureFormatType::UNORM),
            TextureFormat::EAC_R11G11_SNORM_BLOCK => info(ComponentLayout::RG, 0, 0, 0, 0, TextureFormatType::SNORM),
            TextureFormat::ASTC_4x4_UNORM_BLOCK => info(ComponentLayout::RGBA, 0, 0, 0, 0, TextureFormatType::UNORM),
            TextureFormat::ASTC_4x4_SRGB_BLOCK => info(ComponentLayout::RGBA, 0, 0, 0, 0, TextureFormatType::SRGB),
            TextureFormat::ASTC_5x4_UNORM_BLOCK => info(ComponentLayout::RGBA, 0, 0, 0, 0, TextureFormatType::UNORM),
            TextureFormat::ASTC_5x4_SRGB_BLOCK => info(ComponentLayout::RGBA, 0, 0, 0, 0, TextureFormatType::SRGB),
            TextureFormat::ASTC_5x5_UNORM_BLOCK => info(ComponentLayout::RGBA, 0, 0, 0, 0, TextureFormatType::UNORM),
            TextureFormat::ASTC_5x5_SRGB_BLOCK => info(ComponentLayout::RGBA, 0, 0, 0, 0, TextureFormatType::SRGB),
            TextureFormat::ASTC_6x5_UNORM_BLOCK => info(ComponentLayout::RGBA, 0, 0, 0, 0, TextureFormatType::UNORM),
            TextureFormat::ASTC_6x5_SRGB_BLOCK => info(ComponentLayout::RGBA, 0, 0, 0, 0, TextureFormatType::SRGB),
            TextureFormat::ASTC_6x6_UNORM_BLOCK => info(ComponentLayout::RGBA, 0, 0, 0, 0, TextureFormatType::UNORM),
            TextureFormat::ASTC_6x6_SRGB_BLOCK => info(ComponentLayout::RGBA, 0, 0, 0, 0, TextureFormatType::SRGB),
            TextureFormat::ASTC_8x5_UNORM_BLOCK => info(ComponentLayout::RGBA, 0, 0, 0, 0, TextureFormatType::UNORM),
            TextureFormat::ASTC_8x5_SRGB_BLOCK => info(ComponentLayout::RGBA, 0, 0, 0, 0, TextureFormatType::SRGB),
            TextureFormat::ASTC_8x6_UNORM_BLOCK => info(ComponentLayout::RGBA, 0, 0, 0, 0, TextureFormatType::UNORM),
            TextureFormat::ASTC_8x6_SRGB_BLOCK => info(ComponentLayout::RGBA, 0, 0, 0, 0, TextureFormatType::SRGB),
            TextureFormat::ASTC_8x8_UNORM_BLOCK => info(ComponentLayout::RGBA, 0, 0, 0, 0, TextureFormatType::UNORM),
            TextureFormat::ASTC_8x8_SRGB_BLOCK => info(ComponentLayout::RGBA, 0, 0, 0, 0, TextureFormatType::SRGB),
            TextureFormat::ASTC_10x5_UNORM_BLOCK => info(ComponentLayout::RGBA, 0, 0, 0, 0, TextureFormatType::UNORM),
            TextureFormat::ASTC_10x5_SRGB_BLOCK => info(ComponentLayout::RGBA, 0, 0, 0, 0, TextureFormatType::SRGB),
            TextureFormat::ASTC_10x6_UNORM_BLOCK => info(ComponentLayout::RGBA, 0, 0, 0, 0, TextureFormatType::UNORM),
            TextureFormat::ASTC_10x6_SRGB_BLOCK => info(ComponentLayout::RGBA, 0, 0, 0, 0, TextureFormatType::SRGB),
            TextureFormat::ASTC_10x8_UNORM_BLOCK => info(ComponentLayout::RGBA, 0, 0, 0, 0, TextureFormatType::UNORM),
            TextureFormat::ASTC_10x8_SRGB_BLOCK => info(ComponentLayout::RGBA, 0, 0, 0, 0, TextureFormatType::SRGB),
            TextureFormat::ASTC_10x10_UNORM_BLOCK => info(ComponentLayout::RGBA, 0, 0, 0, 0, TextureFormatType::UNORM),
            TextureFormat::ASTC_10x10_SRGB_BLOCK => info(ComponentLayout::RGBA, 0, 0, 0, 0, TextureFormatType::SRGB),
            TextureFormat::ASTC_12x10_UNORM_BLOCK => info(ComponentLayout::RGBA, 0, 0, 0, 0, TextureFormatType::UNORM),
            TextureFormat::ASTC_12x10_SRGB_BLOCK => info(ComponentLayout::RGBA, 0, 0, 0, 0, TextureFormatType::SRGB),
            TextureFormat::ASTC_12x12_UNORM_BLOCK => info(ComponentLayout::RGBA, 0, 0, 0, 0, TextureFormatType::UNORM),
            TextureFormat::ASTC_12x12_SRGB_BLOCK => info(ComponentLayout::RGBA, 0, 0, 0, 0, TextureFormatType::SRGB),
        }
    }

    /// The description of this format.
    pub fn get_format_info(self) -> (info_out: TextureFormatInfo)
        ensures
            info_out == self.spec_info(),
    {
        match self {
            TextureFormat::UNDEFINED => make_info(ComponentLayout::UNKNOWN, 0, 0, 0, 0, TextureFormatType::UNKNOWN),
            TextureFormat::R4G4_UNORM_PACK8 => make_info(ComponentLayout::RG, 4, 4, 0, 0, TextureFormatType::UNORM),
            TextureFormat::R4G4B4A4_UNORM_PACK16 => make_info(ComponentLayout::RGBA, 4, 4, 4, 4, TextureFormatType::UNORM),
            TextureFormat::B4G4R4A4_UNORM_PACK16 => make_info(ComponentLayout::BGRA, 4, 4, 4, 4, TextureFormatType::UNORM),
            TextureFormat::R5G6B5_UNORM_PACK16 => make_info(ComponentLayout::RGB, 5, 6, 5, 0, TextureFormatType::UNORM),
            TextureFormat::B5G6R5_UNORM_PACK16 => make_info(ComponentLayout::BGR, 5, 6, 5, 0, TextureFormatType::UNORM),
            TextureFormat::R5G5B5A1_UNORM_PACK16 => make_info(ComponentLayout::RGBA, 5, 5, 5, 1, TextureFormatType::UNORM),
            TextureFormat::B5G5R5A1_UNORM_PACK16 => make_info(ComponentLayout::BGRA, 5, 5, 5, 1, TextureFormatType::UNORM),
            TextureFormat::A1R5G5B5_UNORM_PACK16 => make_info(ComponentLayout::ARGB, 1, 5, 5, 5, TextureFormatType::UNORM),
            TextureFormat::R8_UNORM => make_info(ComponentLayout::R, 8, 0, 0, 0, TextureFormatType::UNORM),
            TextureFormat::R8_SNORM => make_info(ComponentLayout::R, 8, 0, 0, 0, TextureFormatType::SNORM),
            TextureFormat::R8_USCALED => make_info(ComponentLayout::R, 8, 0, 0, 0, TextureFormatType::USCALED),
            TextureFormat::R8_SSCALED => make_info(ComponentLayout::R, 8, 0, 0, 0, TextureFormatType::SSCALED),
            TextureFormat::R8_UINT => make_info(ComponentLayout::R, 8, 0, 0, 0, TextureFormatType::UINT),
            TextureFormat::R8_SINT => make_info(ComponentLayout::R, 8, 0, 0, 0, TextureFormatType::SINT),
            TextureFormat::R8_SRGB => make_info(ComponentLayout::R, 8, 0, 0, 0, TextureFormatType::SRGB),
            TextureFormat::R8G8_UNORM => make_info(ComponentLayout::RG, 8, 8, 0, 0, TextureFormatType::UNORM),
            TextureFormat::R8G8_SNORM => make_info(ComponentLayout::RG, 8, 8, 0, 0, TextureFormatType::SNORM),
            TextureFormat::R8G8_USCALED => make_info(ComponentLayout::RG, 8, 8, 0, 0, TextureFormatType::USCALED),
            TextureFormat::R8G8_SSCALED => make_info(ComponentLayout::RG, 8, 8, 0, 0, TextureFormatType::SSCALED),
            TextureFormat::R8G8_UINT => make_info(ComponentLayout::RG, 8, 8, 0, 0, TextureFormatType::UINT),
            TextureFormat::R8G8_SINT => make_info(ComponentLayout::RG, 8, 8, 0, 0, TextureFormatType::SINT),
            TextureFormat::R8G8_SRGB => make_info(ComponentLayout::RG, 8, 8, 0, 0, TextureFormatType::SRGB),
            TextureFormat::R8G8B8_UNORM => make_info(ComponentLayout::RGB, 8, 8, 8, 0, TextureFormatType::UNORM),
            TextureFormat::R8G8B8_SNORM => make_info(ComponentLayout::RGB, 8, 8, 8, 0, TextureFormatType::SNORM),
            TextureFormat::R8G8B8_USCALED => make_info(ComponentLayout::RGB, 8, 8, 8, 0, TextureFormatType::USCALED),
            TextureFormat::R8G8B8_SSCALED => make_info(ComponentLayout::RGB, 8, 8, 8, 0, TextureFormatType::SSCALED),
            TextureFormat::R8G8B8_UINT => make_info(ComponentLayout::RGB, 8, 8, 8, 0, TextureFormatType::UINT),
            TextureFormat::R8G8B8_SINT => make_info(ComponentLayout::RGB, 8, 8, 8, 0, TextureFormatType::SINT),
            TextureFormat::R8G8B8_SRGB => make_info(ComponentLayout::RGB, 8, 8, 8, 0, TextureFormatType::SRGB),
            TextureFormat::B8G8R8_UNORM => make_info(ComponentLayout::BGR, 8, 8, 8, 0, TextureFormatType::UNORM),
            TextureFormat::B8G8R8_SNORM => make_info(ComponentLayout::BGR, 8, 8, 8, 0, TextureFormatType::SNORM),
            TextureFormat::B8G8R8_USCALED => make_info(ComponentLayout::BGR, 8, 8, 8, 0, TextureFormatType::USCALED),
            TextureFormat::B8G8R8_SSCALED => make_info(ComponentLayout::BGR, 8, 8, 8, 0, TextureFormatType::SSCALED),
            TextureFormat::B8G8R8_UINT => make_info(ComponentLayout::BGR, 8, 8, 8, 0, TextureFormatType::UINT),
            TextureFormat::B8G8R8_SINT => make_info(ComponentLayout::BGR, 8, 8, 8, 0, TextureFormatType::SINT),
            TextureFormat::B8G8R8_SRGB => make_info(ComponentLayout::BGR, 8, 8, 8, 0, TextureFormatType::SRGB),
            TextureFormat::R8G8B8A8_UNORM => make_info(ComponentLayout::RGBA, 8, 8, 8, 8, TextureFormatType::UNORM),
            TextureFormat::R8G8B8A8_SNORM => make_info(ComponentLayout::RGBA, 8, 8, 8, 8, TextureFormatType::SNORM),
            TextureFormat::R8G8B8A8_USCALED => make_info(ComponentLayout::RGBA, 8, 8, 8, 8, TextureFormatType::USCALED),
            TextureFormat::R8G8B8A8_SSCALED => make_info(ComponentLayout::RGBA, 8, 8, 8, 8, TextureFormatType::SSCALED),
            TextureFormat::R8G8B8A8_UINT => make_info(ComponentLayout::RGBA, 8, 8, 8, 8, TextureFormatType::UINT),
            TextureFormat::R8G8B8A8_SINT => make_info(ComponentLayout::RGBA, 8, 8, 8, 8, TextureFormatType::SINT),
            TextureFormat::R8G8B8A8_SRGB => make_info(ComponentLayout::RGBA, 8, 8, 8, 8, TextureFormatType::SRGB),
            TextureFormat::B8G8R8A8_UNORM => make_info(ComponentLayout::BGRA, 8, 8, 8, 8, TextureFormatType::UNORM),
            TextureFormat::B8G8R8A8_SNORM => make_info(ComponentLayout::BGRA, 8, 8, 8, 8, TextureFormatType::SNORM),
            TextureFormat::B8G8R8A8_USCALED => make_info(ComponentLayout::BGRA, 8, 8, 8, 8, TextureFormatType::USCALED),
            TextureFormat::B8G8R8A8_SSCALED => make_info(ComponentLayout::BGRA, 8, 8, 8, 8, TextureFormatType::SSCALED),
            TextureFormat::B8G8R8A8_UINT => make_info(ComponentLayout::BGRA, 8, 8, 8, 8, TextureFormatType::UINT),
            TextureFormat::B8G8R8A8_SINT => make_info(ComponentLayout::BGRA, 8, 8, 8, 8, TextureFormatType::SINT),
            TextureFormat::B8G8R8A8_SRGB => make_info(ComponentLayout::BGRA, 8, 8, 8, 8, TextureFormatType::SRGB),
            TextureFormat::A8B8G8R8_UNORM_PACK32 => make_info(ComponentLayout::ABGR, 8, 8, 8, 8, TextureFormatType::UNORM),
            TextureFormat::A8B8G8R8_SNORM_PACK32 => make_info(ComponentLayout::ABGR, 8, 8, 8, 8, TextureFormatType::SNORM),
            TextureFormat::A8B8G8R8_USCALED_PACK32 => make_info(ComponentLayout::ABGR, 8, 8, 8, 8, TextureFormatType::USCALED),
            TextureFormat::A8B8G8R8_SSCALED_PACK32 => make_info(ComponentLayout::ABGR, 8, 8, 8, 8, TextureFormatType::SSCALED),
            TextureFormat::A8B8G8R8_UINT_PACK32 => make_info(ComponentLayout::ABGR, 8, 8, 8, 8, TextureFormatType::UINT),
            TextureFormat::A8B8G8R8_SINT_PACK32 => make_info(ComponentLayout::ABGR, 8, 8, 8, 8, TextureFormatType::SINT),
            TextureFormat::A8B8G8R8_SRGB_PACK32 => make_info(ComponentLayout::ABGR, 8, 8, 8, 8, TextureFormatType::SRGB),
            TextureFormat::A2R10G10B10_UNORM_PACK32 => make_info(ComponentLayout::ARGB, 2, 10, 10, 10, TextureFormatType::UNORM),
            TextureFormat::A2R10G10B10_SNORM_PACK32 => make_info(ComponentLayout::ARGB, 2, 10, 10, 10, TextureFormatType::SNORM),
            TextureFormat::A2R10G10B10_USCALED_PACK32 => make_info(ComponentLayout::ARGB, 2, 10, 10, 10, TextureFormatType::USCALED),
            TextureFormat::A2R10G10B10_SSCALED_PACK32 => make_info(ComponentLayout::ARGB, 2, 10, 10, 10, TextureFormatType::SSCALED),
            TextureFormat::A2R10G10B10_UINT_PACK32 => make_info(ComponentLayout::ARGB, 2, 10, 10, 10, TextureFormatType::UINT),
            TextureFormat::A2R10G10B10_SINT_PACK32 => make_info(ComponentLayout::ARGB, 2, 10, 10, 10, TextureFormatType::SINT),
            TextureFormat::A2B10G10R10_UNORM_PACK32 => make_info(ComponentLayout::ABGR, 2, 10, 10, 10, TextureFormatType::UNORM),
            TextureFormat::A2B10G10R10_SNORM_PACK32 => make_info(ComponentLayout::ABGR, 2, 10, 10, 10, TextureFormatType::SNORM),
            TextureFormat::A2B10G10R10_USCALED_PACK32 => make_info(ComponentLayout::ABGR, 2, 10, 10, 10, TextureFormatType::USCALED),
            TextureFormat::A2B10G10R10_SSCALED_PACK32 => make_info(ComponentLayout::ABGR, 2, 10, 10, 10, TextureFormatType::SSCALED),
            TextureFormat::A2B10G10R10_UINT_PACK32 => make_info(ComponentLayout::ABGR, 2, 10, 10, 10, TextureFormatType::UINT),
            TextureFormat::A2B10G10R10_SINT_PACK32 => make_info(ComponentLayout::ABGR, 2, 10, 10, 10, TextureFormatType::SINT),
            TextureFormat::R16_UNORM => make_info(ComponentLayout::R, 16, 0, 0, 0, TextureFormatType::UNORM),
            TextureFormat::R16_SNORM => make_info(ComponentLayout::R, 16, 0, 0, 0, TextureFormatType::SNORM),
            TextureFormat::R16_USCALED => make_info(ComponentLayout::R, 16, 0, 0, 0, TextureFormatType::USCALED),
            TextureFormat::R16_SSCALED => make_info(ComponentLayout::R, 16, 0, 0, 0, TextureFormatType::SSCALED),
            TextureFormat::R16_UINT => make_info(ComponentLayout::R, 16, 0, 0, 0, TextureFormatType::UINT),
            TextureFormat::R16_SINT => make_info(ComponentLayout::R, 16, 0, 0, 0, TextureFormatType::SINT),
            TextureFormat::R16_SFLOAT => make_info(ComponentLayout::R, 16, 0, 0, 0, TextureFormatType::SFLOAT),
            TextureFormat::R16G16_UNORM => make_info(ComponentLayout::RG, 16, 16, 0, 0, TextureFormatType::UNORM),
            TextureFormat::R16G16_SNORM => make_info(ComponentLayout::RG, 16, 16, 0, 0, TextureFormatType::SNORM),
            TextureFormat::R16G16_USCALED => make_info(ComponentLayout::RG, 16, 16, 0, 0, TextureFormatType::USCALED),
            TextureFormat::R16G16_SSCALED => make_info(ComponentLayout::RG, 16, 16, 0, 0, TextureFormatType::SSCALED),
            TextureFormat::R16G16_UINT => make_info(ComponentLayout::RG, 16, 16, 0, 0, TextureFormatType::UINT),
            TextureFormat::R16G16_SINT => make_info(ComponentLayout::RG, 16, 16, 0, 0, TextureFormatType::SINT),
            TextureFormat::R16G16_SFLOAT => make_info(ComponentLayout::RG, 16, 16, 0, 0, TextureFormatType::SFLOAT),
            TextureFormat::R16G16B16_UNORM => make_info(ComponentLayout::RGB, 16, 16, 16, 0, TextureFormatType::UNORM),
            TextureFormat::R16G16B16_SNORM => make_info(ComponentLayout::RGB, 16, 16, 16, 0, TextureFormatType::SNORM),
            TextureFormat::R16G16B16_USCALED => make_info(ComponentLayout::RGB, 16, 16, 16, 0, TextureFormatType::USCALED),
            TextureFormat::R16G16B16_SSCALED => make_info(ComponentLayout::RGB, 16, 16, 16, 0, TextureFormatType::SSCALED),
            TextureFormat::R16G16B16_UINT => make_info(ComponentLayout::RGB, 16, 16, 16, 0, TextureFormatType::UINT),
            TextureFormat::R16G16B16_SINT => make_info(ComponentLayout::RGB, 16, 16, 16, 0, TextureFormatType::SINT),
            TextureFormat::R16G16B16_SFLOAT => make_info(ComponentLayout::RGB, 16, 16, 16, 0, TextureFormatType::SFLOAT),
            TextureFormat::R16G16B16A16_UNORM => make_info(ComponentLayout::RGBA, 16, 16, 16, 16, TextureFormatType::UNORM),
            TextureFormat::R16G16B16A16_SNORM => make_info(ComponentLayout::RGBA, 16, 16, 16, 16, TextureFormatType::SNORM),
            TextureFormat::R16G16B16A16_USCALED => make_info(ComponentLayout::RGBA, 16, 16, 16, 16, TextureFormatType::USCALED),
            TextureFormat::R16G16B16A16_SSCALED => make_info(ComponentLayout::RGBA, 16, 16, 16, 16, TextureFormatType::SSCALED),
            TextureFormat::R16G16B16A16_UINT => make_info(ComponentLayout::RGBA, 16, 16, 16, 16, TextureFormatType::UINT),
            TextureFormat::R16G16B16A16_SINT => make_info(ComponentLayout::RGBA, 16, 16, 16, 16, TextureFormatType::SINT),
            TextureFormat::R16G16B16A16_SFLOAT => make_info(ComponentLayout::RGBA, 16, 16, 16, 16, TextureFormatType::SFLOAT),
            TextureFormat::R32_UINT => make_info(ComponentLayout::R, 32, 0, 0, 0, TextureFormatType::UINT),
            TextureFormat::R32_SINT => make_info(ComponentLayout::R, 32, 0, 0, 0, TextureFormatType::SINT),
            TextureFormat::R32_SFLOAT => make_info(ComponentLayout::R, 32, 0, 0, 0, TextureFormatType::SFLOAT),
            TextureFormat::R32G32_UINT => make_info(ComponentLayout::RG, 32, 32, 0, 0, TextureFormatType::UINT),
            TextureFormat::R32G32_SINT => make_info(ComponentLayout::RG, 32, 32, 0, 0, TextureFormatType::SINT),
            TextureFormat::R32G32_SFLOAT => make_info(ComponentLayout::RG, 32, 32, 0, 0, TextureFormatType::SFLOAT),
            TextureFormat::R32G32B32_UINT => make_info(ComponentLayout::RGB, 32, 32, 32, 0, TextureFormatType::UINT),
            TextureFormat::R32G32B32_SINT => make_info(ComponentLayout::RGB, 32, 32, 32, 0, TextureFormatType::SINT),
            TextureFormat::R32G32B32_SFLOAT => make_info(ComponentLayout::RGB, 32, 32, 32, 0, TextureFormatType::SFLOAT),
            TextureFormat::R32G32B32A32_UINT => make_info(ComponentLayout::RGBA, 32, 32, 32, 32, TextureFormatType::UINT),
            TextureFormat::R32G32B32A32_SINT => make_info(ComponentLayout::RGBA, 32, 32, 32, 32, TextureFormatType::SINT),
            TextureFormat::R32G32B32A32_SFLOAT => make_info(ComponentLayout::RGBA, 32, 32, 32, 32, TextureFormatType::SFLOAT),
            TextureFormat::R64_UINT => make_info(ComponentLayout::R, 64, 0, 0, 0, TextureFormatType::UINT),
            TextureFormat::R64_SINT => make_info(ComponentLayout::R, 64, 0, 0, 0, TextureFormatType::SINT),
            TextureFormat::R64_SFLOAT => make_info(ComponentLayout::R, 64, 0, 0, 0, TextureFormatType::SFLOAT),
            TextureFormat::R64G64_UINT => make_info(ComponentLayout::RG, 64, 64, 0, 0, TextureFormatType::UINT),
            TextureFormat::R64G64_SINT => make_info(ComponentLayout::RG, 64, 64, 0, 0, TextureFormatType::SINT),
            TextureFormat::R64G64_SFLOAT => make_info(ComponentLayout::RG, 64, 64, 0, 0, TextureFormatType::SFLOAT),
            TextureFormat::R64G64B64_UINT => make_info(ComponentLayout::RGB, 64, 64, 64, 0, TextureFormatType::UINT),
            TextureFormat::R64G64B64_SINT => make_info(ComponentLayout::RGB, 64, 64, 64, 0, TextureFormatType::SINT),
            TextureFormat::R64G64B64_SFLOAT => make_info(ComponentLayout::RGB, 64, 64, 64, 0, TextureFormatType::SFLOAT),
            TextureFormat::R64G64B64A64_UINT => make_info(ComponentLayout::RGBA, 64, 64, 64, 64, TextureFormatType::UINT),
            TextureFormat::R64G64B64A64_SINT => make_info(ComponentLayout::RGBA, 64, 64, 64, 64, TextureFormatType::SINT),
            TextureFormat::R64G64B64A64_SFLOAT => make_info(ComponentLayout::RGBA, 64, 64, 64, 64, TextureFormatType::SFLOAT),
            TextureFormat::B10G11R11_UFLOAT_PACK32 => make_info(ComponentLayout::BGR, 10, 11, 11, 0, TextureFormatType::UFLOAT),
            TextureFormat::E5B9G9R9_UFLOAT_PACK32 => make_info(ComponentLayout::EBGR, 5, 9, 9, 9, TextureFormatType::UFLOAT),
            TextureFormat::D16_UNORM => make_info(ComponentLayout::D, 16, 0, 0, 0, TextureFormatType::UNORM),
            TextureFormat::X8_D24_UNORM_PACK32 => make_info(ComponentLayout::XD, 8, 24, 0, 0, TextureFormatType::UNORM),
            TextureFormat::D32_SFLOAT => make_info(ComponentLayout::D, 32, 0, 0, 0, TextureFormatType::SFLOAT),
            TextureFormat::S8_UINT => make_info(ComponentLayout::S, 8, 0, 0, 0, TextureFormatType::UINT),
            TextureFormat::D16_UNORM_S8_UINT => make_info(ComponentLayout::DS, 16, 8, 0, 0, TextureFormatType::UNORM_UINT),
            TextureFormat::D24_UNORM_S8_UINT => make_info(ComponentLayout::DS, 24, 8, 0, 0, TextureFormatType::UNORM_UINT),
            TextureFormat::D32_SFLOAT_S8_UINT => make_info(ComponentLayout::DS, 32, 8, 0, 0, TextureFormatType::SFLOAT_UINT),
            TextureFormat::BC1_RGB_UNORM_BLOCK => make_info(ComponentLayout::RGB, 0, 0, 0, 0, TextureFormatType::UNORM),
            TextureFormat::BC1_RGB_SRGB_BLOCK => make_info(ComponentLayout::RGB, 0, 0, 0, 0, TextureFormatType::SRGB),
            TextureFormat::BC1_RGBA_UNORM_BLOCK => make_info(ComponentLayout::RGBA, 0, 0, 0, 0, TextureFormatType::UNORM),
            TextureFormat::BC1_RGBA_SRGB_BLOCK => make_info(ComponentLayout::RGBA, 0, 0, 0, 0, TextureFormatType::SRGB),
            TextureFormat::BC2_UNORM_BLOCK => make_info(ComponentLayout::RGBA, 0, 0, 0, 0, TextureFormatType::UNORM),
            TextureFormat::BC2_SRGB_BLOCK => make_info(ComponentLayout::RGBA, 0, 0, 0, 0, TextureFormatType::SRGB),
            TextureFormat::BC3_UNORM_BLOCK => make_info(ComponentLayout::RGBA, 0, 0, 0, 0, TextureFormatType::UNORM),
            TextureFormat::BC3_SRGB_BLOCK => make_info(ComponentLayout::RGBA, 0, 0, 0, 0, TextureFormatType::SRGB),
            TextureFormat::BC4_UNORM_BLOCK => make_info(ComponentLayout::R, 0, 0, 0, 0, TextureFormatType::UNORM),
            TextureFormat::BC4_SNORM_BLOCK => make_info(ComponentLayout::R, 0, 0, 0, 0, TextureFormatType::SNORM),
            TextureFormat::BC5_UNORM_BLOCK => make_info(ComponentLayout::RG, 0, 0, 0, 0, TextureFormatType::UNORM),
            TextureFormat::BC5_SNORM_BLOCK => make_info(ComponentLayout::RG, 0, 0, 0, 0, TextureFormatType::SNORM),
            TextureFormat::BC6H_UFLOAT_BLOCK => make_info(ComponentLayout::RGB, 0, 0, 0, 0, TextureFormatType::UFLOAT),
            TextureFormat::BC6H_SFLOAT_BLOCK => make_info(ComponentLayout::RGB, 0, 0, 0, 0, TextureFormatType::SFLOAT),
            TextureFormat::BC7_UNORM_BLOCK => make_info(ComponentLayout::RGBA, 0, 0, 0, 0, TextureFormatType::UNORM),
            TextureFormat::BC7_SRGB_BLOCK => make_info(ComponentLayout::RGBA, 0, 0, 0, 0, TextureFormatType::SRGB),
            TextureFormat::ETC2_R8G8B8_UNORM_BLOCK => make_info(ComponentLayout::RGB, 0, 0, 0, 0, TextureFormatType::UNORM),
            TextureFormat::ETC2_R8G8B8_SRGB_BLOCK => make_info(ComponentLayout::RGB, 0, 0, 0, 0, TextureFormatType::SRGB),
            TextureFormat::ETC2_R8G8B8A1_UNORM_BLOCK => make_info(ComponentLayout::RGBA, 0, 0, 0, 0, TextureFormatType::UNORM),
            TextureFormat::ETC2_R8G8B8A1_SRGB_BLOCK => make_info(ComponentLayout::RGBA, 0, 0, 0, 0, TextureFormatType::SRGB),
            TextureFormat::ETC2_R8G8B8A8_UNORM_BLOCK => make_info(ComponentLayout::RGBA, 0, 0, 0, 0, TextureFormatType::UNORM),
            TextureFormat::ETC2_R8G8B8A8_SRGB_BLOCK => make_info(ComponentLayout::RGBA, 0, 0, 0, 0, TextureFormatType::SRGB),
            TextureFormat::EAC_R11_UNORM_BLOCK => make_info(ComponentLayout::R, 0, 0, 0, 0, TextureFormatType::UNORM),
            TextureFormat::EAC_R11_SNORM_BLOCK => make_info(ComponentLayout::R, 0, 0, 0, 0, TextureFormatType::SNORM),
            TextureFormat::EAC_R11G11_UNORM_BLOCK => make_info(ComponentLayout::RG, 0, 0, 0, 0, TextureFormatType::UNORM),
            TextureFormat::EAC_R11G11_SNORM_BLOCK => make_info(ComponentLayout::RG, 0, 0, 0, 0, TextureFormatType::SNORM),
            TextureFormat::ASTC_4x4_UNORM_BLOCK => make_info(ComponentLayout::RGBA, 0, 0, 0, 0, TextureFormatType::UNORM),
            TextureFormat::ASTC_4x4_SRGB_BLOCK => make_info(ComponentLayout::RGBA, 0, 0, 0, 0, TextureFormatType::SRGB),
            TextureFormat::ASTC_5x4_UNORM_BLOCK => make_info(ComponentLayout::RGBA, 0, 0, 0, 0, TextureFormatType::UNORM),
            TextureFormat::ASTC_5x4_SRGB_BLOCK => make_info(ComponentLayout::RGBA, 0, 0, 0, 0, TextureFormatType::SRGB),
            TextureFormat::ASTC_5x5_UNORM_BLOCK => make_info(ComponentLayout::RGBA, 0, 0, 0, 0, TextureFormatType::UNORM),
            TextureFormat::ASTC_5x5_SRGB_BLOCK => make_info(ComponentLayout::RGBA, 0, 0, 0, 0, TextureFormatType::SRGB),
            TextureFormat::ASTC_6x5_UNORM_BLOCK => make_info(ComponentLayout::RGBA, 0, 0, 0, 0, TextureFormatType::UNORM),
            TextureFormat::ASTC_6x5_SRGB_BLOCK => make_info(ComponentLayout::RGBA, 0, 0, 0, 0, TextureFormatType::SRGB),
            TextureFormat::ASTC_6x6_UNORM_BLOCK => make_info(ComponentLayout::RGBA, 0, 0, 0, 0, TextureFormatType::UNORM),
            TextureFormat::ASTC_6x6_SRGB_BLOCK => make_info(ComponentLayout::RGBA, 0, 0, 0, 0, TextureFormatType::SRGB),
            TextureFormat::ASTC_8x5_UNORM_BLOCK => make_info(ComponentLayout::RGBA, 0, 0, 0, 0, TextureFormatType::UNORM),
            TextureFormat::ASTC_8x5_SRGB_BLOCK => make_info(ComponentLayout::RGBA, 0, 0, 0, 0, TextureFormatType::SRGB),
            TextureFormat::ASTC_8x6_UNORM_BLOCK => make_info(ComponentLayout::RGBA, 0, 0, 0, 0, TextureFormatType::UNORM),
            TextureFormat::ASTC_8x6_SRGB_BLOCK => make_info(ComponentLayout::RGBA, 0, 0, 0, 0, TextureFormatType::SRGB),
            TextureFormat::ASTC_8x8_UNORM_BLOCK => make_info(ComponentLayout::RGBA, 0, 0, 0, 0, TextureFormatType::UNORM),
            TextureFormat::ASTC_8x8_SRGB_BLOCK => make_info(ComponentLayout::RGBA, 0, 0, 0, 0, TextureFormatType::SRGB),
            TextureFormat::ASTC_10x5_UNORM_BLOCK => make_info(ComponentLayout::RGBA, 0, 0, 0, 0, TextureFormatType::UNORM),
            TextureFormat::ASTC_10x5_SRGB_BLOCK => make_info(ComponentLayout::RGBA, 0, 0, 0, 0, TextureFormatType::SRGB),
            TextureFormat::ASTC_10x6_UNORM_BLOCK => make_info(ComponentLayout::RGBA, 0, 0, 0, 0, TextureFormatType::UNORM),
            TextureFormat::ASTC_10x6_SRGB_BLOCK => make_info(ComponentLayout::RGBA, 0, 0, 0, 0, TextureFormatType::SRGB),
            TextureFormat::ASTC_10x8_UNORM_BLOCK => make_info(ComponentLayout::RGBA, 0, 0, 0, 0, TextureFormatType::UNORM),
            TextureFormat::ASTC_10x8_SRGB_BLOCK => make_info(ComponentLayout::RGBA, 0, 0, 0, 0, TextureFormatType::SRGB),
            TextureFormat::ASTC_10x10_UNORM_BLOCK => make_info(ComponentLayout::RGBA, 0, 0, 0, 0, TextureFormatType::UNORM),
            TextureFormat::ASTC_10x10_SRGB_BLOCK => make_info(ComponentLayout::RGBA, 0, 0, 0, 0, TextureFormatType::SRGB),
            TextureFormat::ASTC_12x10_UNORM_BLOCK => make_info(ComponentLayout::RGBA, 0, 0, 0, 0, TextureFormatType::UNORM),
            TextureFormat::ASTC_12x10_SRGB_BLOCK => make_info(ComponentLayout::RGBA, 0, 0, 0, 0, TextureFormatType::SRGB),
            TextureFormat::ASTC_12x12_UNORM_BLOCK => make_info(ComponentLayout::RGBA, 0, 0, 0, 0, TextureFormatType::UNORM),
            TextureFormat::ASTC_12x12_SRGB_BLOCK => make_info(ComponentLayout::RGBA, 0, 0, 0, 0, TextureFormatType::SRGB),
        }
    }
}

/// OpenGL storage format of a texture format, with the matching external format
/// and element type for uploads and reads (so that no conversion is needed).
#[derive(Clone, Copy, Debug, PartialEq, Eq, Structural)]
pub struct GlFormatInfo {
    pub internal_fmt: u32,
    pub upload_components: u32,
    pub upload_ty: u32,
}

/// The texture formats that have an OpenGL counterpart in this renderer.
pub open spec fn gl_format_supported(f: TextureFormat) -> bool {
        ||| f == TextureFormat::R8_UNORM
        ||| f == TextureFormat::R8_SNORM
        ||| f == TextureFormat::R8_UINT
        ||| f == TextureFormat::R8_SINT
        ||| f == TextureFormat::R16G16_SFLOAT
        ||| f == TextureFormat::R16G16B16A16_SFLOAT
        ||| f == TextureFormat::R32G32_SFLOAT
        ||| f == TextureFormat::R32G32B32A32_SFLOAT
        ||| f == TextureFormat::R8G8B8A8_UNORM
        ||| f == TextureFormat::R8G8B8A8_SNORM
        ||| f == TextureFormat::R8G8B8A8_UINT
        ||| f == TextureFormat::R8G8B8A8_SINT
        ||| f == TextureFormat::R8G8B8_SRGB
        ||| f == TextureFormat::R8G8B8A8_SRGB
}

/// The OpenGL format of a supported texture format.
pub open spec fn spec_gl_format_info(f: TextureFormat) -> GlFormatInfo
    recommends
        gl_format_supported(f),
{
    match f {
        TextureFormat::R8_UNORM => GlFormatInfo { internal_fmt: gl_enums::GL_R8, upload_components: gl_enums::GL_RED, upload_ty: gl_enums::GL_UNSIGNED_BYTE },
        TextureFormat::R8_SNORM => GlFormatInfo { internal_fmt: gl_enums::GL_R8_SNORM, upload_components: gl_enums::GL_RED, upload_ty: gl_enums::GL_BYTE },
        TextureFormat::R8_UINT => GlFormatInfo { internal_fmt: gl_enums::GL_R8UI, upload_components: gl_enums::GL_RED, upload_ty: gl_enums::GL_UNSIGNED_BYTE },
        TextureFormat::R8_SINT => GlFormatInfo { internal_fmt: gl_enums::GL_R8I, upload_components: gl_enums::GL_RED, upload_ty: gl_enums::GL_BYTE },
        TextureFormat::R16G16_SFLOAT => GlFormatInfo { internal_fmt: gl_enums::GL_RG16F, upload_components: gl_enums::GL_RG, upload_ty: gl_enums::GL_FLOAT },
        TextureFormat::R16G16B16A16_SFLOAT => GlFormatInfo { internal_fmt: gl_enums::GL_RGBA16F, upload_components: gl_enums::GL_RGBA, upload_ty: gl_enums::GL_FLOAT },
        TextureFormat::R32G32_SFLOAT => GlFormatInfo { internal_fmt: gl_enums::GL_RG32F, upload_components: gl_enums::GL_RG, upload_ty: gl_enums::GL_FLOAT },
        TextureFormat::R32G32B32A32_SFLOAT => GlFormatInfo { internal_fmt: gl_enums::GL_RGBA32F, upload_components: gl_enums::GL_RGBA, upload_ty: gl_enums::GL_FLOAT },
        TextureFormat::R8G8B8A8_UNORM => GlFormatInfo { internal_fmt: gl_enums::GL_RGBA8, upload_components: gl_enums::GL_RGBA, upload_ty: gl_enums::GL_UNSIGNED_BYTE },
        TextureFormat::R8G8B8A8_SNORM => GlFormatInfo { internal_fmt: gl_enums::GL_RGBA8_SNORM, upload_components: gl_enums::GL_RGBA, upload_ty: gl_enums::GL_BYTE },
        TextureFormat::R8G8B8A8_UINT => GlFormatInfo { internal_fmt: gl_enums::GL_RGBA8UI, upload_components: gl_enums::GL_RGBA, upload_ty: gl_enums::GL_UNSIGNED_BYTE },
        TextureFormat::R8G8B8A8_SINT => GlFormatInfo { internal_fmt: gl_enums::GL_RGBA8I, upload_components: gl_enums::GL_RGBA, upload_ty: gl_enums::GL_BYTE },
        TextureFormat::R8G8B8_SRGB => GlFormatInfo { internal_fmt: gl_enums::GL_SRGB8, upload_components: gl_enums::GL_RGB, upload_ty: gl_enums::GL_UNSIGNED_BYTE },
        TextureFormat::R8G8B8A8_SRGB => GlFormatInfo { internal_fmt: gl_enums::GL_SRGB8_ALPHA8, upload_components: gl_enums::GL_RGBA, upload_ty: gl_enums::GL_UNSIGNED_BYTE },
        _ => GlFormatInfo { internal_fmt: 0, upload_components: 0, upload_ty: 0 },
    }
}

/// What an OpenGL sized internal format stores, as the GL specification
/// defines it: the number of channels, the bits per channel and the kind of
/// component (sRGB-encoded, normalized, integer or float); `None` for the
/// other GL values.
pub open spec fn gl_internal_desc(e: u32) -> Option<(int, int, TextureFormatType)> {
    if e == gl_enums::GL_R8 {
        Some((1, 8, TextureFormatType::UNORM))
    } else if e == gl_enums::GL_R8_SNORM {
        Some((1, 8, TextureFormatType::SNORM))
    } else if e == gl_enums::GL_R8UI {
        Some((1, 8, TextureFormatType::UINT))
    } else if e == gl_enums::GL_R8I {
        Some((1, 8, TextureFormatType::SINT))
    } else if e == gl_enums::GL_RG16F {
        Some((2, 16, TextureFormatType::SFLOAT))
    } else if e == gl_enums::GL_RGBA16F {
        Some((4, 16, TextureFormatType::SFLOAT))
    } else if e == gl_enums::GL_RG32F {
        Some((2, 32, TextureFormatType::SFLOAT))
    } else if e == gl_enums::GL_RGBA32F {
        Some((4, 32, TextureFormatType::SFLOAT))
    } else if e == gl_enums::GL_RGBA8 {
        Some((4, 8, TextureFormatType::UNORM))
    } else if e == gl_enums::GL_RGBA8_SNORM {
        Some((4, 8, TextureFormatType::SNORM))
    } else if e == gl_enums::GL_RGBA8UI {
        Some((4, 8, TextureFormatType::UINT))
    } else if e == gl_enums::GL_RGBA8I {
        Some((4, 8, TextureFormatType::SINT))
    } else if e == gl_enums::GL_SRGB8 {
        Some((3, 8, TextureFormatType::SRGB))
    } else if e == gl_enums::GL_SRGB8_ALPHA8 {
        Some((4, 8, TextureFormatType::SRGB))
    } else {
        None
    }
}

/// The number of channels of an OpenGL pixel-data format (`GL_RED` to
/// `GL_RGBA`), 0 for other values.
pub open spec fn gl_upload_channels(e: u32) -> int {
    if e == gl_enums::GL_RED {
        1
    } else if e == gl_enums::GL_RG {
        2
    } else if e == gl_enums::GL_RGB {
        3
    } else if e == gl_enums::GL_RGBA {
        4
    } else {
        0
    }
}

/// The number of channels of a format: its components with a bit count.
pub open spec fn channel_count(info: TextureFormatInfo) -> int {
    (if info.component_bits[0] != 0 { 1int } else { 0int }) + (if info.component_bits[1] != 0 {
        1int
    } else {
        0int
    }) + (if info.component_bits[2] != 0 { 1int } else { 0int }) + (if info.component_bits[3]
        != 0 {
        1int
    } else {
        0int
    })
}

/// The GL type in which texel data of a format is uploaded: floats for float
/// formats, signed bytes for signed ones, unsigned bytes for the others.
pub open spec fn upload_type_for(ty: TextureFormatType) -> u32 {
    if ty == TextureFormatType::SFLOAT {
        gl_enums::GL_FLOAT
    } else if ty == TextureFormatType::SNORM || ty == TextureFormatType::SINT {
        gl_enums::GL_BYTE
    } else {
        gl_enums::GL_UNSIGNED_BYTE
    }
}

/// The OpenGL format of each supported texture format keeps what the format
/// stores: the internal format has the format's channels, bits per channel
/// and kind of component (so an sRGB format gets an sRGB internal format,
/// a normalized one a normalized one, and so on); the upload format has its
/// channels, and the upload type follows the kind of component.
pub proof fn lemma_gl_format_keeps_format(f: TextureFormat)
    requires
        gl_format_supported(f),
    ensures
        gl_internal_desc(spec_gl_format_info(f).internal_fmt) == Some(
            (
                channel_count(f.spec_info()),
                f.spec_info().component_bits[0] as int,
                f.spec_info().format_type,
            ),
        ),
        gl_upload_channels(spec_gl_format_info(f).upload_components) == channel_count(f.spec_info()),
        spec_gl_format_info(f).upload_ty == upload_type_for(f.spec_info().format_type),
        (spec_gl_format_info(f).internal_fmt == gl_enums::GL_SRGB8 || spec_gl_format_info(
            f,
        ).internal_fmt == gl_enums::GL_SRGB8_ALPHA8) <==> f.spec_info().format_type
            == TextureFormatType::SRGB,
{
}

impl GlFormatInfo {
    /// The OpenGL format for `fmt`. Unsupported formats are outside the domain
    /// (the renderer aborts on them).
    pub fn from_texture_format(fmt: TextureFormat) -> (r: GlFormatInfo)
        requires
            gl_format_supported(fmt),
        ensures
            r == spec_gl_format_info(fmt),
    {
        match fmt {
            TextureFormat::R8_UNORM => GlFormatInfo { internal_fmt: gl_enums::GL_R8, upload_components: gl_enums::GL_RED, upload_ty: gl_enums::GL_UNSIGNED_BYTE },
            TextureFormat::R8_SNORM => GlFormatInfo { internal_fmt: gl_enums::GL_R8_SNORM, upload_components: gl_enums::GL_RED, upload_ty: gl_enums::GL_BYTE },
            TextureFormat::R8_UINT => GlFormatInfo { internal_fmt: gl_enums::GL_R8UI, upload_components: gl_enums::GL_RED, upload_ty: gl_enums::GL_UNSIGNED_BYTE },
            TextureFormat::R8_SINT => GlFormatInfo { internal_fmt: gl_enums::GL_R8I, upload_components: gl_enums::GL_RED, upload_ty: gl_enums::GL_BYTE },
            TextureFormat::R16G16_SFLOAT => GlFormatInfo { internal_fmt: gl_enums::GL_RG16F, upload_components: gl_enums::GL_RG, upload_ty: gl_enums::GL_FLOAT },
            TextureFormat::R16G16B16A16_SFLOAT => GlFormatInfo { internal_fmt: gl_enums::GL_RGBA16F, upload_components: gl_enums::GL_RGBA, upload_ty: gl_enums::GL_FLOAT },
            TextureFormat::R32G32_SFLOAT => GlFormatInfo { internal_fmt: gl_enums::GL_RG32F, upload_components: gl_enums::GL_RG, upload_ty: gl_enums::GL_FLOAT },
            TextureFormat::R32G32B32A32_SFLOAT => GlFormatInfo { internal_fmt: gl_enums::GL_RGBA32F, upload_components: gl_enums::GL_RGBA, upload_ty: gl_enums::GL_FLOAT },
            TextureFormat::R8G8B8A8_UNORM => GlFormatInfo { internal_fmt: gl_enums::GL_RGBA8, upload_components: gl_enums::GL_RGBA, upload_ty: gl_enums::GL_UNSIGNED_BYTE },
            TextureFormat::R8G8B8A8_SNORM => GlFormatInfo { internal_fmt: gl_enums::GL_RGBA8_SNORM, upload_components: gl_enums::GL_RGBA, upload_ty: gl_enums::GL_BYTE },
            TextureFormat::R8G8B8A8_UINT => GlFormatInfo { internal_fmt: gl_enums::GL_RGBA8UI, upload_components: gl_enums::GL_RGBA, upload_ty: gl_enums::GL_UNSIGNED_BYTE },
            TextureFormat::R8G8B8A8_SINT => GlFormatInfo { internal_fmt: gl_enums::GL_RGBA8I, upload_components: gl_enums::GL_RGBA, upload_ty: gl_enums::GL_BYTE },
            TextureFormat::R8G8B8_SRGB => GlFormatInfo { internal_fmt: gl_enums::GL_SRGB8, upload_components: gl_enums::GL_RGB, upload_ty: gl_enums::GL_UNSIGNED_BYTE },
            TextureFormat::R8G8B8A8_SRGB => GlFormatInfo { internal_fmt: gl_enums::GL_SRGB8_ALPHA8, upload_components: gl_enums::GL_RGBA, upload_ty: gl_enums::GL_UNSIGNED_BYTE },
            _ => GlFormatInfo { internal_fmt: 0, upload_components: 0, upload_ty: 0 },
        }
    }

    /// The OpenGL format for `fmt`, or `None` for a format without one.
    pub fn try_from_texture_format(fmt: TextureFormat) -> (r: Option<GlFormatInfo>)
        ensures
            r == (if gl_format_supported(fmt) {
                Some(spec_gl_format_info(fmt))
            } else {
                None
            }),
    {
        match fmt {
            TextureFormat::R8_UNORM | TextureFormat::R8_SNORM | TextureFormat::R8_UINT
            | TextureFormat::R8_SINT | TextureFormat::R16G16_SFLOAT
            | TextureFormat::R16G16B16A16_SFLOAT | TextureFormat::R32G32_SFLOAT
            | TextureFormat::R32G32B32A32_SFLOAT | TextureFormat::R8G8B8A8_UNORM
            | TextureFormat::R8G8B8A8_SNORM | TextureFormat::R8G8B8A8_UINT
            | TextureFormat::R8G8B8A8_SINT | TextureFormat::R8G8B8_SRGB
            | TextureFormat::R8G8B8A8_SRGB => Some(GlFormatInfo::from_texture_format(fmt)),
            _ => None,
        }
    }
}

} // verus!
