use autograph::gl_enums;
use autograph::texture::get_texture_mip_map_count;
use autograph::texture::texture_target;
use autograph::texture::Texture;
use autograph::texture::TextureDesc;
use autograph::texture_format::ComponentLayout;
use autograph::texture_format::GlFormatInfo;
use autograph::texture_format::TextureDimensions;
use autograph::texture_format::TextureFormat;
use autograph::texture_format::TextureFormatType;

#[test]
fn rgba8_unorm_info() {
    let info = TextureFormat::R8G8B8A8_UNORM.get_format_info();
    assert_eq!(info.component_layout, ComponentLayout::RGBA);
    assert_eq!(info.component_bits, [8, 8, 8, 8]);
    assert_eq!(info.format_type, TextureFormatType::UNORM);
    assert!(!info.is_compressed());
    assert_eq!(info.byte_size(), 4);
}

#[test]
fn rgba32f_info() {
    let info = TextureFormat::R32G32B32A32_SFLOAT.get_format_info();
    assert_eq!(info.component_bits, [32, 32, 32, 32]);
    assert_eq!(info.format_type, TextureFormatType::SFLOAT);
    assert_eq!(info.byte_size(), 16);
}

#[test]
fn depth_format_info() {
    let info = TextureFormat::D32_SFLOAT.get_format_info();
    assert_eq!(info.component_layout, ComponentLayout::D);
    assert_eq!(info.byte_size(), 4);
}

#[test]
fn block_formats_are_compressed() {
    assert!(TextureFormat::BC1_RGB_UNORM_BLOCK.get_format_info().is_compressed());
    assert!(TextureFormat::UNDEFINED.get_format_info().is_compressed());
    assert!(!TextureFormat::R8_UNORM.get_format_info().is_compressed());
}

#[test]
fn packed_format_byte_size() {
    let info = TextureFormat::R4G4_UNORM_PACK8.get_format_info();
    assert_eq!(info.component_bits, [4, 4, 0, 0]);
    assert_eq!(info.byte_size(), 1);
}

#[test]
fn gl_format_of_rgba8() {
    let gl = GlFormatInfo::from_texture_format(TextureFormat::R8G8B8A8_UNORM);
    assert_eq!(gl.internal_fmt, gl_enums::GL_RGBA8);
    assert_eq!(gl.upload_components, gl_enums::GL_RGBA);
    assert_eq!(gl.upload_ty, gl_enums::GL_UNSIGNED_BYTE);
}

#[test]
fn gl_format_of_rgba32f() {
    let gl = GlFormatInfo::from_texture_format(TextureFormat::R32G32B32A32_SFLOAT);
    assert_eq!(gl.internal_fmt, gl_enums::GL_RGBA32F);
    assert_eq!(gl.upload_ty, gl_enums::GL_FLOAT);
}

#[test]
fn gl_enum_values_match_the_gl_crate() {
    assert_eq!(gl_enums::GL_RGBA8, gl::RGBA8);
    assert_eq!(gl_enums::GL_RGBA32F, gl::RGBA32F);
    assert_eq!(gl_enums::GL_SRGB8_ALPHA8, gl::SRGB8_ALPHA8);
    assert_eq!(gl_enums::GL_FLOAT, gl::FLOAT);
    assert_eq!(gl_enums::GL_UNSIGNED_BYTE, gl::UNSIGNED_BYTE);
    assert_eq!(gl_enums::GL_TRIANGLES, gl::TRIANGLES);
    assert_eq!(gl_enums::GL_LINES, gl::LINES);
    assert_eq!(gl_enums::GL_TEXTURE_2D_MULTISAMPLE, gl::TEXTURE_2D_MULTISAMPLE);
    assert_eq!(gl_enums::GL_TEXTURE_3D, gl::TEXTURE_3D);
    assert_eq!(gl_enums::GL_ONE_MINUS_SRC_ALPHA, gl::ONE_MINUS_SRC_ALPHA);
    assert_eq!(gl_enums::GL_LEQUAL, gl::LEQUAL);
}

#[test]
fn mip_map_counts() {
    assert_eq!(get_texture_mip_map_count(0, 0), 1);
    assert_eq!(get_texture_mip_map_count(1, 1), 1);
    assert_eq!(get_texture_mip_map_count(2, 1), 2);
    assert_eq!(get_texture_mip_map_count(256, 256), 9);
    assert_eq!(get_texture_mip_map_count(255, 17), 8);
    assert_eq!(get_texture_mip_map_count(1024, 768), 11);
    assert_eq!(get_texture_mip_map_count(1, 1025), 11);
    assert_eq!(get_texture_mip_map_count(u32::MAX, 0), 32);
}

#[test]
fn texture_targets() {
    let mut desc = TextureDesc::default();
    assert_eq!(texture_target(&desc), Some(gl_enums::GL_TEXTURE_2D));
    desc.sample_count = 4;
    assert_eq!(texture_target(&desc), Some(gl_enums::GL_TEXTURE_2D_MULTISAMPLE));
    desc.dimensions = TextureDimensions::Tex3D;
    assert_eq!(texture_target(&desc), Some(gl_enums::GL_TEXTURE_3D));
    desc.dimensions = TextureDimensions::TexCube;
    assert_eq!(texture_target(&desc), None);
}

#[test]
fn texture_getters() {
    let mut desc = TextureDesc::default();
    desc.width = 640;
    desc.height = 480;
    desc.depth = 1;
    let tex = Texture::from_object(7, &desc);
    assert_eq!(tex.width(), 640);
    assert_eq!(tex.height(), 480);
    desc.dimensions = TextureDimensions::Tex1D;
    desc.height = 0;
    assert_eq!(Texture::from_object(8, &desc).height(), 1);
    desc.dimensions = TextureDimensions::Tex1DArray;
    desc.height = 6;
    assert_eq!(Texture::from_object(9, &desc).height(), 6);
    assert_eq!(tex.depth(), 1);
    assert_eq!(tex.object(), 7);
    assert_eq!(tex.desc().format, TextureFormat::R8G8B8A8_UNORM);
    let gl = tex.upload_format((640, 480, 1), 640 * 480 * 4);
    assert_eq!(gl.internal_fmt, gl_enums::GL_RGBA8);
}

#[test]
fn component_bits_sum_to_the_named_width() {
    let cases = [
        (TextureFormat::R8G8B8A8_UNORM, 32u32),
        (TextureFormat::A2B10G10R10_UNORM_PACK32, 32),
        (TextureFormat::X8_D24_UNORM_PACK32, 32),
        (TextureFormat::D32_SFLOAT_S8_UINT, 40),
        (TextureFormat::D16_UNORM_S8_UINT, 24),
        (TextureFormat::R4G4_UNORM_PACK8, 8),
        (TextureFormat::R64G64B64A64_SFLOAT, 256),
    ];
    for (f, w) in cases {
        let bits: u32 = f.get_format_info().component_bits.iter().map(|b| *b as u32).sum();
        assert_eq!(bits, w, "{:?}", f);
    }
}
