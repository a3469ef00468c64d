use autograph::draw::index_buffer_type;
use autograph::draw::index_byte_offset;
use autograph::framegraph::alloc_as_buffer_slice;
use autograph::framegraph::alloc_as_texture;
use autograph::framegraph::AliasedResource;
use autograph::framegraph::ResourceInfo;
use autograph::framegraph::ResourceUsage;
use autograph::framegraph::Texture2DInit;
use autograph::framegraph::ToResourceInfo;
use autograph::preprocessor::is_macro_definition;
use autograph::shader_interface::IndexElementType;
use autograph::shader_interface::PrimitiveType;
use autograph::shader_interface::TextureInterface;
use autograph::shader_interface::TypeDesc;
use autograph::shader_interface::UniformInterface;
use autograph::state_cache::StateCache;
use autograph::texture::Texture;
use autograph::texture::TextureDesc;
use autograph::texture_format::GlFormatInfo;
use autograph::texture_format::TextureDimensions;
use autograph::texture_format::TextureFormat;

#[test]
fn state_cache_skips_rebinding() {
    let mut cache = StateCache::new();
    assert!(cache.set_graphics_pipeline(3));
    assert!(!cache.set_graphics_pipeline(3));
    assert!(cache.set_graphics_pipeline(4));
    assert!(cache.set_target(0));
    assert!(!cache.set_target(0));
    assert!(!cache.set_graphics_pipeline(4));
    assert!(cache.set_target(7));
}

#[test]
fn index_formats() {
    assert_eq!(<u16 as IndexElementType>::format(), TextureFormat::R16_UINT);
    assert_eq!(<u32 as IndexElementType>::format(), TextureFormat::R32_UINT);
}

#[test]
fn uniform_descriptions() {
    assert!(matches!(<i32 as UniformInterface>::get_description(), TypeDesc::Primitive(PrimitiveType::Int)));
    assert!(matches!(<[i32; 3] as UniformInterface>::get_description(), TypeDesc::Vector(PrimitiveType::Int, 3)));
}

#[test]
fn any_texture_interface() {
    assert!(<Texture as TextureInterface>::get_data_type().is_none());
    assert!(<Texture as TextureInterface>::get_dimensions().is_none());
}

#[test]
fn texture2d_init_round_trip() {
    let init = Texture2DInit::default();
    assert_eq!(init.width, 512);
    assert_eq!(init.format, TextureFormat::R8G8B8A8_SRGB);
    let info = init.to_resource_info();
    match info {
        ResourceInfo::Texture { desc } => {
            assert_eq!(desc.dimensions, TextureDimensions::Tex2D);
            assert_eq!(desc.depth, 1);
            assert_eq!(desc.mip_map_count, 1);
        }
        _ => panic!("expected a texture"),
    }
    let back = Texture2DInit::from_resource_info(&info).unwrap();
    assert_eq!(back.width, 512);
    assert_eq!(back.usage, ResourceUsage::Default);
    assert!(Texture2DInit::from_resource_info(&ResourceInfo::Buffer { byte_size: 4 }).is_none());
}

#[test]
fn allocation_kinds() {
    let t = AliasedResource::Texture { desc: TextureDesc::default() };
    let b = AliasedResource::Buffer { byte_size: 64 };
    assert_eq!(alloc_as_texture(&t), Some(&TextureDesc::default()));
    assert_eq!(alloc_as_texture(&b), None);
    assert_eq!(alloc_as_buffer_slice(&b), Some(64));
    assert_eq!(alloc_as_buffer_slice(&t), None);
}

#[test]
fn macro_definitions() {
    assert!(is_macro_definition("FOO"));
    assert!(is_macro_definition("FOO=1"));
    assert!(is_macro_definition("FOO="));
    assert!(!is_macro_definition(""));
    assert!(!is_macro_definition("=1"));
    assert!(!is_macro_definition("FOO BAR"));
    assert!(!is_macro_definition("FOO=1 2"));
}

#[test]
fn gl_formats_of_texture_formats() {
    let f = GlFormatInfo::try_from_texture_format(TextureFormat::R8G8B8A8_UNORM).unwrap();
    assert_eq!(f.internal_fmt, gl::RGBA8);
    assert_eq!(f.upload_components, gl::RGBA);
    assert_eq!(f.upload_ty, gl::UNSIGNED_BYTE);
    assert!(GlFormatInfo::try_from_texture_format(TextureFormat::UNDEFINED).is_none());
}

#[test]
fn index_types_and_offsets() {
    assert_eq!(index_buffer_type(4), Some(gl::UNSIGNED_INT));
    assert_eq!(index_buffer_type(2), Some(gl::UNSIGNED_SHORT));
    assert_eq!(index_buffer_type(1), None);
    assert_eq!(index_byte_offset(256, 10, 4), 296);
}

#[test]
fn macro_names_take_unicode_word_characters() {
    assert!(is_macro_definition("É=1"));
    assert!(is_macro_definition("größe=ü2"));
    assert!(is_macro_definition("x٣"));
    assert!(!is_macro_definition("A-B"));
    assert!(!is_macro_definition("A=€"));
}
