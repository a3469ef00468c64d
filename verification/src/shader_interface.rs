//! Descriptions of shader interfaces: the host-side types of uniforms,
//! buffers, vertex attributes, render targets and textures that a pipeline
//! is checked against.

use vstd::prelude::*;
use crate::texture_format::TextureDimensions;
use crate::texture_format::TextureFormat;

verus! {

#[derive(Copy, Clone, Debug, PartialEq, Eq, Structural)]
pub enum PrimitiveType {
    Int,
    UnsignedInt,
    Half,
    Float,
    Double,
}

/// GLSL/SPIR-V types used to interface with shader programs.
/// i.e. the types used to describe a buffer interface.
#[derive(Debug)]
pub enum TypeDesc {
    Primitive(PrimitiveType),
    /// Array type, may have special alignment constraints
    Array(Box<TypeDesc>, usize),
    /// Vector type (ty,size), not all sizes are valid.
    Vector(PrimitiveType, u8),
    /// Matrix type (ty,rows,cols), not all combinations of rows and cols are valid.
    Matrix(PrimitiveType, u8, u8),
    /// A structure type: (offset, typedesc)
    Struct(Vec<(usize, TypeDesc)>),
    Unknown,
}

/// The host type `TypeDesc::Primitive(PrimitiveType::Float)`.
#[allow(non_snake_case)]
pub fn TYPE_FLOAT() -> (r: TypeDesc)
    ensures
        r == TypeDesc::Primitive(PrimitiveType::Float),
{
    TypeDesc::Primitive(PrimitiveType::Float)
}

/// The host type `TypeDesc::Primitive(PrimitiveType::Int)`.
#[allow(non_snake_case)]
pub fn TYPE_INT() -> (r: TypeDesc)
    ensures
        r == TypeDesc::Primitive(PrimitiveType::Int),
{
    TypeDesc::Primitive(PrimitiveType::Int)
}

/// The host type `TypeDesc::Vector(PrimitiveType::Float, 2)`.
#[allow(non_snake_case)]
pub fn TYPE_VEC2() -> (r: TypeDesc)
    ensures
        r == TypeDesc::Vector(PrimitiveType::Float, 2),
{
    TypeDesc::Vector(PrimitiveType::Float, 2)
}

/// The host type `TypeDesc::Vector(PrimitiveType::Float, 3)`.
#[allow(non_snake_case)]
pub fn TYPE_VEC3() -> (r: TypeDesc)
    ensures
        r == TypeDesc::Vector(PrimitiveType::Float, 3),
{
    TypeDesc::Vector(PrimitiveType::Float, 3)
}

/// The host type `TypeDesc::Vector(PrimitiveType::Float, 4)`.
#[allow(non_snake_case)]
pub fn TYPE_VEC4() -> (r: TypeDesc)
    ensures
        r == TypeDesc::Vector(PrimitiveType::Float, 4),
{
    TypeDesc::Vector(PrimitiveType::Float, 4)
}

/// The host type `TypeDesc::Vector(PrimitiveType::Int, 2)`.
#[allow(non_snake_case)]
pub fn TYPE_IVEC2() -> (r: TypeDesc)
    ensures
        r == TypeDesc::Vector(PrimitiveType::Int, 2),
{
    TypeDesc::Vector(PrimitiveType::Int, 2)
}

/// The host type `TypeDesc::Vector(PrimitiveType::Int, 3)`.
#[allow(non_snake_case)]
pub fn TYPE_IVEC3() -> (r: TypeDesc)
    ensures
        r == TypeDesc::Vector(PrimitiveType::Int, 3),
{
    TypeDesc::Vector(PrimitiveType::Int, 3)
}

/// The host type `TypeDesc::Vector(PrimitiveType::Int, 4)`.
#[allow(non_snake_case)]
pub fn TYPE_IVEC4() -> (r: TypeDesc)
    ensures
        r == TypeDesc::Vector(PrimitiveType::Int, 4),
{
    TypeDesc::Vector(PrimitiveType::Int, 4)
}

/// The host type `TypeDesc::Matrix(PrimitiveType::Float, 2, 2)`.
#[allow(non_snake_case)]
pub fn TYPE_MAT2() -> (r: TypeDesc)
    ensures
        r == TypeDesc::Matrix(PrimitiveType::Float, 2, 2),
{
    TypeDesc::Matrix(PrimitiveType::Float, 2, 2)
}

/// The host type `TypeDesc::Matrix(PrimitiveType::Float, 3, 3)`.
#[allow(non_snake_case)]
pub fn TYPE_MAT3() -> (r: TypeDesc)
    ensures
        r == TypeDesc::Matrix(PrimitiveType::Float, 3, 3),
{
    TypeDesc::Matrix(PrimitiveType::Float, 3, 3)
}

/// The host type `TypeDesc::Matrix(PrimitiveType::Float, 4, 4)`.
#[allow(non_snake_case)]
pub fn TYPE_MAT4() -> (r: TypeDesc)
    ensures
        r == TypeDesc::Matrix(PrimitiveType::Float, 4, 4),
{
    TypeDesc::Matrix(PrimitiveType::Float, 4, 4)
}

/// Describes a render target binding (a framebuffer attachement, in GL parlance)
#[derive(Clone, Debug)]
pub struct RenderTargetDesc {
    pub name: Option<String>,
    pub index: Option<u32>,
    pub format: Option<TextureFormat>,
}

/// A uniform constant: matched with the shader by location when `index` is
/// given, else by name; `ty` is its host-side type.
#[derive(Debug)]
pub struct UniformConstantDesc {
    pub name: Option<String>,
    pub index: Option<u32>,
    pub ty: TypeDesc,
}

/// An uniform buffer
#[derive(Debug)]
pub struct UniformBufferDesc {
    pub name: Option<String>,
    pub index: Option<u32>,
    /// This can be none if using an untyped buffer slice
    pub tydesc: Option<TypeDesc>,
}

/// Description of a vertex attribute.
#[derive(Debug)]
pub struct VertexAttributeDesc {
    /// Attribute name.
    pub name: Option<String>,
    /// Location.
    pub loc: u8,
    /// The equivalent OpenGL type.
    pub ty: TypeDesc,
    /// Storage format of the vertex attribute.
    pub format: TextureFormat,
    /// Relative offset.
    pub offset: u8,
}

/// The layout of vertex data in a vertex buffer.
#[derive(Debug)]
pub struct VertexLayout {
    pub attributes: Vec<VertexAttributeDesc>,
    pub stride: usize,
}

/// An input buffer for vertex data
#[derive(Debug)]
pub struct VertexBufferDesc {
    pub name: Option<String>,
    pub index: Option<u32>,
    pub layout: VertexLayout,
}

/// An input buffer for indices
#[derive(Clone, Copy, Debug)]
pub struct IndexBufferDesc {
    pub format: TextureFormat,
}

/// Texture basic data type (NOT storage format)
#[derive(Copy, Clone, Debug, PartialEq, Eq, Structural)]
pub enum TextureDataType {
    Float,
    Integer,
    UnsignedInteger,
}

/// Represents a texture binding expected by a shader.
/// The shader should not specify a particular storage format but rather the component type
/// of the texture elements (either float, integer, or unsigned)
#[derive(Clone, Debug)]
pub struct TextureBindingDesc {
    /// name of the texture binding in shader, can be None.
    /// name and index should not be both None
    pub name: Option<String>,
    /// index (texture uint) of the texture binding in shader, can be None.
    /// name and index should not be both None
    pub index: Option<u32>,
    /// Basic data type of the texture (if known)
    pub data_type: Option<TextureDataType>,
    /// dimensions (if known)
    pub dimensions: Option<TextureDimensions>,
}

/// Descriptions of shader interfaces: the bindings defined in a shader
/// interface.
#[derive(Debug)]
pub struct ShaderInterfaceDesc {
    pub uniform_buffers: Vec<UniformBufferDesc>,
    pub uniform_constants: Vec<UniformConstantDesc>,
    pub render_targets: Vec<RenderTargetDesc>,
    pub vertex_buffers: Vec<VertexBufferDesc>,
    pub index_buffer: Option<IndexBufferDesc>,
    pub texture_bindings: Vec<TextureBindingDesc>,
}

impl ShaderInterfaceDesc {
    /// Returns the list of uniform buffers
    pub fn get_uniform_buffers(&self) -> (r: &[UniformBufferDesc])
        ensures
            r@ == self.uniform_buffers@,
    {
        self.uniform_buffers.as_slice()
    }

    /// Returns the list of named uniform items
    pub fn get_uniform_constants(&self) -> (r: &[UniformConstantDesc])
        ensures
            r@ == self.uniform_constants@,
    {
        self.uniform_constants.as_slice()
    }

    /// Returns the list of render target items
    pub fn get_render_targets(&self) -> (r: &[RenderTargetDesc])
        ensures
            r@ == self.render_targets@,
    {
        self.render_targets.as_slice()
    }

    /// Returns the list of vertex buffer items
    pub fn get_vertex_buffers(&self) -> (r: &[VertexBufferDesc])
        ensures
            r@ == self.vertex_buffers@,
    {
        self.vertex_buffers.as_slice()
    }

    /// Returns the index buffer item, if any
    pub fn get_index_buffer(&self) -> (r: Option<&IndexBufferDesc>)
        ensures
            match r {
                Some(b) => self.index_buffer == Some(*b),
                None => self.index_buffer is None,
            },
    {
        match &self.index_buffer {
            Some(b) => Some(b),
            None => None,
        }
    }

    /// Returns the list of texture/sampler pairs
    pub fn get_texture_bindings(&self) -> (r: &[TextureBindingDesc])
        ensures
            r@ == self.texture_bindings@,
    {
        self.texture_bindings.as_slice()
    }
}

/// Types that can be bound to the pipeline as a texture: what is known of
/// their data type and dimensions.
pub trait TextureInterface {
    fn get_data_type() -> Option<TextureDataType>;

    fn get_dimensions() -> Option<TextureDimensions>;
}

impl TextureInterface for crate::texture::Texture {
    /// A texture of any kind: its data type is not known statically.
    fn get_data_type() -> (r: Option<TextureDataType>)
        ensures
            r is None,
    {
        None
    }

    /// A texture of any kind: its dimensions are not known statically.
    fn get_dimensions() -> (r: Option<TextureDimensions>)
        ensures
            r is None,
    {
        None
    }
}

/// Types that can serve as a vertex attribute: the type the shader sees and
/// the layout of the data in memory.
pub trait VertexAttributeType {
    fn equivalent_type() -> TypeDesc;

    fn format() -> TextureFormat;
}

/// Types that can serve as indices: the layout of an index in memory.
pub trait IndexElementType {
    fn format() -> TextureFormat;
}

impl IndexElementType for u16 {
    fn format() -> (r: TextureFormat)
        ensures
            r == TextureFormat::R16_UINT,
    {
        TextureFormat::R16_UINT
    }
}

impl IndexElementType for u32 {
    fn format() -> (r: TextureFormat)
        ensures
            r == TextureFormat::R32_UINT,
    {
        TextureFormat::R32_UINT
    }
}

/// Types whose memory layout matches a GLSL/SPIR-V type.
pub trait BufferLayout {
    fn get_description() -> TypeDesc;
}

/// Types that can be bound with a variant of `glProgramUniform`.
pub trait UniformInterface {
    fn get_description() -> TypeDesc;
}

impl UniformInterface for i32 {
    fn get_description() -> (r: TypeDesc)
        ensures
            r == TypeDesc::Primitive(PrimitiveType::Int),
    {
        TypeDesc::Primitive(PrimitiveType::Int)
    }
}

impl UniformInterface for [i32; 2] {
    fn get_description() -> (r: TypeDesc)
        ensures
            r == TypeDesc::Vector(PrimitiveType::Int, 2),
    {
        TypeDesc::Vector(PrimitiveType::Int, 2)
    }
}

impl UniformInterface for [i32; 3] {
    fn get_description() -> (r: TypeDesc)
        ensures
            r == TypeDesc::Vector(PrimitiveType::Int, 3),
    {
        TypeDesc::Vector(PrimitiveType::Int, 3)
    }
}

impl UniformInterface for [i32; 4] {
    fn get_description() -> (r: TypeDesc)
        ensures
            r == TypeDesc::Vector(PrimitiveType::Int, 4),
    {
        TypeDesc::Vector(PrimitiveType::Int, 4)
    }
}

/// Types that can be bound as a buffer object: the layout of the buffer
/// data, if it is known.
pub trait BufferInterface {
    fn get_layout() -> Option<TypeDesc>;
}

/// Types that are the vertices of a vertex buffer: their layout.
pub trait VertexType {
    fn get_layout() -> VertexLayout;
}

} // verus!
