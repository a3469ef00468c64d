//! OpenGL enumerant values used by the renderer (values from the Khronos registry).

use vstd::prelude::*;

verus! {

pub const GL_ZERO: u32 = 0x0000;
pub const GL_ONE: u32 = 0x0001;
pub const GL_NONE: u32 = 0x0000;
pub const GL_LINES: u32 = 0x0001;
pub const GL_TRIANGLES: u32 = 0x0004;
pub const GL_LEQUAL: u32 = 0x0203;
pub const GL_SRC_ALPHA: u32 = 0x0302;
pub const GL_ONE_MINUS_SRC_ALPHA: u32 = 0x0303;
pub const GL_FRONT_AND_BACK: u32 = 0x0408;
pub const GL_CCW: u32 = 0x0901;
pub const GL_BYTE: u32 = 0x1400;
pub const GL_UNSIGNED_BYTE: u32 = 0x1401;
pub const GL_UNSIGNED_SHORT: u32 = 0x1403;
pub const GL_UNSIGNED_INT: u32 = 0x1405;
pub const GL_SHORT: u32 = 0x1402;
pub const GL_FLOAT: u32 = 0x1406;
pub const GL_RED: u32 = 0x1903;
pub const GL_RGB: u32 = 0x1907;
pub const GL_RGBA: u32 = 0x1908;
pub const GL_FILL: u32 = 0x1B02;
pub const GL_FUNC_ADD: u32 = 0x8006;
pub const GL_RGBA8: u32 = 0x8058;
pub const GL_RG: u32 = 0x8227;
pub const GL_R8: u32 = 0x8229;
pub const GL_RG16F: u32 = 0x822F;
pub const GL_RG32F: u32 = 0x8230;
pub const GL_R8I: u32 = 0x8231;
pub const GL_R8UI: u32 = 0x8232;
pub const GL_RGBA32F: u32 = 0x8814;
pub const GL_RGBA16F: u32 = 0x881A;
pub const GL_SRGB8: u32 = 0x8C41;
pub const GL_SRGB8_ALPHA8: u32 = 0x8C43;
pub const GL_RGBA8UI: u32 = 0x8D7C;
pub const GL_RGBA8I: u32 = 0x8D8E;
pub const GL_R8_SNORM: u32 = 0x8F94;
pub const GL_RGBA8_SNORM: u32 = 0x8F97;
pub const GL_TEXTURE_1D: u32 = 0x0DE0;
pub const GL_TEXTURE_2D: u32 = 0x0DE1;
pub const GL_TEXTURE_3D: u32 = 0x806F;
pub const GL_TEXTURE_2D_MULTISAMPLE: u32 = 0x9100;

} // verus!
