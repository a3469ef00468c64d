//! Verified core of the autograph renderer: texture formats, the upload ring
//! buffer, fences, SPIR-V parsing and interface checking, and the combined
//! GLSL source preprocessor.

pub mod gl_enums;
pub mod texture_format;
pub mod texture;
pub mod state_group;
pub mod resources;
pub mod pipeline;
pub mod draw;
pub mod framebuffer;
pub mod fence;
pub mod upload_buffer;
pub mod spirv_enums;
pub mod spirv_parse;
pub mod shader_interface;
pub mod shader;
pub mod interface;
pub mod glsl;
pub mod glsl_text;
pub mod preprocessor;
pub mod rendergraph_types;
pub mod framegraph;
pub mod state_cache;
pub mod scene_object;
