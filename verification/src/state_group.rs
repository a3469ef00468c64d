//! Fixed-function pipeline state: blending and depth/stencil testing.

use vstd::prelude::*;
use crate::gl_enums;

verus! {

/// Blending of one render target.
#[derive(Copy, Clone, Debug, Hash, PartialEq, Eq, Structural)]
pub struct BlendState {
    pub enabled: bool,
    pub mode_rgb: u32,
    pub mode_alpha: u32,
    pub func_src_rgb: u32,
    pub func_dst_rgb: u32,
    pub func_src_alpha: u32,
    pub func_dst_alpha: u32,
}

impl Default for BlendState {
    /// Blending disabled.
    fn default() -> (r: BlendState)
        ensures
            r == (BlendState {
                enabled: false,
                mode_rgb: 0,
                mode_alpha: 0,
                func_src_rgb: 0,
                func_dst_rgb: 0,
                func_src_alpha: 0,
                func_dst_alpha: 0,
            }),
    {
        BlendState {
            enabled: false,
            mode_rgb: 0,
            mode_alpha: 0,
            func_src_rgb: 0,
            func_dst_rgb: 0,
            func_src_alpha: 0,
            func_dst_alpha: 0,
        }
    }
}

impl BlendState {
    /// Standard alpha blending: source color weighted by source alpha, added
    /// to the destination color weighted by one minus source alpha; the
    /// source alpha is kept.
    pub fn alpha_blending() -> (r: BlendState)
        ensures
            r == (BlendState {
                enabled: true,
                mode_rgb: gl_enums::GL_FUNC_ADD,
                mode_alpha: gl_enums::GL_FUNC_ADD,
                func_src_rgb: gl_enums::GL_SRC_ALPHA,
                func_dst_rgb: gl_enums::GL_ONE_MINUS_SRC_ALPHA,
                func_src_alpha: gl_enums::GL_ONE,
                func_dst_alpha: gl_enums::GL_ZERO,
            }),
    {
        BlendState {
            enabled: true,
            mode_rgb: gl_enums::GL_FUNC_ADD,
            mode_alpha: gl_enums::GL_FUNC_ADD,
            func_src_rgb: gl_enums::GL_SRC_ALPHA,
            func_dst_rgb: gl_enums::GL_ONE_MINUS_SRC_ALPHA,
            func_src_alpha: gl_enums::GL_ONE,
            func_dst_alpha: gl_enums::GL_ZERO,
        }
    }
}

/// Depth and stencil testing.
#[derive(Copy, Clone, Debug, Hash, PartialEq, Eq, Structural)]
pub struct DepthStencilState {
    pub depth_test_enable: bool,
    pub depth_write_enable: bool,
    pub stencil_enable: bool,
    pub depth_test_func: u32,
    pub stencil_face: u32,
    pub stencil_func: u32,
    pub stencil_ref: i32,
    pub stencil_mask: u32,
    pub stencil_op_s_fail: u32,
    pub stencil_op_dp_fail: u32,
    pub stencil_op_dp_pass: u32,
}

impl Default for DepthStencilState {
    /// Depth and stencil tests disabled (depth function `LEQUAL`, both faces,
    /// full stencil mask).
    fn default() -> (r: DepthStencilState)
        ensures
            r == (DepthStencilState {
                depth_test_enable: false,
                depth_write_enable: false,
                stencil_enable: false,
                depth_test_func: gl_enums::GL_LEQUAL,
                stencil_face: gl_enums::GL_FRONT_AND_BACK,
                stencil_func: 0,
                stencil_ref: 0,
                stencil_mask: 0xFFFFFFFF,
                stencil_op_s_fail: 0,
                stencil_op_dp_fail: 0,
                stencil_op_dp_pass: 0,
            }),
    {
        DepthStencilState {
            depth_test_enable: false,
            depth_write_enable: false,
            stencil_enable: false,
            depth_test_func: gl_enums::GL_LEQUAL,
            stencil_face: gl_enums::GL_FRONT_AND_BACK,
            stencil_func: 0,
            stencil_ref: 0,
            stencil_mask: 0xFFFFFFFF,
            stencil_op_s_fail: 0,
            stencil_op_dp_fail: 0,
            stencil_op_dp_pass: 0,
        }
    }
}

} // verus!
