use autograph::draw::draw_list_commands;
use autograph::draw::DrawCmd;
use autograph::draw::UiDrawCommand;
use autograph::framebuffer::check_or_update_size;
use autograph::framebuffer::FramebufferError;
use autograph::gl_enums;
use autograph::pipeline::GraphicsPipelineBuildError;
use autograph::shader_interface::PrimitiveType;
use autograph::shader_interface::TypeDesc;
use autograph::shader_interface::TYPE_MAT4;
use autograph::shader_interface::TYPE_VEC3;
use autograph::state_group::BlendState;
use autograph::state_group::DepthStencilState;

#[test]
fn blend_states() {
    let d = BlendState::default();
    assert!(!d.enabled);
    let a = BlendState::alpha_blending();
    assert!(a.enabled);
    assert_eq!(a.mode_rgb, gl::FUNC_ADD);
    assert_eq!(a.func_src_rgb, gl::SRC_ALPHA);
    assert_eq!(a.func_dst_rgb, gl::ONE_MINUS_SRC_ALPHA);
    assert_eq!(a.func_src_alpha, gl::ONE);
    assert_eq!(a.func_dst_alpha, gl::ZERO);
}

#[test]
fn depth_stencil_default() {
    let d = DepthStencilState::default();
    assert!(!d.depth_test_enable);
    assert_eq!(d.depth_test_func, gl::LEQUAL);
    assert_eq!(d.stencil_face, gl::FRONT_AND_BACK);
    assert_eq!(d.stencil_mask, 0xFFFF_FFFF);
    assert_eq!(gl_enums::GL_FUNC_ADD, gl::FUNC_ADD);
}

#[test]
fn draw_list_index_ranges() {
    let cmds = [
        UiDrawCommand { texture_id: 3, elem_count: 6 },
        UiDrawCommand { texture_id: 3, elem_count: 12 },
        UiDrawCommand { texture_id: 3, elem_count: 0 },
        UiDrawCommand { texture_id: 3, elem_count: 3 },
    ];
    let r = draw_list_commands(&cmds, 3);
    assert_eq!(
        r,
        vec![
            DrawCmd::DrawIndexed { first: 0, count: 6, base_vertex: 0 },
            DrawCmd::DrawIndexed { first: 6, count: 12, base_vertex: 0 },
            DrawCmd::DrawIndexed { first: 18, count: 0, base_vertex: 0 },
            DrawCmd::DrawIndexed { first: 18, count: 3, base_vertex: 0 },
        ]
    );
    assert!(draw_list_commands(&[], 3).is_empty());
}

#[test]
fn framebuffer_sizes() {
    let mut size = (0, 0);
    assert_eq!(check_or_update_size(&mut size, None), Ok(()));
    assert_eq!(size, (0, 0));
    assert_eq!(check_or_update_size(&mut size, Some((640, 480))), Ok(()));
    assert_eq!(size, (640, 480));
    assert_eq!(check_or_update_size(&mut size, Some((640, 480))), Ok(()));
    assert_eq!(check_or_update_size(&mut size, Some((320, 240))), Err(FramebufferError::AttachmentSizeMismatch));
    assert_eq!(size, (640, 480));
    assert_eq!(FramebufferError::AttachmentSizeMismatch.message(), "attachment size mismatch");
    assert_eq!(FramebufferError::ValidationFailed.message(), "framebuffer validation failed");
}

#[test]
fn pipeline_error_messages() {
    assert_eq!(GraphicsPipelineBuildError::MissingInputLayout.message(), "Input layout was not specified");
    assert_eq!(GraphicsPipelineBuildError::MissingShaderPipeline.message(), "Shader pipeline was not specified");
}

#[test]
fn type_shorthands() {
    assert!(matches!(TYPE_VEC3(), TypeDesc::Vector(PrimitiveType::Float, 3)));
    assert!(matches!(TYPE_MAT4(), TypeDesc::Matrix(PrimitiveType::Float, 4, 4)));
}
