use dirty::gl::{
    batch_indices, check_error, repeat_indices, BlendFunc, BufferUsage, Capability, FilterMode, ShaderType, VertexAttr,
};
use dirty::utils::gl::BufferUsage as FixedUsage;
use dirty::Error;

#[test]
fn buffer_usage_constants() {
    assert_eq!(u32::from(BufferUsage::Static), glow::STATIC_DRAW);
    assert_eq!(u32::from(BufferUsage::Dynamic), glow::DYNAMIC_DRAW);
    assert_eq!(u32::from(BufferUsage::Stream), glow::STREAM_DRAW);
    assert_eq!(u32::from(FixedUsage::Static), glow::STATIC_DRAW);
    assert_eq!(u32::from(FixedUsage::Dynamic), glow::DYNAMIC_DRAW);
}

#[test]
fn filter_capability_blend_constants() {
    assert_eq!(i32::from(FilterMode::Nearest), glow::NEAREST as i32);
    assert_eq!(i32::from(FilterMode::Linear), glow::LINEAR as i32);
    assert_eq!(u32::from(Capability::Blend), glow::BLEND);
    assert_eq!(u32::from(Capability::CullFace), glow::CULL_FACE);
    assert_eq!(u32::from(Capability::DepthTest), glow::DEPTH_TEST);
    assert_eq!(u32::from(Capability::StencilTest), glow::STENCIL_TEST);
    assert_eq!(u32::from(Capability::ScissorTest), glow::SCISSOR_TEST);
    assert_eq!(u32::from(BlendFunc::One), glow::ONE);
    assert_eq!(u32::from(BlendFunc::SrcAlpha), glow::SRC_ALPHA);
    assert_eq!(u32::from(BlendFunc::OneMinusSrcAlpha), glow::ONE_MINUS_SRC_ALPHA);
    assert_ne!(ShaderType::Vertex, ShaderType::Fragment);
}

#[test]
fn error_codes() {
    assert!(check_error(glow::NO_ERROR).is_ok());
    let cases = [
        (glow::INVALID_ENUM, "INVALID_ENUM"),
        (glow::INVALID_VALUE, "INVALID_VALUE"),
        (glow::INVALID_OPERATION, "INVALID_OPERATION"),
        (glow::STACK_OVERFLOW, "STACK_OVERFLOW"),
        (glow::STACK_UNDERFLOW, "STACK_UNDERFLOW"),
        (glow::OUT_OF_MEMORY, "OUT_OF_MEMORY"),
        (glow::INVALID_FRAMEBUFFER_OPERATION, "INVALID_FRAMEBUFFER_OPERATION"),
        (12345, "UNKNOWN"),
    ];
    for (code, name) in cases.iter() {
        match check_error(*code) {
            Err(Error::OpenGL(s)) => assert_eq!(s, *name),
            _ => panic!("code {} should fail", code),
        }
    }
}

#[test]
fn vertex_attr_fields() {
    let a = VertexAttr::new("uv", 2, 8);
    assert_eq!(a.name, "uv");
    assert_eq!(a.size, 2);
    assert_eq!(a.offset, 8);
}

#[test]
fn batch_index_layout() {
    let idx = batch_indices(&[0, 1, 3, 1, 2, 3], 3);
    assert_eq!(idx, vec![0, 1, 3, 1, 2, 3, 4, 5, 7, 5, 6, 7, 8, 9, 11, 9, 10, 11]);
    assert_eq!(batch_indices(&[0, 1, 3, 1, 2, 3], 0), Vec::<u32>::new());
}

#[test]
fn repeated_indices_with_step() {
    assert_eq!(repeat_indices(&[0, 1, 2, 1, 2, 3], 12, 2), vec![0, 1, 2, 1, 2, 3, 2, 3, 4, 3, 4, 5]);
    assert_eq!(repeat_indices(&[7], 8, 1), vec![7, 7, 7, 7, 7, 7, 8, 8]);
}

#[test]
fn draw_counts() {
    // 3 quads of 4 vertices, 8 numbers each, 6 indices per quad.
    assert_eq!(dirty::gl::batch_draw_count(3 * 4 * 8, 6, 8, 4), 18);
    assert_eq!(dirty::gl::batch_draw_count(0, 6, 8, 4), 0);
}
