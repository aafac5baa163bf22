use hello_triangle::frame::{RenderCommand, F64_ONE_BITS, F64_ZERO_BITS};
use hello_triangle::renderer::{entry_point_name, AttributeFormat, Renderer, ShaderStage};
use hello_triangle::surface::GraphicsContext;
use hello_triangle::vertex::{
    triangle_vertices, vertex_buffer_contents, vertex_bytes_of, Vertex, F32_NEG_ONE_BITS,
    F32_ONE_BITS, F32_ZERO_BITS, VERTEX_SIZE,
};

#[test]
fn float_bit_patterns_match_ieee() {
    assert_eq!(F32_ONE_BITS, 1.0f32.to_bits());
    assert_eq!(F32_NEG_ONE_BITS, (-1.0f32).to_bits());
    assert_eq!(F32_ZERO_BITS, 0.0f32.to_bits());
    assert_eq!(F64_ONE_BITS, 1.0f64.to_bits());
    assert_eq!(F64_ZERO_BITS, 0.0f64.to_bits());
}

#[test]
fn triangle_vertices_are_the_fixed_triangle() {
    let vs = triangle_vertices();
    assert_eq!(vs.len(), 3);
    assert_eq!(vs[0], Vertex { x_bits: (-1.0f32).to_bits(), y_bits: (-1.0f32).to_bits() });
    assert_eq!(vs[1], Vertex { x_bits: 0.0f32.to_bits(), y_bits: 1.0f32.to_bits() });
    assert_eq!(vs[2], Vertex { x_bits: 1.0f32.to_bits(), y_bits: (-1.0f32).to_bits() });
}

#[test]
fn vertex_buffer_bytes_are_three_little_endian_float_pairs() {
    let bytes = vertex_buffer_contents();
    let mut expected: Vec<u8> = Vec::new();
    for (x, y) in [(-1.0f32, -1.0f32), (0.0f32, 1.0f32), (1.0f32, -1.0f32)] {
        expected.extend_from_slice(&x.to_le_bytes());
        expected.extend_from_slice(&y.to_le_bytes());
    }
    assert_eq!(bytes.len(), 24);
    assert_eq!(bytes, expected);
}

#[test]
fn serialization_is_little_endian_per_record() {
    let vs = vec![Vertex { x_bits: 0x0403_0201, y_bits: 0x0807_0605 }];
    let bytes = vertex_bytes_of(&vs);
    assert_eq!(bytes, vec![0x01, 0x02, 0x03, 0x04, 0x05, 0x06, 0x07, 0x08]);
    let empty: Vec<Vertex> = Vec::new();
    assert_eq!(vertex_bytes_of(&empty), Vec::<u8>::new());
}

#[test]
fn renderer_construction_is_deterministic() {
    let a = Renderer::new(7);
    let b = Renderer::new(7);
    assert_eq!(a.pipeline, b.pipeline);
    assert_eq!(a.vertex_buffer, b.vertex_buffer);
    assert_eq!(a.vertex_buffer, vertex_buffer_contents());
}

#[test]
fn pipeline_description_matches_the_shader_and_buffer_layout() {
    let r = Renderer::new(42);
    assert_eq!(r.pipeline.color_format, 42);
    assert_eq!(r.pipeline.bind_group_layout_count, 0);
    assert_eq!(r.pipeline.push_constant_range_count, 0);
    assert_eq!(r.pipeline.vertex_layout.array_stride, VERTEX_SIZE);
    assert_eq!(r.pipeline.vertex_layout.attribute.offset, 0);
    assert_eq!(r.pipeline.vertex_layout.attribute.shader_location, 0);
    assert_eq!(r.pipeline.vertex_layout.attribute.format, AttributeFormat::Float32x2);
    assert!(!r.pipeline.has_depth_stencil);
    assert_eq!(r.pipeline.sample_count, 1);
    assert_eq!(r.vertex_buffer.len() as u64, 3 * VERTEX_SIZE);
}

#[test]
fn entry_point_names_match_the_shader_source() {
    assert_eq!(entry_point_name(ShaderStage::VertexStage), "vertex");
    assert_eq!(entry_point_name(ShaderStage::FragmentStage), "fragment");
}

#[test]
fn frame_clears_to_red_then_draws_three_vertices_once() {
    let ctx = GraphicsContext::new(1, 7, 800, 600);
    let renderer = Renderer::new(ctx.format);
    let commands = renderer.record_frame(&ctx);
    assert_eq!(commands.len(), 5);
    match commands[0] {
        RenderCommand::BeginRenderPass { clear } => {
            assert_eq!(clear.r_bits, 1.0f64.to_bits());
            assert_eq!(clear.g_bits, 0.0f64.to_bits());
            assert_eq!(clear.b_bits, 0.0f64.to_bits());
            assert_eq!(clear.a_bits, 1.0f64.to_bits());
        }
        _ => panic!("a frame must begin by clearing the color target"),
    }
    assert_eq!(commands[1], RenderCommand::SetPipeline);
    assert_eq!(commands[2], RenderCommand::SetVertexBuffer { slot: 0 });
    assert_eq!(commands[3], RenderCommand::DrawVertices { vertex_count: 3, instance_count: 1 });
    assert_eq!(commands[4], RenderCommand::EndRenderPass);
}

#[test]
fn repeated_frames_record_the_same_commands_and_mutate_nothing() {
    let ctx = GraphicsContext::new(1, 7, 800, 600);
    let renderer = Renderer::new(ctx.format);
    let before = renderer.clone();
    let first = renderer.record_frame(&ctx);
    for _ in 0..10 {
        let again = renderer.record_frame(&ctx);
        assert_eq!(again, first);
    }
    assert_eq!(renderer.pipeline, before.pipeline);
    assert_eq!(renderer.vertex_buffer, before.vertex_buffer);
}
