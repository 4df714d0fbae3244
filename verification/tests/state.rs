use wgpu::{CompositeAlphaMode, TextureFormat};
use wgpu_circles::circle::CircleShape;
use wgpu_circles::pipeline::{
    BlendComponent, BlendFactor, BlendOperation, BlendState, Face, FrontFace, IndexFormat,
    PolygonMode, PrimitiveTopology, UniformBinding, SHADER_SRC, VERTEX_STAGE, WRITE_ALL,
};
use wgpu_circles::scalar::Scalar;
use wgpu_circles::state::{
    DrawCall, RenderPlan, State, StoreOp, CLEAR_ALPHA, CLEAR_SHADE, COPY_DST, INDEX, UNIFORM,
    VERTEX,
};
use wgpu_circles::surface::{PhysicalSize, SurfaceTextureStatus};
use wgpu_circles::uniforms::CircleUniforms;
use wgpu_circles::vertex::Vertex;

fn scalar(number: f32) -> Scalar {
    Scalar { bits: number.to_bits() }
}

fn rim(shift: f32) -> Vec<[Scalar; 2]> {
    (0..65).map(|i| [scalar(i as f32 + shift), scalar(shift)]).collect()
}

fn state(width: u32, height: u32) -> State {
    State::new(
        PhysicalSize { width, height },
        &vec![TextureFormat::Bgra8UnormSrgb],
        &vec![CompositeAlphaMode::Opaque],
        &rim(0.0),
    )
}

fn circle(width: u32, height: u32, radius: f32) -> CircleShape {
    CircleShape {
        segments: 64,
        radius: scalar(radius),
        width,
        height,
        center: [scalar(0.0), scalar(0.0)],
        color: [scalar(0.2), scalar(0.4), scalar(1.0)],
    }
}

#[test]
fn scene_starts_in_the_middle() {
    let scene = state(1000, 800);
    assert_eq!(scene.size, PhysicalSize { width: 1000, height: 800 });
    assert_eq!((scene.config.width, scene.config.height), (1000, 800));
    assert_eq!(scene.circle_offset, [scalar(0.0), scalar(0.0)]);
    assert_eq!(scene.num_indices, 192);
    assert_eq!(scene.vertices.len(), 66);
    assert_eq!(scene.vertices[0].position, [scalar(0.0), scalar(0.0)]);
    assert_eq!(scene.vertices[65].position, rim(0.0)[64]);
    assert_eq!(scene.vertices[65].color, [scalar(0.2), scalar(0.4), scalar(1.0)]);
}

#[test]
fn scene_keeps_the_size_that_its_surface_cannot_have() {
    let scene = state(0, 0);
    assert_eq!(scene.size, PhysicalSize { width: 0, height: 0 });
    assert_eq!((scene.config.width, scene.config.height), (1, 1));
}

#[test]
fn circle_shrinks_when_rebuilt() {
    let size = PhysicalSize { width: 1000, height: 800 };
    assert_eq!(State::first_circle(size), circle(1000, 800, 0.1));
    assert_eq!(state(1000, 800).circle(), circle(1000, 800, 0.02));
}

#[test]
fn rebuilding_replaces_the_mesh() {
    let mut scene = state(1000, 800);
    let before = scene.clone();
    scene.rebuild_buffers(&rim(0.5));
    assert_eq!(scene.vertices[1].position, rim(0.5)[0]);
    assert_eq!(scene.indices, before.indices);
    assert_eq!(scene.num_indices, 192);
    assert_eq!(scene.size, before.size);
    assert_eq!(scene.config, before.config);
}

#[test]
fn resizing_takes_over_the_size() {
    let mut scene = state(1000, 800);
    assert!(scene.resize(PhysicalSize { width: 640, height: 480 }));
    assert_eq!(scene.size, PhysicalSize { width: 640, height: 480 });
    assert_eq!((scene.config.width, scene.config.height), (640, 480));
    let once = scene.clone();
    assert!(scene.resize(PhysicalSize { width: 640, height: 480 }));
    assert_eq!(scene, once);
}

#[test]
fn size_without_area_is_ignored() {
    let mut scene = state(1000, 800);
    let before = scene.clone();
    assert!(!scene.resize(PhysicalSize { width: 0, height: 480 }));
    assert!(!scene.resize(PhysicalSize { width: 640, height: 0 }));
    assert_eq!(scene, before);
}

#[test]
fn reconfiguring_changes_nothing() {
    let mut scene = state(1000, 800);
    let before = scene.clone();
    assert!(scene.reconfigure());
    assert_eq!(scene, before);
    let mut flat = state(0, 800);
    let before = flat.clone();
    assert!(!flat.reconfigure());
    assert_eq!(flat, before);
}

#[test]
fn rendering_follows_the_answer_of_the_surface() {
    let cases = [
        (SurfaceTextureStatus::Success, false, true),
        (SurfaceTextureStatus::Suboptimal, true, true),
        (SurfaceTextureStatus::Timeout, false, false),
        (SurfaceTextureStatus::Occluded, false, false),
        (SurfaceTextureStatus::Outdated, true, false),
        (SurfaceTextureStatus::Lost, true, false),
        (SurfaceTextureStatus::Validation, false, false),
    ];
    for (status, reconfigured, presents) in cases {
        assert_eq!(state(1000, 800).render(status), RenderPlan { reconfigured, presents });
        assert_eq!(
            state(1000, 0).render(status),
            RenderPlan { reconfigured: false, presents }
        );
    }
}

#[test]
fn all_indices_are_drawn_once() {
    assert_eq!(
        state(1000, 800).draw_call(),
        DrawCall {
            encoder_label: "Render Encoder",
            pass_label: "Render Pass",
            clear: [CLEAR_SHADE, CLEAR_SHADE, CLEAR_SHADE, CLEAR_ALPHA],
            bind_group: 0,
            vertex_slot: 0,
            index_format: IndexFormat::Uint16,
            first_index: 0,
            end_index: 192,
            base_vertex: 0,
            first_instance: 0,
            end_instance: 1,
            store: StoreOp::Store,
            depth_slice: None,
        }
    );
}

#[test]
fn buffers_hold_the_mesh() {
    let scene = state(1000, 800);
    let vertices = scene.vertex_buffer();
    assert_eq!(vertices.label, "Vertex Buffer");
    assert_eq!(vertices.usage, VERTEX);
    assert_eq!(vertices.contents.len(), 1320);
    assert_eq!(vertices.contents[20..24], 0.0f32.to_ne_bytes());
    assert_eq!(vertices.contents[8..12], 0.2f32.to_ne_bytes());

    let indices = scene.index_buffer();
    assert_eq!(indices.label, "Index Buffer");
    assert_eq!(indices.usage, INDEX);
    assert_eq!(indices.contents.len(), 384);
    assert_eq!(indices.contents[380..382], 64u16.to_ne_bytes());
    assert_eq!(indices.contents[382..384], 65u16.to_ne_bytes());
}

#[test]
fn uniforms_hold_the_offset() {
    let mut scene = state(1000, 800);
    let buffer = scene.uniform_buffer();
    assert_eq!(buffer.label, "Circle Uniform Buffer");
    assert_eq!(buffer.usage, UNIFORM | COPY_DST);
    assert_eq!(buffer.contents, vec![0; 16]);

    scene.circle_offset = [scalar(0.25), scalar(-0.5)];
    let write = scene.update();
    assert_eq!(write.offset, 0);
    assert_eq!(write.contents.len(), 16);
    assert_eq!(write.contents[0..4], 0.25f32.to_ne_bytes());
    assert_eq!(write.contents[4..8], (-0.5f32).to_ne_bytes());
    assert_eq!(write.contents[8..16], [0; 8]);
}

#[test]
fn uniforms_lie_in_order() {
    let uniforms = CircleUniforms {
        offset: [Scalar { bits: 1 }, Scalar { bits: 2 }],
        _pad: [Scalar { bits: 3 }, Scalar { bits: 4 }],
    };
    let bytes = uniforms.bytes();
    for k in 0..4usize {
        assert_eq!(bytes[4 * k..4 * k + 4], (k as u32 + 1).to_ne_bytes());
    }
}

#[test]
fn flags_of_buffers() {
    assert_eq!(VERTEX, wgpu::BufferUsages::VERTEX.bits());
    assert_eq!(INDEX, wgpu::BufferUsages::INDEX.bits());
    assert_eq!(
        UNIFORM | COPY_DST,
        (wgpu::BufferUsages::UNIFORM | wgpu::BufferUsages::COPY_DST).bits()
    );
}

#[test]
fn pipeline_draws_to_the_surface() {
    let scene = state(1000, 800);
    let plan = scene.pipeline();
    assert_eq!(plan.shader, SHADER_SRC);
    assert!(plan.shader.contains("fn vs_main(") && plan.shader.contains("fn fs_main("));
    assert_eq!((plan.vertex_entry, plan.fragment_entry), ("vs_main", "fs_main"));
    assert_eq!(plan.vertex_layout, Vertex::desc());
    assert_eq!(
        plan.uniforms,
        UniformBinding {
            group: 0,
            binding: 0,
            visibility: VERTEX_STAGE,
            has_dynamic_offset: false,
            min_binding_size: None,
            count: None,
        }
    );
    assert_eq!(plan.target_format, TextureFormat::Bgra8UnormSrgb);
    assert_eq!(plan.uniforms.group, scene.draw_call().bind_group);
    assert_eq!(plan.write_mask, WRITE_ALL);
    assert_eq!(plan.topology, PrimitiveTopology::TriangleList);
    assert_eq!(plan.front_face, FrontFace::Ccw);
    assert_eq!(plan.cull_mode, Some(Face::Back));
    assert_eq!(plan.strip_index_format, None);
    assert!(!plan.unclipped_depth && !plan.conservative);
    assert_eq!(plan.polygon_mode, PolygonMode::Fill);
    assert_eq!(plan.depth_stencil, None);
    assert_eq!((plan.multiview_mask, plan.immediate_size), (None, 0));
    assert_eq!((plan.label, plan.layout_label), ("Circle Pipeline", "Pipeline Layout"));
    assert_eq!(plan.shader_label, "Circle Shader");
    assert_eq!(
        (plan.bind_group_layout_label, plan.bind_group_label),
        ("Circle BGL", "Circle BG")
    );
}

#[test]
fn pipeline_replaces_and_takes_one_sample() {
    let plan = state(1000, 800).pipeline();
    let replacing = BlendComponent {
        src_factor: BlendFactor::One,
        dst_factor: BlendFactor::Zero,
        operation: BlendOperation::Add,
    };
    assert_eq!(plan.blend, Some(BlendState { color: replacing, alpha: replacing }));
    let replace = wgpu::BlendState::REPLACE;
    for component in [replace.color, replace.alpha] {
        assert_eq!(component.src_factor, wgpu::BlendFactor::One);
        assert_eq!(component.dst_factor, wgpu::BlendFactor::Zero);
        assert_eq!(component.operation, wgpu::BlendOperation::Add);
    }
    let samples = wgpu::MultisampleState::default();
    assert_eq!(plan.multisample.count, samples.count);
    assert_eq!(plan.multisample.mask, samples.mask);
    assert_eq!(
        plan.multisample.alpha_to_coverage_enabled,
        samples.alpha_to_coverage_enabled
    );
}

#[test]
fn update_writes_the_memory_of_the_machine() {
    let mut scene = state(1000, 800);
    scene.circle_offset = [scalar(0.5), scalar(-0.25)];
    let little = [0, 0, 0, 0x3f, 0, 0, 0x80, 0xbe, 0, 0, 0, 0, 0, 0, 0, 0];
    let big = [0x3f, 0, 0, 0, 0xbe, 0x80, 0, 0, 0, 0, 0, 0, 0, 0, 0, 0];
    let expected = if 1u16.to_ne_bytes() == [1, 0] { little } else { big };
    assert_eq!(scene.update().contents, expected);
    assert_eq!(scene.update(), scene.update());
}

#[test]
fn rebuilding_again_changes_nothing() {
    let mut scene = state(1000, 800);
    let mut other = state(1000, 800);
    other.circle_offset = [scalar(0.0), scalar(0.5)];
    other.rebuild_buffers(&rim(0.25));
    scene.rebuild_buffers(&rim(0.5));
    let once = scene.clone();
    scene.rebuild_buffers(&rim(0.5));
    assert_eq!(scene, once);
    assert_eq!(scene.vertex_buffer(), once.vertex_buffer());
    other.rebuild_buffers(&rim(0.5));
    assert_eq!(other.circle(), scene.circle());
    assert_eq!(other.vertex_buffer(), scene.vertex_buffer());
    assert_eq!(other.index_buffer(), scene.index_buffer());
    assert_eq!(other.num_indices, scene.num_indices);
}

#[test]
fn flags_of_the_pipeline() {
    assert_eq!(VERTEX_STAGE, wgpu::ShaderStages::VERTEX.bits());
    assert_eq!(WRITE_ALL, wgpu::ColorWrites::ALL.bits());
}
