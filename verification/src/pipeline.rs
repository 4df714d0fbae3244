//! How the device turns the mesh into pixels.

use vstd::prelude::*;

use crate::vertex::{vertex_layout, Vertex, VertexBufferLayout};

verus! {

/// The shaders, in WGSL: each vertex is moved by the offset in the uniforms, and each pixel
/// takes the colour of its vertices.
pub const SHADER_SRC: &'static str = r#"
struct Uniforms {
    offset: vec2<f32>,
}

@group(0) @binding(0) var<uniform> uniforms: Uniforms;

struct VertexInput {
    @location(0) position: vec2<f32>,
    @location(1) color:    vec3<f32>,
}

struct VertexOutput {
    @builtin(position) clip_position: vec4<f32>,
    @location(0)       color:         vec3<f32>,
}

@vertex
fn vs_main(in: VertexInput) -> VertexOutput {
    var out: VertexOutput;
    out.clip_position = vec4<f32>(in.position + uniforms.offset, 0.0, 1.0);
    out.color = in.color;
    return out;
}

@fragment
fn fs_main(in: VertexOutput) -> @location(0) vec4<f32> {
    return vec4<f32>(in.color, 1.0);
}
"#;

/// How the indices of a draw are joined.
#[derive(Clone, Copy, Debug, PartialEq, Eq, Structural)]
pub enum PrimitiveTopology {
    PointList,
    LineList,
    LineStrip,
    TriangleList,
    TriangleStrip,
}

/// The order of its corners that makes a triangle face the viewer.
#[derive(Clone, Copy, Debug, PartialEq, Eq, Structural)]
pub enum FrontFace {
    Ccw,
    Cw,
}

/// A side of a triangle.
#[derive(Clone, Copy, Debug, PartialEq, Eq, Structural)]
pub enum Face {
    Front,
    Back,
}

/// The type of the indices in a buffer.
#[derive(Clone, Copy, Debug, PartialEq, Eq, Structural)]
pub enum IndexFormat {
    Uint16,
    Uint32,
}

/// How triangles are filled.
#[derive(Clone, Copy, Debug, PartialEq, Eq, Structural)]
pub enum PolygonMode {
    Fill,
    Line,
    Point,
}

/// What a colour is multiplied by before it is blended.
#[derive(Clone, Copy, Debug, PartialEq, Eq, Structural)]
pub enum BlendFactor {
    Zero,
    One,
}

/// How two colours are blended.
#[derive(Clone, Copy, Debug, PartialEq, Eq, Structural)]
pub enum BlendOperation {
    Add,
    Subtract,
    ReverseSubtract,
    Min,
    Max,
}

/// How a drawn value is blended with the value that was there.
#[derive(Clone, Copy, Debug, PartialEq, Eq, Structural)]
pub struct BlendComponent {
    pub src_factor: BlendFactor,
    pub dst_factor: BlendFactor,
    pub operation: BlendOperation,
}

/// How a drawn colour, and its alpha, is blended with what was there.
#[derive(Clone, Copy, Debug, PartialEq, Eq, Structural)]
pub struct BlendState {
    pub color: BlendComponent,
    pub alpha: BlendComponent,
}

/// How many samples of a pixel are taken, and which of them count.
#[derive(Clone, Copy, Debug, PartialEq, Eq, Structural)]
pub struct MultisampleState {
    pub count: u32,
    pub mask: u64,
    pub alpha_to_coverage_enabled: bool,
}

/// `wgpu::DepthStencilState`, which is carried through and never looked into.
#[verifier::external_type_specification]
#[verifier::external_body]
pub struct ExDepthStencilState(wgpu::DepthStencilState);

/// The mask that lets every sample count.
pub const ALL_SAMPLES: u64 = 0xffff_ffff_ffff_ffff;

/// The flag of what the vertex shader sees.
pub const VERTEX_STAGE: u32 = 0x1;

/// The flags of all parts of a colour: red, green, blue and alpha.
pub const WRITE_ALL: u32 = 0xf;

/// Where the shaders find a buffer of uniforms, and which of them see it. With a dynamic offset
/// a draw says where in the buffer they start; the smallest size is checked where it is given;
/// with a count there is an array of buffers.
#[derive(Clone, Copy, Debug, PartialEq, Eq, Structural)]
pub struct UniformBinding {
    pub group: u32,
    pub binding: u32,
    pub visibility: u32,
    pub has_dynamic_offset: bool,
    pub min_binding_size: Option<u64>,
    pub count: Option<u32>,
}

/// A pipeline to be created, with the names that it and its parts are given for debugging.
#[derive(Debug, PartialEq, Eq)]
pub struct PipelinePlan {
    pub label: &'static str,
    pub layout_label: &'static str,
    pub bind_group_layout_label: &'static str,
    pub bind_group_label: &'static str,
    pub shader_label: &'static str,
    pub shader: &'static str,
    pub vertex_entry: &'static str,
    pub fragment_entry: &'static str,
    pub vertex_layout: VertexBufferLayout,
    pub uniforms: UniformBinding,
    pub target_format: wgpu::TextureFormat,
    pub blend: Option<BlendState>,
    pub write_mask: u32,
    pub topology: PrimitiveTopology,
    pub strip_index_format: Option<IndexFormat>,
    pub front_face: FrontFace,
    pub cull_mode: Option<Face>,
    pub unclipped_depth: bool,
    pub polygon_mode: PolygonMode,
    pub conservative: bool,
    pub depth_stencil: Option<wgpu::DepthStencilState>,
    pub multisample: MultisampleState,
    pub multiview_mask: Option<u32>,
    pub immediate_size: u32,
}

/// Blending that puts the drawn value in the place of the value that was there.
pub open spec fn replacing_component() -> BlendComponent {
    BlendComponent {
        src_factor: BlendFactor::One,
        dst_factor: BlendFactor::Zero,
        operation: BlendOperation::Add,
    }
}

impl PipelinePlan {
    /// Whether this is the pipeline that draws circles to textures of the format `format`.
    pub open spec fn draws_circles(self, format: wgpu::TextureFormat) -> bool {
        &&& self.label@ == "Circle Pipeline"@
        &&& self.layout_label@ == "Pipeline Layout"@
        &&& self.bind_group_layout_label@ == "Circle BGL"@
        &&& self.bind_group_label@ == "Circle BG"@
        &&& self.shader_label@ == "Circle Shader"@
        &&& self.shader@ == SHADER_SRC@
        &&& self.vertex_entry@ == "vs_main"@
        &&& self.fragment_entry@ == "fs_main"@
        &&& self.vertex_layout == vertex_layout()
        &&& self.uniforms == (UniformBinding {
            group: 0,
            binding: 0,
            visibility: VERTEX_STAGE,
            has_dynamic_offset: false,
            min_binding_size: None,
            count: None,
        })
        &&& self.target_format == format
        &&& self.blend == Some(
            BlendState { color: replacing_component(), alpha: replacing_component() },
        )
        &&& self.write_mask == WRITE_ALL
        &&& self.topology == PrimitiveTopology::TriangleList
        &&& self.front_face == FrontFace::Ccw
        &&& self.cull_mode == Some(Face::Back)
        &&& self.strip_index_format is None
        &&& !self.unclipped_depth
        &&& self.polygon_mode == PolygonMode::Fill
        &&& !self.conservative
        &&& self.depth_stencil is None
        &&& self.multisample == (MultisampleState {
            count: 1,
            mask: ALL_SAMPLES,
            alpha_to_coverage_enabled: false,
        })
        &&& self.multiview_mask is None
        &&& self.immediate_size == 0
    }

    /// The pipeline that draws circles to textures of the format `format`.
    pub fn new(format: wgpu::TextureFormat) -> (plan: PipelinePlan)
        ensures
            plan.draws_circles(format),
    {
        let replacing = BlendComponent {
            src_factor: BlendFactor::One,
            dst_factor: BlendFactor::Zero,
            operation: BlendOperation::Add,
        };
        PipelinePlan {
            label: "Circle Pipeline",
            layout_label: "Pipeline Layout",
            bind_group_layout_label: "Circle BGL",
            bind_group_label: "Circle BG",
            shader_label: "Circle Shader",
            shader: SHADER_SRC,
            vertex_entry: "vs_main",
            fragment_entry: "fs_main",
            vertex_layout: Vertex::desc(),
            uniforms: UniformBinding {
                group: 0,
                binding: 0,
                visibility: VERTEX_STAGE,
                has_dynamic_offset: false,
                min_binding_size: None,
                count: None,
            },
            target_format: format,
            blend: Some(BlendState { color: replacing, alpha: replacing }),
            write_mask: WRITE_ALL,
            topology: PrimitiveTopology::TriangleList,
            strip_index_format: None,
            front_face: FrontFace::Ccw,
            cull_mode: Some(Face::Back),
            unclipped_depth: false,
            polygon_mode: PolygonMode::Fill,
            conservative: false,
            depth_stencil: None,
            multisample: MultisampleState {
                count: 1,
                mask: ALL_SAMPLES,
                alpha_to_coverage_enabled: false,
            },
            multiview_mask: None,
            immediate_size: 0,
        }
    }
}

/// Whether `line` stands in `text`, somewhere.
pub open spec fn stands_in(line: Seq<char>, text: Seq<char>) -> bool {
    exists|at: int|
        0 <= at <= text.len() - line.len() && #[trigger] text.subrange(at, at + line.len())
            == line
}

/// The shaders read what the pipeline binds and the vertex layout gives: the uniforms as group 0
/// and binding 0, the position at location 0 and the colour at location 1. They draw each
/// vertex at its position plus the offset in the uniforms, in its own colour, opaque.
pub proof fn law_shaders_move_vertices_by_the_offset()
    ensures
        stands_in("@group(0) @binding(0) var<uniform> uniforms: Uniforms;"@, SHADER_SRC@),
        stands_in("@location(0) position: vec2<f32>,"@, SHADER_SRC@),
        stands_in("@location(1) color:    vec3<f32>,"@, SHADER_SRC@),
        stands_in("@builtin(position) clip_position: vec4<f32>,"@, SHADER_SRC@),
        stands_in("fn vs_main(in: VertexInput) -> VertexOutput {"@, SHADER_SRC@),
        stands_in(
            "out.clip_position = vec4<f32>(in.position + uniforms.offset, 0.0, 1.0);"@,
            SHADER_SRC@,
        ),
        stands_in("out.color = in.color;"@, SHADER_SRC@),
        stands_in("fn fs_main(in: VertexOutput) -> @location(0) vec4<f32> {"@, SHADER_SRC@),
        stands_in("return vec4<f32>(in.color, 1.0);"@, SHADER_SRC@),
{
    reveal_strlit(
        r#"
struct Uniforms {
    offset: vec2<f32>,
}

@group(0) @binding(0) var<uniform> uniforms: Uniforms;

struct VertexInput {
    @location(0) position: vec2<f32>,
    @location(1) color:    vec3<f32>,
}

struct VertexOutput {
    @builtin(position) clip_position: vec4<f32>,
    @location(0)       color:         vec3<f32>,
}

@vertex
fn vs_main(in: VertexInput) -> VertexOutput {
    var out: VertexOutput;
    out.clip_position = vec4<f32>(in.position + uniforms.offset, 0.0, 1.0);
    out.color = in.color;
    return out;
}

@fragment
fn fs_main(in: VertexOutput) -> @location(0) vec4<f32> {
    return vec4<f32>(in.color, 1.0);
}
"#,
    );
    let text = SHADER_SRC@;
    assert(stands_in("@group(0) @binding(0) var<uniform> uniforms: Uniforms;"@, text)) by {
        let line = "@group(0) @binding(0) var<uniform> uniforms: Uniforms;"@;
        reveal_strlit("@group(0) @binding(0) var<uniform> uniforms: Uniforms;");
        assert(text.subrange(45, 45int + line.len()) =~= line);
    }
    assert(stands_in("@location(0) position: vec2<f32>,"@, text)) by {
        let line = "@location(0) position: vec2<f32>,"@;
        reveal_strlit("@location(0) position: vec2<f32>,");
        assert(text.subrange(126, 126int + line.len()) =~= line);
    }
    assert(stands_in("@location(1) color:    vec3<f32>,"@, text)) by {
        let line = "@location(1) color:    vec3<f32>,"@;
        reveal_strlit("@location(1) color:    vec3<f32>,");
        assert(text.subrange(164, 164int + line.len()) =~= line);
    }
    assert(stands_in("@builtin(position) clip_position: vec4<f32>,"@, text)) by {
        let line = "@builtin(position) clip_position: vec4<f32>,"@;
        reveal_strlit("@builtin(position) clip_position: vec4<f32>,");
        assert(text.subrange(227, 227int + line.len()) =~= line);
    }
    assert(stands_in("fn vs_main(in: VertexInput) -> VertexOutput {"@, text)) by {
        let line = "fn vs_main(in: VertexInput) -> VertexOutput {"@;
        reveal_strlit("fn vs_main(in: VertexInput) -> VertexOutput {");
        assert(text.subrange(332, 332int + line.len()) =~= line);
    }
    assert(stands_in("out.clip_position = vec4<f32>(in.position + uniforms.offset, 0.0, 1.0);"@, text)) by {
        let line = "out.clip_position = vec4<f32>(in.position + uniforms.offset, 0.0, 1.0);"@;
        reveal_strlit("out.clip_position = vec4<f32>(in.position + uniforms.offset, 0.0, 1.0);");
        assert(text.subrange(409, 409int + line.len()) =~= line);
    }
    assert(stands_in("out.color = in.color;"@, text)) by {
        let line = "out.color = in.color;"@;
        reveal_strlit("out.color = in.color;");
        assert(text.subrange(485, 485int + line.len()) =~= line);
    }
    assert(stands_in("fn fs_main(in: VertexOutput) -> @location(0) vec4<f32> {"@, text)) by {
        let line = "fn fs_main(in: VertexOutput) -> @location(0) vec4<f32> {"@;
        reveal_strlit("fn fs_main(in: VertexOutput) -> @location(0) vec4<f32> {");
        assert(text.subrange(536, 536int + line.len()) =~= line);
    }
    assert(stands_in("return vec4<f32>(in.color, 1.0);"@, text)) by {
        let line = "return vec4<f32>(in.color, 1.0);"@;
        reveal_strlit("return vec4<f32>(in.color, 1.0);");
        assert(text.subrange(597, 597int + line.len()) =~= line);
    }
}

} // verus!
