//! What is drawn, and what the graphics device has to be given for it.

use vstd::prelude::*;

use crate::bytes::{
    cast_halves, half_at, halves, law_memory_holds_halves, memory_of, word_at, words,
};
use crate::circle::{build_circle, disc, fan, CircleShape};
use crate::pipeline::{IndexFormat, PipelinePlan};
use crate::scalar::Scalar;
use crate::surface::{at_least_one, PhysicalSize, SurfaceConfiguration, SurfaceTextureStatus};
use crate::uniforms::CircleUniforms;
use crate::vertex::{all_components, law_vertex_bytes_hold_every_vertex, vertex_bytes, Vertex};

verus! {

/// The bit pattern of 0.0.
pub const ZERO: u32 = 0x0000_0000;

/// The bit pattern of 0.2, the circle's share of red.
pub const RED: u32 = 0x3e4c_cccd;

/// The bit pattern of 0.4, its share of green.
pub const GREEN: u32 = 0x3ecc_cccd;

/// The bit pattern of 1.0, its share of blue.
pub const BLUE: u32 = 0x3f80_0000;

/// The bit pattern of 0.1, the radius of the circle until its buffers are rebuilt for the first
/// time.
pub const FIRST_RADIUS: u32 = 0x3dcc_cccd;

/// The bit pattern of 0.02, the radius of the circle from then on.
pub const REBUILT_RADIUS: u32 = 0x3ca3_d70a;

/// The bit pattern of -0.9, the lowest that the circle gets.
pub const FLOOR_LIMIT: u32 = 0xbf66_6666;

/// The number of triangles that the circle is made of.
pub const SEGMENTS: u32 = 64;

/// The flag of a buffer that can be copied to.
pub const COPY_DST: u32 = 0x08;

/// The flag of a buffer of indices.
pub const INDEX: u32 = 0x10;

/// The flag of a buffer of vertices.
pub const VERTEX: u32 = 0x20;

/// The flag of a buffer of uniforms.
pub const UNIFORM: u32 = 0x40;

/// The double-precision bit pattern of 0.05, the shade that a frame is cleared to.
pub const CLEAR_SHADE: u64 = 0x3fa9_9999_9999_999a;

/// The double-precision bit pattern of 1.0: the cleared frame is opaque.
pub const CLEAR_ALPHA: u64 = 0x3ff0_0000_0000_0000;

/// A buffer to be created with its contents.
#[derive(Clone, Debug, PartialEq, Eq)]
pub struct BufferInit {
    pub label: &'static str,
    pub usage: u32,
    pub contents: Vec<u8>,
}

/// Bytes to be written into a buffer.
#[derive(Clone, Debug, PartialEq, Eq)]
pub struct BufferWrite {
    pub offset: u64,
    pub contents: Vec<u8>,
}

/// What becomes of the pixels at the end of a render pass.
#[derive(Clone, Copy, Debug, PartialEq, Eq, Structural)]
pub enum StoreOp {
    Store,
    Discard,
}

/// One draw: the frame is cleared to the colour `clear` (red, green, blue, alpha), the uniforms
/// are bound as group `bind_group` and the vertices to the slot `vertex_slot`, then the
/// indices from `first_index` up to but not including `end_index` are drawn, for each of the
/// instances from `first_instance` up to but not including `end_instance`. In the end `store`
/// says whether the pixels are kept. The slice to draw to is given where the texture has more
/// than one.
#[derive(Clone, Copy, Debug, PartialEq, Eq)]
pub struct DrawCall {
    pub encoder_label: &'static str,
    pub pass_label: &'static str,
    pub clear: [u64; 4],
    pub bind_group: u32,
    pub vertex_slot: u32,
    pub index_format: IndexFormat,
    pub first_index: u32,
    pub end_index: u32,
    pub base_vertex: i32,
    pub first_instance: u32,
    pub end_instance: u32,
    pub store: StoreOp,
    pub depth_slice: Option<u32>,
}

/// What follows from the answer of the surface to the request for a texture.
#[derive(Clone, Copy, Debug, PartialEq, Eq, Structural)]
pub struct RenderPlan {
    /// The surface is to be configured, and the buffers are to be rebuilt.
    pub reconfigured: bool,
    /// A frame is drawn and presented.
    pub presents: bool,
}

/// The scene and the resources that are made from it.
#[derive(Clone, Debug, PartialEq, Eq)]
pub struct State {
    pub config: SurfaceConfiguration,
    pub size: PhysicalSize,
    pub vertices: Vec<Vertex>,
    pub indices: Vec<u16>,
    pub num_indices: u32,
    pub circle_offset: [Scalar; 2],
}

/// The mathematical content of a [`State`].
#[verifier::ext_equal]
pub struct StateView {
    pub config: SurfaceConfiguration,
    pub size: PhysicalSize,
    pub vertices: Seq<Vertex>,
    pub indices: Seq<u16>,
    pub num_indices: u32,
    pub circle_offset: [Scalar; 2],
}

impl View for State {
    type V = StateView;

    open spec fn view(&self) -> StateView {
        StateView {
            config: self.config,
            size: self.size,
            vertices: self.vertices@,
            indices: self.indices@,
            num_indices: self.num_indices,
            circle_offset: self.circle_offset,
        }
    }
}

/// The middle of the window.
pub open spec fn origin() -> [Scalar; 2] {
    [Scalar { bits: ZERO }, Scalar { bits: ZERO }]
}

/// The colour of the circle.
pub open spec fn circle_color() -> [Scalar; 3] {
    [Scalar { bits: RED }, Scalar { bits: GREEN }, Scalar { bits: BLUE }]
}

/// The circle of radius `radius` that looks round in a window of size `size`.
pub open spec fn centered_circle(size: PhysicalSize, radius: Scalar) -> CircleShape {
    CircleShape {
        segments: SEGMENTS,
        radius,
        width: size.width,
        height: size.height,
        center: origin(),
        color: circle_color(),
    }
}

/// The vertices of the circle whose rim is `rim`.
pub open spec fn circle_vertices(rim: Seq<[Scalar; 2]>) -> Seq<Vertex> {
    disc(origin(), circle_color(), rim)
}

/// The values that the vertex shader reads for a circle that is drawn at `offset`.
pub open spec fn uniforms_at(offset: [Scalar; 2]) -> CircleUniforms {
    CircleUniforms { offset, _pad: origin() }
}

/// Whether a texture to draw to came with the answer.
pub open spec fn brings_texture(status: SurfaceTextureStatus) -> bool {
    status is Success || status is Suboptimal
}

/// Whether the answer says that the surface no longer fits its configuration.
pub open spec fn asks_for_configuration(status: SurfaceTextureStatus) -> bool {
    status is Suboptimal || status is Outdated || status is Lost
}

impl StateView {
    /// The scene that a window starts with.
    pub open spec fn first(
        size: PhysicalSize,
        formats: Seq<wgpu::TextureFormat>,
        alpha_modes: Seq<wgpu::CompositeAlphaMode>,
        rim: Seq<[Scalar; 2]>,
    ) -> StateView {
        StateView {
            config: SurfaceConfiguration::first(size, formats, alpha_modes),
            size,
            vertices: circle_vertices(rim),
            indices: fan(SEGMENTS as int),
            num_indices: (3 * SEGMENTS) as u32,
            circle_offset: origin(),
        }
    }

    /// The scene with its buffers made anew from `rim`.
    pub open spec fn rebuilt(self, rim: Seq<[Scalar; 2]>) -> StateView {
        StateView {
            vertices: circle_vertices(rim),
            indices: fan(SEGMENTS as int),
            num_indices: (3 * SEGMENTS) as u32,
            ..self
        }
    }

    /// The scene in a window of size `size`. A size without an area changes nothing.
    pub open spec fn resized(self, size: PhysicalSize) -> StateView {
        if size.has_area() {
            StateView {
                size,
                config: SurfaceConfiguration {
                    width: size.width,
                    height: size.height,
                    ..self.config
                },
                ..self
            }
        } else {
            self
        }
    }

    /// What the buffer of uniforms holds when the circle is drawn where it is.
    pub open spec fn uniform_bytes(self) -> Seq<u8> {
        memory_of(words(uniforms_at(self.circle_offset).components()), 4)
    }

    /// What the buffer of vertices holds.
    pub open spec fn vertex_bytes(self) -> Seq<u8> {
        memory_of(words(all_components(self.vertices)), 4)
    }

    /// What the buffer of indices holds.
    pub open spec fn index_bytes(self) -> Seq<u8> {
        memory_of(halves(self.indices), 2)
    }

    /// The draw that puts the whole circle on the screen, once.
    pub open spec fn draw_call(self) -> DrawCall {
        DrawCall {
            encoder_label: "Render Encoder",
            pass_label: "Render Pass",
            clear: [CLEAR_SHADE, CLEAR_SHADE, CLEAR_SHADE, CLEAR_ALPHA],
            bind_group: 0,
            vertex_slot: 0,
            index_format: IndexFormat::Uint16,
            first_index: 0,
            end_index: self.num_indices,
            base_vertex: 0,
            first_instance: 0,
            end_instance: 1,
            store: StoreOp::Store,
            depth_slice: None,
        }
    }

    /// What holds of the scene at all times: the surface has the size of the window, but at
    /// least one pixel each way; the buffers hold a whole circle, in its colour and around the
    /// middle of the window, and all of its indices are drawn; and the circle has moved neither
    /// sideways nor through the floor (a position that is no number is not below the floor).
    pub open spec fn well_formed(self) -> bool {
        &&& self.config.width == at_least_one(self.size.width)
        &&& self.config.height == at_least_one(self.size.height)
        &&& self.vertices.len() == SEGMENTS + 2
        &&& self.vertices[0].position == origin()
        &&& forall|v: int|
            0 <= v < self.vertices.len() ==> (#[trigger] self.vertices[v]).color
                == circle_color()
        &&& self.indices == fan(SEGMENTS as int)
        &&& self.num_indices == self.indices.len()
        &&& self.circle_offset[0] == Scalar { bits: ZERO }
        &&& !self.circle_offset[1].is_below(Scalar { bits: FLOOR_LIMIT })
    }
}

/// The middle of the window.
fn middle() -> (point: [Scalar; 2])
    ensures
        point == origin(),
{
    [Scalar { bits: ZERO }, Scalar { bits: ZERO }]
}

/// The circle of radius `radius` that looks round in a window of size `size`.
fn circle_in(size: PhysicalSize, radius: Scalar) -> (shape: CircleShape)
    ensures
        shape == centered_circle(size, radius),
{
    CircleShape {
        segments: SEGMENTS,
        radius,
        width: size.width,
        height: size.height,
        center: middle(),
        color: [Scalar { bits: RED }, Scalar { bits: GREEN }, Scalar { bits: BLUE }],
    }
}

/// The mesh of the circle whose rim is `rim`.
fn circle_mesh(rim: &Vec<[Scalar; 2]>) -> (mesh: (Vec<Vertex>, Vec<u16>))
    requires
        rim@.len() == SEGMENTS + 1,
    ensures
        mesh.0@ == circle_vertices(rim@),
        mesh.1@ == fan(SEGMENTS as int),
{
    build_circle(
        SEGMENTS,
        Scalar { bits: ZERO },
        Scalar { bits: ZERO },
        [Scalar { bits: RED }, Scalar { bits: GREEN }, Scalar { bits: BLUE }],
        rim,
    )
}

impl State {
    /// The circle that a window of size `size` starts with.
    pub fn first_circle(size: PhysicalSize) -> (shape: CircleShape)
        ensures
            shape == centered_circle(size, Scalar { bits: FIRST_RADIUS }),
            shape.width == size.width,
            shape.height == size.height,
            shape.segments == 64,
            shape.radius.bits == FIRST_RADIUS,
    {
        circle_in(size, Scalar { bits: FIRST_RADIUS })
    }

    /// The scene that a window starts with: a circle at rest in its middle. `formats` and
    /// `alpha_modes` are what the surface offers, and `rim` is the traced rim of
    /// [`State::first_circle`].
    pub fn new(
        size: PhysicalSize,
        formats: &Vec<wgpu::TextureFormat>,
        alpha_modes: &Vec<wgpu::CompositeAlphaMode>,
        rim: &Vec<[Scalar; 2]>,
    ) -> (state: State)
        requires
            formats@.len() > 0,
            alpha_modes@.len() > 0,
            rim@.len() == SEGMENTS + 1,
        ensures
            state@ == StateView::first(size, formats@, alpha_modes@, rim@),
            state@.well_formed(),
            state.size == size,
            state.vertices@.len() == rim@.len() + 1,
            forall|i: int|
                0 <= i < rim@.len() ==> state.vertices@[i + 1].position == #[trigger] rim@[i],
            state.num_indices == state.indices@.len(),
            state.circle_offset[0].bits == 0,
            state.circle_offset[1].bits == 0,
    {
        let config = SurfaceConfiguration::new(size, formats, alpha_modes);
        let (vertices, indices) = circle_mesh(rim);
        let num_indices: u32 = indices.len() as u32;
        State { config, size, vertices, indices, num_indices, circle_offset: middle() }
    }

    /// The circle that the buffers are next rebuilt from.
    pub fn circle(&self) -> (shape: CircleShape)
        ensures
            shape == centered_circle(self@.size, Scalar { bits: REBUILT_RADIUS }),
            shape.width == self.size.width,
            shape.height == self.size.height,
            shape.segments == 64,
            shape.radius.bits == REBUILT_RADIUS,
    {
        circle_in(self.size, Scalar { bits: REBUILT_RADIUS })
    }

    /// Makes the mesh anew from the traced rim of [`State::circle`].
    pub fn rebuild_buffers(&mut self, rim: &Vec<[Scalar; 2]>)
        requires
            rim@.len() == SEGMENTS + 1,
        ensures
            final(self)@ == old(self)@.rebuilt(rim@),
            final(self).vertices@.len() == rim@.len() + 1,
            forall|i: int|
                0 <= i < rim@.len() ==> final(self).vertices@[i + 1].position == #[trigger] rim@[i],
            final(self).num_indices == final(self).indices@.len(),
            final(self).size == old(self).size,
            final(self).circle_offset == old(self).circle_offset,
    {
        let (vertices, indices) = circle_mesh(rim);
        self.num_indices = indices.len() as u32;
        self.vertices = vertices;
        self.indices = indices;
    }

    /// The pipeline to be created: its pixels have the format of the surface.
    pub fn pipeline(&self) -> (plan: PipelinePlan)
        ensures
            plan.draws_circles(self@.config.format),
    {
        PipelinePlan::new(self.config.format)
    }

    /// The buffer of uniforms to be created.
    pub fn uniform_buffer(&self) -> (buffer: BufferInit)
        ensures
            buffer.label@ == "Circle Uniform Buffer"@,
            buffer.usage == UNIFORM + COPY_DST,
            buffer.contents@ == self@.uniform_bytes(),
            buffer.contents@.len() == 16,
            word_at(buffer.contents@, 0) == self.circle_offset[0].bits,
            word_at(buffer.contents@, 4) == self.circle_offset[1].bits,
            word_at(buffer.contents@, 8) == 0,
            word_at(buffer.contents@, 12) == 0,
    {
        let uniforms = CircleUniforms { offset: self.circle_offset, _pad: middle() };
        BufferInit {
            label: "Circle Uniform Buffer",
            usage: UNIFORM + COPY_DST,
            contents: uniforms.bytes(),
        }
    }

    /// The buffer of vertices to be created.
    pub fn vertex_buffer(&self) -> (buffer: BufferInit)
        ensures
            buffer.label@ == "Vertex Buffer"@,
            buffer.usage == VERTEX,
            buffer.contents@ == self@.vertex_bytes(),
            buffer.contents@.len() == 20 * self.vertices@.len(),
            forall|v: int|
                #![trigger self.vertices@[v]]
                0 <= v < self.vertices@.len() ==> {
                    &&& word_at(buffer.contents@, 20 * v) == self.vertices@[v].position[0].bits
                    &&& word_at(buffer.contents@, 20 * v + 4) == self.vertices@[v].position[1].bits
                    &&& word_at(buffer.contents@, 20 * v + 8) == self.vertices@[v].color[0].bits
                    &&& word_at(buffer.contents@, 20 * v + 12) == self.vertices@[v].color[1].bits
                    &&& word_at(buffer.contents@, 20 * v + 16) == self.vertices@[v].color[2].bits
                },
    {
        proof {
            assert forall|v: int|
                #![trigger self.vertices@[v]]
                0 <= v < self.vertices@.len() implies {
                let contents = self@.vertex_bytes();
                &&& word_at(contents, 20 * v) == self.vertices@[v].position[0].bits
                &&& word_at(contents, 20 * v + 4) == self.vertices@[v].position[1].bits
                &&& word_at(contents, 20 * v + 8) == self.vertices@[v].color[0].bits
                &&& word_at(contents, 20 * v + 12) == self.vertices@[v].color[1].bits
                &&& word_at(contents, 20 * v + 16) == self.vertices@[v].color[2].bits
            } by {
                law_vertex_bytes_hold_every_vertex(self.vertices@, v);
            }
        }
        BufferInit {
            label: "Vertex Buffer",
            usage: VERTEX,
            contents: vertex_bytes(&self.vertices),
        }
    }

    /// The buffer of indices to be created.
    pub fn index_buffer(&self) -> (buffer: BufferInit)
        ensures
            buffer.label@ == "Index Buffer"@,
            buffer.usage == INDEX,
            buffer.contents@ == self@.index_bytes(),
            buffer.contents@.len() == 2 * self.indices@.len(),
            forall|k: int|
                0 <= k < self.indices@.len() ==> half_at(buffer.contents@, 2 * k)
                    == #[trigger] self.indices@[k],
    {
        proof {
            assert forall|k: int| 0 <= k < self.indices@.len() implies half_at(
                self@.index_bytes(),
                2 * k,
            ) == #[trigger] self.indices@[k] by {
                law_memory_holds_halves(self.indices@, k);
            }
        }
        BufferInit { label: "Index Buffer", usage: INDEX, contents: cast_halves(&self.indices) }
    }

    /// What is to be written to the buffer of uniforms so that the circle is drawn where it is.
    pub fn update(&self) -> (write: BufferWrite)
        ensures
            write.offset == 0,
            write.contents@ == self@.uniform_bytes(),
            write.contents@.len() == 16,
            word_at(write.contents@, 0) == self.circle_offset[0].bits,
            word_at(write.contents@, 4) == self.circle_offset[1].bits,
            word_at(write.contents@, 8) == 0,
            word_at(write.contents@, 12) == 0,
    {
        let uniforms = CircleUniforms { offset: self.circle_offset, _pad: middle() };
        BufferWrite { offset: 0, contents: uniforms.bytes() }
    }

    /// Takes over the new size of the window, and says whether it did: a size without an area
    /// is ignored. Where it did, the surface is to be configured and the buffers are to be
    /// rebuilt.
    pub fn resize(&mut self, new_size: PhysicalSize) -> (accepted: bool)
        ensures
            final(self)@ == old(self)@.resized(new_size),
            accepted == new_size.has_area(),
            accepted == (new_size.width > 0 && new_size.height > 0),
            accepted ==> final(self).size == new_size && final(self).config.width
                == new_size.width && final(self).config.height == new_size.height,
            !accepted ==> final(self).size == old(self).size && final(self).config == old(
                self,
            ).config,
            final(self).vertices@ == old(self).vertices@,
            final(self).indices@ == old(self).indices@,
            final(self).num_indices == old(self).num_indices,
            final(self).circle_offset == old(self).circle_offset,
    {
        if new_size.width > 0 && new_size.height > 0 {
            self.size = new_size;
            self.config.width = new_size.width;
            self.config.height = new_size.height;
            true
        } else {
            false
        }
    }

    /// Resizes the surface to the size that the window already has.
    pub fn reconfigure(&mut self) -> (accepted: bool)
        ensures
            final(self)@ == old(self)@.resized(old(self)@.size),
            accepted == old(self)@.size.has_area(),
            accepted == (old(self).size.width > 0 && old(self).size.height > 0),
            final(self).size == old(self).size,
    {
        let size = self.size;
        self.resize(size)
    }

    /// Decides what follows from the surface's answer to the request for a texture.
    pub fn render(&mut self, status: SurfaceTextureStatus) -> (plan: RenderPlan)
        ensures
            final(self)@ == if asks_for_configuration(status) {
                old(self)@.resized(old(self)@.size)
            } else {
                old(self)@
            },
            plan.reconfigured == (asks_for_configuration(status)
                && old(self)@.size.has_area()),
            plan.presents == brings_texture(status),
            plan.presents == (status is Success || status is Suboptimal),
            plan.reconfigured == ((status is Suboptimal || status is Outdated || status is Lost)
                && old(self).size.width > 0 && old(self).size.height > 0),
            final(self).size == old(self).size,
    {
        match status {
            SurfaceTextureStatus::Success => RenderPlan { reconfigured: false, presents: true },
            SurfaceTextureStatus::Suboptimal => {
                let reconfigured = self.reconfigure();
                RenderPlan { reconfigured, presents: true }
            },
            SurfaceTextureStatus::Timeout | SurfaceTextureStatus::Occluded => RenderPlan {
                reconfigured: false,
                presents: false,
            },
            SurfaceTextureStatus::Outdated | SurfaceTextureStatus::Lost => {
                let reconfigured = self.reconfigure();
                RenderPlan { reconfigured, presents: false }
            },
            SurfaceTextureStatus::Validation => RenderPlan {
                reconfigured: false,
                presents: false,
            },
        }
    }

    /// The draw that puts the circle on the screen.
    pub fn draw_call(&self) -> (call: DrawCall)
        ensures
            call == self@.draw_call(),
            call.first_index == 0,
            call.end_index == self.num_indices,
    {
        DrawCall {
            encoder_label: "Render Encoder",
            pass_label: "Render Pass",
            clear: [CLEAR_SHADE, CLEAR_SHADE, CLEAR_SHADE, CLEAR_ALPHA],
            bind_group: 0,
            vertex_slot: 0,
            index_format: IndexFormat::Uint16,
            first_index: 0,
            end_index: self.num_indices,
            base_vertex: 0,
            first_instance: 0,
            end_instance: 1,
            store: StoreOp::Store,
            depth_slice: None,
        }
    }
}

} // verus!
