//! What the scene is made of and what each change does to it, part by part.

use vstd::prelude::*;

use crate::bytes::{half_at, law_memory_holds_halves, word_at};
use crate::circle::law_vertices_are_the_centre_and_the_rim;
use crate::scalar::Scalar;
use crate::state::{
    centered_circle, circle_color, origin, uniforms_at, State, StateView, FIRST_RADIUS,
    REBUILT_RADIUS,
};
use crate::surface::PhysicalSize;
use crate::uniforms::law_uniform_bytes_hold_every_part;
use crate::vertex::law_vertex_bytes_hold_every_vertex;

verus! {

/// A scene is what its fields say.
pub proof fn law_scene_is_its_fields(state: State)
    ensures
        state@.config == state.config,
        state@.size == state.size,
        state@.vertices == state.vertices@,
        state@.indices == state.indices@,
        state@.num_indices == state.num_indices,
        state@.circle_offset == state.circle_offset,
{
}

/// The circle that is asked for is that of the window: it is traced for the width and the height
/// of the window, and not the other way round, around the middle, with 64 segments and in the
/// circle's colour. The radius is 0.1 at first, and 0.02 from the first rebuilding on.
pub proof fn law_circle_is_traced_for_the_window(size: PhysicalSize)
    ensures
        ({
            let first = centered_circle(size, Scalar { bits: FIRST_RADIUS });
            let rebuilt = centered_circle(size, Scalar { bits: REBUILT_RADIUS });
            &&& first.width == size.width
            &&& first.height == size.height
            &&& rebuilt.width == size.width
            &&& rebuilt.height == size.height
            &&& first.segments == 64
            &&& rebuilt.segments == 64
            &&& first.radius.bits == 0x3dcc_cccd
            &&& rebuilt.radius.bits == 0x3ca3_d70a
            &&& first.center[0].bits == 0
            &&& first.center[1].bits == 0
            &&& rebuilt.center == first.center
            &&& first.color[0].bits == 0x3e4c_cccd
            &&& first.color[1].bits == 0x3ecc_cccd
            &&& first.color[2].bits == 0x3f80_0000
            &&& rebuilt.color == first.color
        }),
{
}

/// Turning the window on its side turns the circle that is asked for on its side: its width and
/// height change places, and it is the same only where the window is square.
pub proof fn law_circle_turns_with_the_window(size: PhysicalSize, radius: Scalar)
    ensures
        ({
            let turned = PhysicalSize { width: size.height, height: size.width };
            let upright = centered_circle(size, radius);
            let sideways = centered_circle(turned, radius);
            &&& sideways.width == upright.height
            &&& sideways.height == upright.width
            &&& upright == sideways <==> size.width == size.height
            &&& upright.radius == radius
        }),
{
}

/// Different sizes of the window ask for different circles, so that none is stretched.
pub proof fn law_every_size_has_its_own_circle(a: PhysicalSize, b: PhysicalSize, radius: Scalar)
    ensures
        centered_circle(a, radius) == centered_circle(b, radius) <==> a == b,
{
    let mine = centered_circle(a, radius);
    let theirs = centered_circle(b, radius);
    assert(mine.width == a.width && mine.height == a.height);
    assert(theirs.width == b.width && theirs.height == b.height);
}

/// A rebuilt mesh is that of the rim: vertex 0 is in the middle, vertex `i + 1` lies where point
/// `i` of the rim lies, all have the colour of the circle, the indices are those of 64 triangles
/// and are counted in full. Nothing else of the scene is touched.
pub proof fn law_rebuilding_takes_the_rim(state: StateView, rim: Seq<[Scalar; 2]>, i: int, t: int)
    requires
        rim.len() == 65,
        0 <= i < 65,
        0 <= t < 64,
    ensures
        ({
            let rebuilt = state.rebuilt(rim);
            &&& rebuilt.vertices.len() == 66
            &&& rebuilt.vertices[0].position[0].bits == 0
            &&& rebuilt.vertices[0].position[1].bits == 0
            &&& rebuilt.vertices[i + 1].position == rim[i]
            &&& rebuilt.vertices[i + 1].color[0].bits == 0x3e4c_cccd
            &&& rebuilt.vertices[i + 1].color[1].bits == 0x3ecc_cccd
            &&& rebuilt.vertices[i + 1].color[2].bits == 0x3f80_0000
            &&& rebuilt.vertices[0].color == rebuilt.vertices[i + 1].color
            &&& rebuilt.indices.len() == 192
            &&& rebuilt.num_indices == 192
            &&& rebuilt.indices[3 * t] == 0
            &&& rebuilt.indices[3 * t + 1] == t + 1
            &&& rebuilt.indices[3 * t + 2] == t + 2
            &&& rebuilt.size == state.size
            &&& rebuilt.config == state.config
            &&& rebuilt.circle_offset == state.circle_offset
        }),
{
    law_vertices_are_the_centre_and_the_rim(origin(), circle_color(), rim, i);
}

/// The first scene is that of the window and of the rim: it has the window's size, the mesh of
/// the rim, all 192 indices, and the circle in the middle.
pub proof fn law_first_scene_takes_the_rim(
    size: PhysicalSize,
    formats: Seq<wgpu::TextureFormat>,
    alpha_modes: Seq<wgpu::CompositeAlphaMode>,
    rim: Seq<[Scalar; 2]>,
    i: int,
    t: int,
)
    requires
        rim.len() == 65,
        0 <= i < 65,
        0 <= t < 64,
    ensures
        ({
            let first = StateView::first(size, formats, alpha_modes, rim);
            &&& first.size == size
            &&& first.config.width == if size.width == 0 {
                1
            } else {
                size.width
            }
            &&& first.config.height == if size.height == 0 {
                1
            } else {
                size.height
            }
            &&& first.config.alpha_mode == alpha_modes[0]
            &&& first.vertices.len() == 66
            &&& first.vertices[0].position[0].bits == 0
            &&& first.vertices[0].position[1].bits == 0
            &&& first.vertices[i + 1].position == rim[i]
            &&& first.vertices[i + 1].color[0].bits == 0x3e4c_cccd
            &&& first.vertices[i + 1].color[1].bits == 0x3ecc_cccd
            &&& first.vertices[i + 1].color[2].bits == 0x3f80_0000
            &&& first.vertices[0].color == first.vertices[i + 1].color
            &&& first.indices.len() == 192
            &&& first.num_indices == 192
            &&& first.indices[3 * t] == 0
            &&& first.indices[3 * t + 1] == t + 1
            &&& first.indices[3 * t + 2] == t + 2
            &&& first.circle_offset[0].bits == 0
            &&& first.circle_offset[1].bits == 0
        }),
{
    law_vertices_are_the_centre_and_the_rim(origin(), circle_color(), rim, i);
}

/// The buffer of vertices holds the scene's own vertices, each of them whole and in its place:
/// reading it at the bytes of vertex `v` gives the position and the colour of vertex `v`.
pub proof fn law_vertex_buffer_holds_the_vertices(state: StateView, v: int)
    requires
        0 <= v < state.vertices.len(),
    ensures
        state.vertex_bytes().len() == 20 * state.vertices.len(),
        word_at(state.vertex_bytes(), 20 * v) == state.vertices[v].position[0].bits,
        word_at(state.vertex_bytes(), 20 * v + 4) == state.vertices[v].position[1].bits,
        word_at(state.vertex_bytes(), 20 * v + 8) == state.vertices[v].color[0].bits,
        word_at(state.vertex_bytes(), 20 * v + 12) == state.vertices[v].color[1].bits,
        word_at(state.vertex_bytes(), 20 * v + 16) == state.vertices[v].color[2].bits,
{
    law_vertex_bytes_hold_every_vertex(state.vertices, v);
}

/// The buffer of indices holds the scene's own indices, each in its place.
pub proof fn law_index_buffer_holds_the_indices(state: StateView, k: int)
    requires
        0 <= k < state.indices.len(),
    ensures
        state.index_bytes().len() == 2 * state.indices.len(),
        half_at(state.index_bytes(), 2 * k) == state.indices[k],
{
    law_memory_holds_halves(state.indices, k);
}

/// What is written for the shader is where the circle is: the first four bytes read as how far
/// it is to the right, the next four as how far it is up, and the rest is zero.
pub proof fn law_uniforms_hold_the_place_of_the_circle(state: StateView)
    ensures
        state.uniform_bytes().len() == 16,
        word_at(state.uniform_bytes(), 0) == state.circle_offset[0].bits,
        word_at(state.uniform_bytes(), 4) == state.circle_offset[1].bits,
        word_at(state.uniform_bytes(), 8) == 0,
        word_at(state.uniform_bytes(), 12) == 0,
{
    law_uniform_bytes_hold_every_part(uniforms_at(state.circle_offset));
}

/// A new size is taken over whole, by the scene and by its surface, where both sides have a
/// pixel; otherwise nothing changes. Nothing but the size ever changes.
pub proof fn law_resizing_takes_the_size(state: StateView, size: PhysicalSize)
    ensures
        ({
            let resized = state.resized(size);
            &&& size.width > 0 && size.height > 0 ==> resized.size.width == size.width
                && resized.size.height == size.height && resized.config.width == size.width
                && resized.config.height == size.height
            &&& size.width == 0 || size.height == 0 ==> resized == state
            &&& resized.config.usage == state.config.usage
            &&& resized.config.format == state.config.format
            &&& resized.config.present_mode == state.config.present_mode
            &&& resized.config.alpha_mode == state.config.alpha_mode
            &&& resized.config.desired_maximum_frame_latency
                == state.config.desired_maximum_frame_latency
            &&& resized.vertices == state.vertices
            &&& resized.indices == state.indices
            &&& resized.num_indices == state.num_indices
            &&& resized.circle_offset == state.circle_offset
        }),
{
}

/// A draw draws every index of the scene once.
pub proof fn law_draw_draws_every_index_once(state: StateView)
    ensures
        state.draw_call().first_index == 0,
        state.draw_call().end_index == state.num_indices,
        state.draw_call().base_vertex == 0,
        state.draw_call().first_instance == 0,
        state.draw_call().end_instance == 1,
        state.draw_call().index_format is Uint16,
        state.draw_call().bind_group == 0,
        state.draw_call().vertex_slot == 0,
        state.draw_call().store is Store,
        state.draw_call().depth_slice is None,
        state.draw_call().clear[0] == 0x3fa9_9999_9999_999a,
        state.draw_call().clear[1] == 0x3fa9_9999_9999_999a,
        state.draw_call().clear[2] == 0x3fa9_9999_9999_999a,
        state.draw_call().clear[3] == 0x3ff0_0000_0000_0000,
{
}

/// What well formed means, part by part.
pub proof fn law_well_formed_scenes(state: StateView, t: int)
    requires
        state.well_formed(),
        0 <= t < 64,
    ensures
        state.size.width > 0 ==> state.config.width == state.size.width,
        state.size.height > 0 ==> state.config.height == state.size.height,
        state.size.width == 0 ==> state.config.width == 1,
        state.size.height == 0 ==> state.config.height == 1,
        state.vertices.len() == 66,
        state.indices.len() == 192,
        state.num_indices == 192,
        state.indices[3 * t] == 0,
        state.indices[3 * t + 1] == t + 1,
        state.indices[3 * t + 2] == t + 2,
        state.circle_offset[0].bits == 0,
        !state.circle_offset[1].is_below(Scalar { bits: 0xbf66_6666 }),
{
}

} // verus!
