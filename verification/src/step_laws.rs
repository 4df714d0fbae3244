//! What each event and each outcome does to the application, part by part.

use vstd::prelude::*;

use crate::app::{
    Action, App, AppView, ElementState, FallStep, KeyCode, Next, Outcome, OutcomeView, Phase,
    PhysicalKey, WindowEvent,
};
use crate::laws::{admits, admits_all, react, run, Stimulus};
use crate::scalar::Scalar;
use crate::state::StateView;
use crate::surface::{PhysicalSize, SurfaceTextureStatus};

verus! {

/// An application is what its fields say, and so is an outcome.
pub proof fn law_application_is_its_fields(app: App, outcome: Outcome)
    ensures
        app@.state is Some == app.state is Some,
        app.state is Some ==> app@.state->0 == app.state->0@,
        app@.scene() == app@.state->0,
        app@.gravity_on == app.gravity_on,
        app@.velocity_y == app.velocity_y,
        app@.last_frame == app.last_frame,
        app@.phase == app.phase,
        outcome is Done <==> outcome@ is Done,
        outcome matches Outcome::Fallen(step) ==> outcome@ == OutcomeView::Fallen(step),
        outcome matches Outcome::Acquired(status) ==> outcome@ == OutcomeView::Acquired(status),
        outcome matches Outcome::Traced(rim) ==> outcome@ == OutcomeView::Traced(rim@),
{
}

/// The application starts at rest, without a window, and counts its time from the start.
pub proof fn law_application_starts_at_rest(now: u128)
    ensures
        AppView::first(now).state is None,
        !AppView::first(now).gravity_on,
        AppView::first(now).velocity_y.bits == 0,
        AppView::first(now).last_frame == now,
        AppView::first(now).phase is Idle,
{
}

/// With gravity on, a frame begins with a fall for exactly the time since the last frame, in
/// nanoseconds: the time of the last frame and the time of the fall make up the time of this
/// frame. A clock that went backwards gives no time. The fall is that of the circle as it is,
/// at the speed that it has, and this frame is the last frame from now on.
pub proof fn law_fall_takes_the_time_since_the_last_frame(app: AppView, now: u128)
    requires
        app.state is Some,
        app.gravity_on,
    ensures
        ({
            let (begun, action) = app.on_event(WindowEvent::RedrawRequested, now);
            &&& action matches Action::ComputeFall(input) && {
                &&& now >= app.last_frame ==> app.last_frame + input.elapsed == now
                &&& now < app.last_frame ==> input.elapsed == 0
                &&& input.velocity_y == app.velocity_y
                &&& input.offset_y == app.state->0.circle_offset[1]
                &&& input.gravity.bits == 0x4080_0000
                &&& input.restitution.bits == 0xbf00_0000
            }
            &&& begun.last_frame == now
            &&& begun.phase is Falling
            &&& begun.state == app.state
            &&& begun.gravity_on
            &&& begun.velocity_y == app.velocity_y
        }),
{
}

/// With gravity off, a frame begins with the uniforms, and nothing changes but the time of the
/// last frame.
pub proof fn law_frame_without_gravity_begins_with_the_uniforms(app: AppView, now: u128)
    requires
        app.state is Some,
        !app.gravity_on,
    ensures
        ({
            let (begun, action) = app.on_event(WindowEvent::RedrawRequested, now);
            &&& action is WriteUniforms
            &&& begun.last_frame == now
            &&& begun.phase is Writing
            &&& begun.state == app.state
            &&& !begun.gravity_on
            &&& begun.velocity_y == app.velocity_y
        }),
{
}

/// The time, in nanoseconds, that the circle falls for in the course of `stimuli`.
pub open spec fn time_fallen(app: AppView, stimuli: Seq<Stimulus>) -> int
    decreases stimuli.len(),
{
    if stimuli.len() == 0 {
        0
    } else {
        let here: int = match stimuli[0] {
            Stimulus::Event { event, now } => match app.on_event(event, now).1 {
                Action::ComputeFall(input) => input.elapsed as int,
                _ => 0,
            },
            Stimulus::Outcome(_) => 0,
        };
        here + time_fallen(react(app, stimuli[0]), stimuli.drop_first())
    }
}

/// Whether in the course of `stimuli` every frame finds gravity on and comes no earlier than the
/// frame before it.
pub open spec fn falls_all_along(app: AppView, stimuli: Seq<Stimulus>) -> bool
    decreases stimuli.len(),
{
    stimuli.len() == 0 || {
        &&& stimuli[0] matches Stimulus::Event { event: WindowEvent::RedrawRequested, now }
            ==> app.gravity_on && app.last_frame <= now
        &&& falls_all_along(react(app, stimuli[0]), stimuli.drop_first())
    }
}

/// No time is lost and none is counted twice. Over any number of frames with gravity on, and
/// whatever happens between them, the times that the circle falls for add up to the time from
/// the first frame to the last.
pub proof fn law_times_of_the_falls_add_up(app: AppView, stimuli: Seq<Stimulus>)
    requires
        app.state is Some,
        admits_all(app, stimuli),
        falls_all_along(app, stimuli),
    ensures
        app.last_frame + time_fallen(app, stimuli) == run(app, stimuli).last_frame,
    decreases stimuli.len(),
{
    if stimuli.len() > 0 {
        let next = react(app, stimuli[0]);
        assert(next.state is Some);
        law_times_of_the_falls_add_up(next, stimuli.drop_first());
    }
}

/// The event loop ends at the close of the window and at escape; G turns gravity around; the
/// space bar sets the speed to one and a half while gravity is on. A key does nothing else, and
/// any other key, any released key and any other event does nothing.
pub proof fn law_what_keys_do(app: AppView, key: KeyCode, unknown: PhysicalKey, now: u128)
    requires
        app.state is Some,
    ensures
        ({
            let (pressed, action) = app.on_event(
                WindowEvent::KeyboardInput {
                    physical_key: PhysicalKey::Code(key),
                    state: ElementState::Pressed,
                },
                now,
            );
            &&& pressed.state == app.state
            &&& pressed.last_frame == app.last_frame
            &&& pressed.phase == app.phase
            &&& pressed.gravity_on == if key is KeyG {
                !app.gravity_on
            } else {
                app.gravity_on
            }
            &&& key is Space && app.gravity_on ==> pressed.velocity_y.bits == 0x3fc0_0000
            &&& !(key is Space && app.gravity_on) ==> pressed.velocity_y == app.velocity_y
            &&& key is Escape ==> action is Exit
            &&& !(key is Escape) ==> action is Wait
        }),
        app.on_event(
            WindowEvent::KeyboardInput { physical_key: unknown, state: ElementState::Released },
            now,
        ) == (app, Action::Wait),
        app.on_event(
            WindowEvent::KeyboardInput {
                physical_key: PhysicalKey::Unidentified,
                state: ElementState::Pressed,
            },
            now,
        ) == (app, Action::Wait),
        app.on_event(WindowEvent::Other, now) == (app, Action::Wait),
        app.on_event(WindowEvent::CloseRequested, now) == (app, Action::Exit),
{
}

/// A new size with a pixel on both sides is taken over by the scene and its surface, and the
/// circle is asked for in that size, its width the window's width and its height the window's
/// height. Any other size does nothing.
pub proof fn law_what_a_new_size_does(app: AppView, size: PhysicalSize, now: u128)
    requires
        app.state is Some,
    ensures
        ({
            let (resized, action) = app.on_event(WindowEvent::Resized(size), now);
            let before = app.state->0;
            let after = resized.state->0;
            &&& size.width == 0 || size.height == 0 ==> resized == app && action is Wait
            &&& size.width > 0 && size.height > 0 ==> {
                &&& action matches Action::Reconfigure(shape) && {
                    &&& shape.width == size.width
                    &&& shape.height == size.height
                    &&& shape.segments == 64
                    &&& shape.radius.bits == 0x3ca3_d70a
                    &&& shape.center[0].bits == 0
                    &&& shape.center[1].bits == 0
                    &&& shape.color[0].bits == 0x3e4c_cccd
                    &&& shape.color[1].bits == 0x3ecc_cccd
                    &&& shape.color[2].bits == 0x3f80_0000
                }
                &&& resized.phase == Phase::Reconfiguring(Next::Rest)
                &&& resized.state is Some
                &&& after.size == size
                &&& after.config.width == size.width
                &&& after.config.height == size.height
                &&& after.config.format == before.config.format
                &&& after.vertices == before.vertices
                &&& after.indices == before.indices
                &&& after.num_indices == before.num_indices
                &&& after.circle_offset == before.circle_offset
                &&& resized.gravity_on == app.gravity_on
                &&& resized.velocity_y == app.velocity_y
                &&& resized.last_frame == app.last_frame
            }
        }),
{
}

/// What is awaited: the step of a fall that was asked for, the answer of a surface that was
/// asked, a whole rim where one was to be traced, and of every other action that it is done.
pub proof fn law_what_is_awaited(app: AppView, outcome: OutcomeView)
    requires
        app.state is Some,
    ensures
        app.phase is Idle ==> !app.awaits(outcome),
        app.phase is Falling ==> (app.awaits(outcome) <==> outcome is Fallen),
        app.phase is Acquiring ==> (app.awaits(outcome) <==> outcome is Acquired),
        app.phase is Reconfiguring ==> (app.awaits(outcome) <==> outcome is Traced
            && outcome->Traced_0.len() == 65),
        app.phase is Writing || app.phase is Uploading || app.phase is Drawing
            || app.phase is Requesting ==> (app.awaits(outcome) <==> outcome is Done),
{
}

/// After a step of the fall the circle is as high as the step says, unless that is below the
/// floor: then it is at the floor and has the speed of the rebound. It stays where it is
/// sideways, the uniforms are next, and nothing else changes.
pub proof fn law_what_a_fall_does(app: AppView, step: FallStep)
    requires
        app.state is Some,
        app.phase is Falling,
    ensures
        ({
            let (fallen, action) = app.on_outcome(OutcomeView::Fallen(step));
            let before = app.state->0;
            let after = fallen.state->0;
            let bottom = Scalar { bits: 0xbf66_6666 };
            &&& action is WriteUniforms
            &&& fallen.phase is Writing
            &&& fallen.state is Some
            &&& step.offset_y.is_below(bottom) ==> after.circle_offset[1] == bottom
                && fallen.velocity_y == step.rebound_velocity_y
            &&& !step.offset_y.is_below(bottom) ==> after.circle_offset[1] == step.offset_y
                && fallen.velocity_y == step.velocity_y
            &&& after.circle_offset[0] == before.circle_offset[0]
            &&& after.size == before.size
            &&& after.config == before.config
            &&& after.vertices == before.vertices
            &&& after.indices == before.indices
            &&& after.num_indices == before.num_indices
            &&& fallen.gravity_on == app.gravity_on
            &&& fallen.last_frame == app.last_frame
        }),
{
}

/// Once the uniforms are written the surface is asked for a texture; once the frame is drawn the
/// next one is requested; once that is done the application waits. None of them changes
/// anything else.
pub proof fn law_what_done_does(app: AppView)
    requires
        app.state is Some,
    ensures
        ({
            let (next, action) = app.on_outcome(OutcomeView::Done);
            let passes = app.phase is Writing || app.phase is Uploading || app.phase is Drawing
                || app.phase is Requesting;
            &&& passes ==> next.state == app.state && next.gravity_on == app.gravity_on
                && next.velocity_y == app.velocity_y && next.last_frame == app.last_frame
            &&& app.phase is Writing ==> action is AcquireTexture && next.phase is Acquiring
            &&& app.phase is Drawing || app.phase == Phase::Uploading(Next::Request)
                ==> action is RequestRedraw && next.phase is Requesting
            &&& app.phase is Requesting || app.phase == Phase::Uploading(Next::Rest)
                ==> action is Wait && next.phase is Idle
            &&& app.phase == Phase::Uploading(Next::Draw) ==> next.phase is Drawing && (
            action matches Action::Draw(call) && call.first_index == 0 && call.end_index
                == app.state->0.num_indices && call.end_instance == 1)
        }),
{
}

/// Once a rim is traced the mesh is that of the rim, point by point: vertex `i + 1` lies where
/// point `i` does. The buffers are next, whatever is to follow still follows, and nothing else
/// changes.
pub proof fn law_what_a_rim_does(app: AppView, rim: Seq<[Scalar; 2]>, i: int)
    requires
        app.state is Some,
        app.phase is Reconfiguring,
        rim.len() == 65,
        0 <= i < 65,
    ensures
        ({
            let (traced, action) = app.on_outcome(OutcomeView::Traced(rim));
            let before = app.state->0;
            let after = traced.state->0;
            &&& action is CreateBuffers
            &&& traced.phase is Uploading
            &&& traced.phase->Uploading_0 == app.phase->Reconfiguring_0
            &&& traced.state is Some
            &&& after.vertices.len() == 66
            &&& after.vertices[0].position[0].bits == 0
            &&& after.vertices[0].position[1].bits == 0
            &&& after.vertices[i + 1].position == rim[i]
            &&& after.indices.len() == 192
            &&& after.num_indices == 192
            &&& after.size == before.size
            &&& after.config == before.config
            &&& after.circle_offset == before.circle_offset
            &&& traced.gravity_on == app.gravity_on
            &&& traced.velocity_y == app.velocity_y
            &&& traced.last_frame == app.last_frame
        }),
{
    crate::circle::law_vertices_are_the_centre_and_the_rim(
        crate::state::origin(),
        crate::state::circle_color(),
        rim,
        i,
    );
}

/// What follows from the surface's answer. A frame is drawn exactly where a texture came with the
/// answer. Where the surface no longer fits and the window has an area, the surface is given the
/// size of the window and the circle is asked for in that size before that.
pub proof fn law_what_the_surface_says(app: AppView, status: SurfaceTextureStatus)
    requires
        app.state is Some,
        app.phase is Acquiring,
    ensures
        ({
            let (next, action) = app.on_outcome(OutcomeView::Acquired(status));
            let before = app.state->0;
            let after = next.state->0;
            let misfits = status is Suboptimal || status is Outdated || status is Lost;
            let texture = status is Success || status is Suboptimal;
            let visible = before.size.width > 0 && before.size.height > 0;
            &&& next.state is Some
            &&& next.gravity_on == app.gravity_on
            &&& next.velocity_y == app.velocity_y
            &&& next.last_frame == app.last_frame
            &&& after.size == before.size
            &&& after.vertices == before.vertices
            &&& after.indices == before.indices
            &&& after.num_indices == before.num_indices
            &&& after.circle_offset == before.circle_offset
            &&& after.config.format == before.config.format
            &&& misfits && visible ==> {
                &&& action matches Action::Reconfigure(shape) && {
                    &&& shape.width == before.size.width
                    &&& shape.height == before.size.height
                    &&& shape.segments == 64
                    &&& shape.radius.bits == 0x3ca3_d70a
                }
                &&& next.phase == Phase::Reconfiguring(
                    if texture {
                        Next::Draw
                    } else {
                        Next::Request
                    },
                )
                &&& after.config.width == before.size.width
                &&& after.config.height == before.size.height
            }
            &&& !(misfits && visible) ==> after.config == before.config
            &&& !(misfits && visible) && texture ==> next.phase is Drawing && (
            action matches Action::Draw(call) && call.first_index == 0 && call.end_index
                == before.num_indices && call.end_instance == 1)
            &&& !(misfits && visible) && !texture ==> next.phase is Requesting
                && action is RequestRedraw
        }),
{
}

/// Whether the circle is above the floor or on it, and neither left nor right.
pub open spec fn is_in_its_lane(state: StateView) -> bool {
    &&& state.circle_offset[0].bits == 0
    &&& !state.circle_offset[1].is_below(Scalar { bits: 0xbf66_6666 })
}

/// Whatever happens, in whatever order, a circle that is on or above the floor, and neither left
/// nor right, stays so.
pub proof fn law_circle_keeps_to_its_lane(app: AppView, stimuli: Seq<Stimulus>)
    requires
        app.state is Some,
        is_in_its_lane(app.state->0),
        admits_all(app, stimuli),
    ensures
        run(app, stimuli).state is Some,
        run(app, stimuli).state->0.circle_offset[0].bits == 0,
        !run(app, stimuli).state->0.circle_offset[1].is_below(Scalar { bits: 0xbf66_6666 }),
    decreases stimuli.len(),
{
    if stimuli.len() > 0 {
        let next = react(app, stimuli[0]);
        assert(admits(app, stimuli[0]));
        assert(next.state is Some && is_in_its_lane(next.state->0)) by {
            crate::scalar::law_order_of_the_patterns(
                Scalar { bits: 0xbf66_6666 },
                Scalar { bits: 0xbf66_6666 },
            );
        }
        law_circle_keeps_to_its_lane(next, stimuli.drop_first());
    }
}

} // verus!
