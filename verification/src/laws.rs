//! What holds of the application as a whole, whatever the window reports and whatever comes
//! of its actions.

use vstd::prelude::*;

use crate::app::{
    time_between, Action, AppView, ElementState, FallInput, FallStep, KeyCode, Next, OutcomeView,
    Phase, PhysicalKey, WindowEvent, GRAVITY, JUMP_SPEED, RESTITUTION,
};
use crate::bytes::{law_machine_reads_its_memory, words};
use crate::circle::law_mesh_uses_exactly_its_vertices;
use crate::pipeline::PipelinePlan;
use crate::scalar::Scalar;
use crate::state::{
    asks_for_configuration, brings_texture, centered_circle, circle_color, origin, uniforms_at,
    StateView,
    FLOOR_LIMIT, REBUILT_RADIUS, SEGMENTS,
};
use crate::surface::{PhysicalSize, SurfaceConfiguration, SurfaceTextureStatus};

verus! {

/// One thing that the application reacts to.
pub enum Stimulus {
    Event { event: WindowEvent, now: u128 },
    Outcome(OutcomeView),
}

/// Whether the application can be handed `stimulus`: an event when nothing is awaited, and
/// the outcome of an action when it is awaited.
pub open spec fn admits(app: AppView, stimulus: Stimulus) -> bool {
    match stimulus {
        Stimulus::Event { .. } => app.phase is Idle,
        Stimulus::Outcome(outcome) => app.awaits(outcome),
    }
}

/// The application after its reaction to `stimulus`.
pub open spec fn react(app: AppView, stimulus: Stimulus) -> AppView {
    match stimulus {
        Stimulus::Event { event, now } => app.on_event(event, now).0,
        Stimulus::Outcome(outcome) => app.on_outcome(outcome).0,
    }
}

/// Whether the application can be handed all of `stimuli`, one after the other.
pub open spec fn admits_all(app: AppView, stimuli: Seq<Stimulus>) -> bool
    decreases stimuli.len(),
{
    stimuli.len() == 0 || (admits(app, stimuli[0]) && admits_all(
        react(app, stimuli[0]),
        stimuli.drop_first(),
    ))
}

/// The application after all of `stimuli`.
pub open spec fn run(app: AppView, stimuli: Seq<Stimulus>) -> AppView
    decreases stimuli.len(),
{
    if stimuli.len() == 0 {
        app
    } else {
        run(react(app, stimuli[0]), stimuli.drop_first())
    }
}

/// The actions that the application answers `outcomes` with.
pub open spec fn answers(app: AppView, outcomes: Seq<OutcomeView>) -> Seq<Action>
    decreases outcomes.len(),
{
    if outcomes.len() == 0 {
        seq![]
    } else {
        seq![app.on_outcome(outcomes[0]).1] + answers(
            app.on_outcome(outcomes[0]).0,
            outcomes.drop_first(),
        )
    }
}

/// The application after `outcomes`.
pub open spec fn after(app: AppView, outcomes: Seq<OutcomeView>) -> AppView
    decreases outcomes.len(),
{
    if outcomes.len() == 0 {
        app
    } else {
        after(app.on_outcome(outcomes[0]).0, outcomes.drop_first())
    }
}

/// Whether each of `outcomes` is awaited when it comes.
pub open spec fn all_awaited(app: AppView, outcomes: Seq<OutcomeView>) -> bool
    decreases outcomes.len(),
{
    outcomes.len() == 0 || (app.awaits(outcomes[0]) && all_awaited(
        app.on_outcome(outcomes[0]).0,
        outcomes.drop_first(),
    ))
}

/// The most outcomes that are still awaited before the next event.
pub open spec fn outcomes_left(phase: Phase) -> nat {
    match phase {
        Phase::Idle => 0,
        Phase::Falling => 7,
        Phase::Writing => 6,
        Phase::Acquiring => 5,
        Phase::Reconfiguring(Next::Rest) => 2,
        Phase::Reconfiguring(Next::Request) => 3,
        Phase::Reconfiguring(Next::Draw) => 4,
        Phase::Uploading(Next::Rest) => 1,
        Phase::Uploading(Next::Request) => 2,
        Phase::Uploading(Next::Draw) => 3,
        Phase::Drawing => 2,
        Phase::Requesting => 1,
    }
}

/// One reaction keeps the application well formed, and a window once opened stays.
pub proof fn law_reactions_keep_well_formed(app: AppView, stimulus: Stimulus)
    requires
        app.well_formed(),
        admits(app, stimulus),
    ensures
        react(app, stimulus).well_formed(),
        react(app, stimulus).state is Some == app.state is Some,
{
}

/// The circle never sinks through the floor and never moves sideways, the surface always has
/// the size of the window, and a whole circle is always drawn: whatever happens, in whatever
/// order, a well formed application stays so.
pub proof fn law_runs_keep_well_formed(app: AppView, stimuli: Seq<Stimulus>)
    requires
        app.well_formed(),
        admits_all(app, stimuli),
    ensures
        run(app, stimuli).well_formed(),
        run(app, stimuli).state is Some == app.state is Some,
    decreases stimuli.len(),
{
    if stimuli.len() > 0 {
        law_reactions_keep_well_formed(app, stimuli[0]);
        law_runs_keep_well_formed(react(app, stimuli[0]), stimuli.drop_first());
    }
}

/// The pipeline serves as long as the window is there: it is made for the format of the
/// surface, and no reaction changes that format, nor anything else of the surface's
/// configuration but its size.
pub proof fn law_surface_keeps_its_format(app: AppView, stimuli: Seq<Stimulus>)
    requires
        app.state is Some,
        admits_all(app, stimuli),
    ensures
        run(app, stimuli).state is Some,
        run(app, stimuli).scene().config == (SurfaceConfiguration {
            width: run(app, stimuli).scene().config.width,
            height: run(app, stimuli).scene().config.height,
            ..app.scene().config
        }),
    decreases stimuli.len(),
{
    if stimuli.len() > 0 {
        law_surface_keeps_its_format(react(app, stimuli[0]), stimuli.drop_first());
    }
}

/// The application is well formed before its first window, and with the scene that its first
/// window starts with.
pub proof fn law_first_window_is_well_formed(
    now: u128,
    size: PhysicalSize,
    formats: Seq<wgpu::TextureFormat>,
    alpha_modes: Seq<wgpu::CompositeAlphaMode>,
    rim: Seq<[Scalar; 2]>,
)
    requires
        rim.len() == SEGMENTS + 1,
    ensures
        AppView::first(now).well_formed(),
        (AppView {
            state: Some(StateView::first(size, formats, alpha_modes, rim)),
            ..AppView::first(now)
        }).well_formed(),
{
}

/// A step of the fall never leaves the circle below the floor. A step that would is cut short
/// at the floor and turned around; any other step is taken as it is. Nothing else changes.
pub proof fn law_floor_holds(app: AppView, step: FallStep)
    requires
        app.state is Some,
    ensures
        ({
            let bottom = Scalar { bits: FLOOR_LIMIT };
            let fallen = app.fallen(step);
            &&& !fallen.scene().circle_offset[1].is_below(bottom)
            &&& fallen.scene().circle_offset[0] == app.scene().circle_offset[0]
            &&& step.offset_y.is_below(bottom) ==> fallen.scene().circle_offset[1] == bottom
                && fallen.velocity_y == step.rebound_velocity_y
            &&& !step.offset_y.is_below(bottom) ==> fallen.scene().circle_offset[1]
                == step.offset_y && fallen.velocity_y == step.velocity_y
            &&& fallen.scene().vertices == app.scene().vertices
            &&& fallen.scene().indices == app.scene().indices
            &&& fallen.scene().size == app.scene().size
            &&& fallen.scene().config == app.scene().config
        }),
{
}

/// Without a window nothing happens, whatever is reported.
pub proof fn law_nothing_happens_without_a_window(app: AppView, event: WindowEvent, now: u128)
    requires
        app.state is None,
    ensures
        app.on_event(event, now) == (app, Action::Wait),
{
}

/// The event loop ends when the window is closed or escape is pressed, and at no other event.
/// Nothing else comes of these two.
pub proof fn law_exit(app: AppView, event: WindowEvent, now: u128)
    requires
        app.state is Some,
    ensures
        app.on_event(event, now).1 is Exit <==> (event is CloseRequested || event
            == (WindowEvent::KeyboardInput {
            physical_key: PhysicalKey::Code(KeyCode::Escape),
            state: ElementState::Pressed,
        })),
        app.on_event(event, now).1 is Exit ==> app.on_event(event, now).0 == app,
{
}

/// Pressing G twice leaves everything as it was, and pressing it once leaves all but gravity
/// as it was.
pub proof fn law_gravity_toggles(app: AppView, first: u128, second: u128)
    ensures
        ({
            let press = WindowEvent::KeyboardInput {
                physical_key: PhysicalKey::Code(KeyCode::KeyG),
                state: ElementState::Pressed,
            };
            let once = app.on_event(press, first).0;
            &&& once.on_event(press, second).0 == app
            &&& app.state is Some ==> once == (AppView { gravity_on: !app.gravity_on, ..app })
        }),
{
}

/// The space bar makes the circle jump while gravity is on, however it moved before, and does
/// nothing while gravity is off.
pub proof fn law_jump_needs_gravity(app: AppView, now: u128)
    requires
        app.state is Some,
    ensures
        ({
            let press = WindowEvent::KeyboardInput {
                physical_key: PhysicalKey::Code(KeyCode::Space),
                state: ElementState::Pressed,
            };
            let pressed = app.on_event(press, now);
            &&& app.gravity_on ==> pressed.0 == (AppView {
                velocity_y: Scalar { bits: JUMP_SPEED },
                ..app
            })
            &&& !app.gravity_on ==> pressed.0 == app
            &&& pressed.1 is Wait
        }),
{
}

/// Releasing a key does nothing, nor does a key that the keyboard cannot identify.
pub proof fn law_only_known_presses_count(
    app: AppView,
    physical_key: PhysicalKey,
    state: ElementState,
    now: u128,
)
    requires
        state is Released || physical_key is Unidentified,
    ensures
        app.on_event(WindowEvent::KeyboardInput { physical_key, state }, now) == (
            app,
            Action::Wait,
        ),
{
}

/// Only a step of the fall moves the circle, and only with gravity on does a frame begin with
/// one: with gravity off the circle stays where it is.
pub proof fn law_circle_rests_without_gravity(app: AppView, stimulus: Stimulus)
    requires
        app.state is Some,
        admits(app, stimulus),
    ensures
        !(app.phase is Falling) ==> react(app, stimulus).scene().circle_offset
            == app.scene().circle_offset,
        !app.gravity_on ==> !(react(app, stimulus).phase is Falling),
{
}

/// The time that a step of the fall is computed for runs from the last frame to this one, and
/// nothing but a frame moves the time of the last frame.
pub proof fn law_falls_last_from_frame_to_frame(app: AppView, stimulus: Stimulus)
    requires
        app.state is Some,
        admits(app, stimulus),
    ensures
        stimulus matches Stimulus::Event { event: WindowEvent::RedrawRequested, now } ==> react(
            app,
            stimulus,
        ).last_frame == now && (app.gravity_on ==> (app.on_event(
            WindowEvent::RedrawRequested,
            now,
        ).1 matches Action::ComputeFall(input) && input.elapsed == time_between(
            app.last_frame,
            now,
        ))),
        !(stimulus matches Stimulus::Event { event: WindowEvent::RedrawRequested, .. })
            ==> react(app, stimulus).last_frame == app.last_frame,
{
}

/// A size without an area is ignored. Any other is taken over by the surface as it is, the
/// last one counts, and taking over the size that is already there changes nothing.
pub proof fn law_last_size_counts(state: StateView, first: PhysicalSize, second: PhysicalSize)
    ensures
        !first.has_area() ==> state.resized(first) == state,
        first.has_area() ==> state.resized(first).size == first && state.resized(
            first,
        ).config.width == first.width && state.resized(first).config.height == first.height,
        second.has_area() ==> state.resized(first).resized(second) == state.resized(second),
        state.resized(first).resized(first) == state.resized(first),
        state.well_formed() ==> state.resized(state.size) == state,
{
}

/// What the vertex shader reads depends on nothing but where the circle is. Scenes that have it
/// in the same place have the same uniforms, so writing them again changes nothing; and
/// uniforms that are the same have it in the same place.
pub proof fn law_uniforms_follow_the_offset(a: StateView, b: StateView)
    ensures
        a.uniform_bytes() == b.uniform_bytes() <==> a.circle_offset == b.circle_offset,
{
    if a.uniform_bytes() == b.uniform_bytes() {
        let mine = words(uniforms_at(a.circle_offset).components());
        let theirs = words(uniforms_at(b.circle_offset).components());
        law_machine_reads_its_memory(mine, 4, 0);
        law_machine_reads_its_memory(mine, 4, 1);
        law_machine_reads_its_memory(theirs, 4, 0);
        law_machine_reads_its_memory(theirs, 4, 1);
        assert(a.circle_offset =~= b.circle_offset);
    }
}

/// What the buffers are rebuilt to depends on nothing but the size of the window. Scenes of one
/// size ask for the same circle, whatever else they hold, and from its rim they get the same
/// mesh, the same buffers to the byte and the same number of indices.
pub proof fn law_rebuilt_buffers_follow_the_size(
    a: StateView,
    b: StateView,
    rim: Seq<[Scalar; 2]>,
)
    requires
        a.size == b.size,
    ensures
        centered_circle(a.size, Scalar { bits: REBUILT_RADIUS }) == centered_circle(
            b.size,
            Scalar { bits: REBUILT_RADIUS },
        ),
        a.rebuilt(rim).vertices == b.rebuilt(rim).vertices,
        a.rebuilt(rim).indices == b.rebuilt(rim).indices,
        a.rebuilt(rim).vertex_bytes() == b.rebuilt(rim).vertex_bytes(),
        a.rebuilt(rim).index_bytes() == b.rebuilt(rim).index_bytes(),
        a.rebuilt(rim).num_indices == b.rebuilt(rim).num_indices == 3 * SEGMENTS,
{
}

/// Rebuilding the buffers again changes nothing, and rebuilding them at all leaves the size, the
/// configuration and the place of the circle as they are.
pub proof fn law_rebuilding_again_changes_nothing(
    state: StateView,
    earlier: Seq<[Scalar; 2]>,
    rim: Seq<[Scalar; 2]>,
)
    ensures
        state.rebuilt(rim).rebuilt(rim) == state.rebuilt(rim),
        state.rebuilt(earlier).rebuilt(rim) == state.rebuilt(rim),
        state.rebuilt(rim).size == state.size,
        state.rebuilt(rim).config == state.config,
        state.rebuilt(rim).circle_offset == state.circle_offset,
        state.rebuilt(rim).uniform_bytes() == state.uniform_bytes(),
{
}

/// What is drawn lies in the buffers: a draw of a well formed scene reads the index buffer
/// from its start to its end, each index takes the two bytes of the format that the draw names,
/// every index is that of a vertex of the vertex buffer, and they make up whole triangles.
pub proof fn law_draw_stays_in_the_buffers(state: StateView)
    requires
        state.well_formed(),
    ensures
        state.draw_call().first_index == 0,
        state.draw_call().end_index == state.indices.len(),
        state.draw_call().end_index == 3 * SEGMENTS,
        state.draw_call().index_format is Uint16,
        state.index_bytes().len() == 2 * state.draw_call().end_index,
        forall|k: int|
            0 <= k < state.indices.len() ==> #[trigger] state.indices[k] < state.vertices.len(),
{
    let rim = Seq::new((SEGMENTS + 1) as nat, |i: int| origin());
    law_mesh_uses_exactly_its_vertices(SEGMENTS as int, origin(), circle_color(), rim);
}

/// A draw binds the uniforms as the group in which the shaders of the pipeline look for them,
/// and its triangles are joined as the pipeline joins them.
pub proof fn law_draw_fits_the_pipeline(state: StateView, plan: PipelinePlan)
    requires
        state.well_formed(),
        plan.draws_circles(state.config.format),
    ensures
        plan.uniforms.group == state.draw_call().bind_group,
        plan.target_format == state.config.format,
        plan.topology is TriangleList,
        state.draw_call().end_index % 3 == 0,
{
}

/// Every event is dealt with after at most seven outcomes: each outcome that is awaited leaves
/// fewer to come, and with none to come nothing is awaited.
pub proof fn law_events_are_finished(app: AppView, outcome: OutcomeView)
    requires
        app.awaits(outcome),
    ensures
        outcomes_left(app.on_outcome(outcome).0.phase) < outcomes_left(app.phase) <= 7,
        outcomes_left(app.on_outcome(outcome).0.phase) == 0 ==> app.on_outcome(
            outcome,
        ).0.phase is Idle,
{
}

/// What is handed to the application in the course of a frame.
pub open spec fn frame_outcomes(
    app: AppView,
    step: FallStep,
    status: SurfaceTextureStatus,
    rim: Seq<[Scalar; 2]>,
) -> Seq<OutcomeView> {
    let falls = if app.gravity_on {
        seq![OutcomeView::Fallen(step)]
    } else {
        seq![]
    };
    let rebuilds = if asks_for_configuration(status) && app.scene().size.has_area() {
        seq![OutcomeView::Traced(rim), OutcomeView::Done]
    } else {
        seq![]
    };
    let draws = if brings_texture(status) {
        seq![OutcomeView::Done]
    } else {
        seq![]
    };
    falls + (seq![OutcomeView::Done, OutcomeView::Acquired(status)] + (rebuilds + (draws
        + seq![OutcomeView::Done])))
}

/// The actions of a frame, in their order: the fall with gravity on; the uniforms; the
/// texture; the surface and the buffers, where they no longer fit and the window has an area;
/// the draw, where there is a texture; and the request for the next frame.
pub open spec fn frame_actions(
    app: AppView,
    now: u128,
    status: SurfaceTextureStatus,
) -> Seq<Action> {
    let falls = if app.gravity_on {
        seq![
            Action::ComputeFall(
                FallInput {
                    elapsed: time_between(app.last_frame, now),
                    velocity_y: app.velocity_y,
                    offset_y: app.scene().circle_offset[1],
                    gravity: Scalar { bits: GRAVITY },
                    restitution: Scalar { bits: RESTITUTION },
                },
            ),
        ]
    } else {
        seq![]
    };
    let rebuilds = if asks_for_configuration(status) && app.scene().size.has_area() {
        seq![
            Action::Reconfigure(
                centered_circle(app.scene().size, Scalar { bits: REBUILT_RADIUS }),
            ),
            Action::CreateBuffers,
        ]
    } else {
        seq![]
    };
    let draws = if brings_texture(status) {
        seq![Action::Draw(app.scene().draw_call())]
    } else {
        seq![]
    };
    falls + (seq![Action::WriteUniforms, Action::AcquireTexture] + (rebuilds + (draws + seq![
        Action::RequestRedraw,
    ])))
}

/// The application after a frame.
pub open spec fn after_frame(
    app: AppView,
    now: u128,
    step: FallStep,
    status: SurfaceTextureStatus,
    rim: Seq<[Scalar; 2]>,
) -> AppView {
    let timed = AppView { last_frame: now, ..app };
    let fallen = if app.gravity_on {
        timed.fallen(step)
    } else {
        timed
    };
    if asks_for_configuration(status) && app.scene().size.has_area() {
        AppView {
            state: Some(fallen.scene().resized(fallen.scene().size).rebuilt(rim)),
            ..fallen
        }
    } else {
        fallen
    }
}

/// One more outcome at the front.
proof fn lemma_one_outcome(app: AppView, outcome: OutcomeView, rest: Seq<OutcomeView>)
    ensures
        answers(app, seq![outcome] + rest) == seq![app.on_outcome(outcome).1] + answers(
            app.on_outcome(outcome).0,
            rest,
        ),
        after(app, seq![outcome] + rest) == after(app.on_outcome(outcome).0, rest),
        all_awaited(app, seq![outcome] + rest) == (app.awaits(outcome) && all_awaited(
            app.on_outcome(outcome).0,
            rest,
        )),
{
    assert((seq![outcome] + rest).drop_first() =~= rest);
}

/// The end of a frame, once the buffers are as they should be.
proof fn lemma_frame_end(app: AppView, draw: bool)
    requires
        app.state is Some,
    ensures
        ({
            let (next, action) = app.go_on(
                if draw {
                    Next::Draw
                } else {
                    Next::Request
                },
            );
            let draws = if draw {
                seq![OutcomeView::Done]
            } else {
                seq![]
            };
            let drawn = if draw {
                seq![Action::Draw(app.scene().draw_call())]
            } else {
                seq![]
            };
            let outcomes = draws + seq![OutcomeView::Done];
            &&& seq![action] + answers(next, outcomes) == drawn + seq![
                Action::RequestRedraw,
                Action::Wait,
            ]
            &&& all_awaited(next, outcomes)
            &&& after(next, outcomes) == (AppView { phase: Phase::Idle, ..app })
        }),
{
    let none = Seq::<OutcomeView>::empty();
    let requesting = AppView { phase: Phase::Requesting, ..app };
    let drawing = AppView { phase: Phase::Drawing, ..app };
    lemma_one_outcome(requesting, OutcomeView::Done, none);
    lemma_one_outcome(drawing, OutcomeView::Done, seq![OutcomeView::Done]);
    assert(seq![OutcomeView::Done] + none =~= seq![OutcomeView::Done]);
    assert(none + seq![OutcomeView::Done] =~= seq![OutcomeView::Done]);
    assert(seq![Action::Wait] + Seq::<Action>::empty() =~= seq![Action::Wait]);
}

/// Every new size takes the same course. A size with an area is taken over at once; then the
/// application asks for the surface to be configured and the rim of the circle in that size to
/// be traced, and for the buffers to be created, each once and in that order; then it waits for
/// the next event. In the end the scene has the new size and the new mesh, and all else is as it
/// was. A size without an area leads to nothing.
pub proof fn law_course_of_a_resize(
    app: AppView,
    size: PhysicalSize,
    now: u128,
    rim: Seq<[Scalar; 2]>,
)
    requires
        app.state is Some,
        app.phase is Idle,
        rim.len() == SEGMENTS + 1,
    ensures
        ({
            let (begun, action) = app.on_event(WindowEvent::Resized(size), now);
            let outcomes = seq![OutcomeView::Traced(rim), OutcomeView::Done];
            if size.has_area() {
                &&& begun.scene() == app.scene().resized(size)
                &&& all_awaited(begun, outcomes)
                &&& seq![action] + answers(begun, outcomes) == seq![
                    Action::Reconfigure(
                        centered_circle(size, Scalar { bits: REBUILT_RADIUS }),
                    ),
                    Action::CreateBuffers,
                    Action::Wait,
                ]
                &&& after(begun, outcomes) == (AppView {
                    state: Some(app.scene().resized(size).rebuilt(rim)),
                    ..app
                })
            } else {
                begun == app && action is Wait
            }
        }),
{
    if size.has_area() {
        let (begun, action) = app.on_event(WindowEvent::Resized(size), now);
        let none = Seq::<OutcomeView>::empty();
        let traced = begun.on_outcome(OutcomeView::Traced(rim)).0;
        let outcomes = seq![OutcomeView::Traced(rim), OutcomeView::Done];
        lemma_one_outcome(begun, OutcomeView::Traced(rim), seq![OutcomeView::Done]);
        lemma_one_outcome(traced, OutcomeView::Done, none);
        assert(seq![OutcomeView::Done] + none =~= seq![OutcomeView::Done]);
        assert(outcomes =~= seq![OutcomeView::Traced(rim)] + seq![OutcomeView::Done]);
        assert(seq![action] + answers(begun, outcomes) =~= seq![
            Action::Reconfigure(centered_circle(size, Scalar { bits: REBUILT_RADIUS })),
            Action::CreateBuffers,
            Action::Wait,
        ]);
    }
}

/// Every frame takes the same course. Once the window is to be redrawn, the application asks
/// for the actions of [`frame_actions`], in that order and no others, whatever comes of them;
/// then it waits for the next event. So every frame ends with the request for the next one,
/// it draws exactly when the surface gave it a texture, and it draws after the uniforms are
/// written and the buffers fit.
pub proof fn law_course_of_a_frame(
    app: AppView,
    now: u128,
    step: FallStep,
    status: SurfaceTextureStatus,
    rim: Seq<[Scalar; 2]>,
)
    requires
        app.well_formed(),
        app.state is Some,
        app.phase is Idle,
        rim.len() == SEGMENTS + 1,
    ensures
        ({
            let (begun, action) = app.on_event(WindowEvent::RedrawRequested, now);
            let outcomes = frame_outcomes(app, step, status, rim);
            &&& all_awaited(begun, outcomes)
            &&& seq![action] + answers(begun, outcomes) == frame_actions(app, now, status).push(
                Action::Wait,
            )
            &&& after(begun, outcomes) == after_frame(app, now, step, status, rim)
        }),
{
    let (begun, action) = app.on_event(WindowEvent::RedrawRequested, now);
    let timed = AppView { last_frame: now, ..app };
    let fallen = if app.gravity_on {
        timed.fallen(step)
    } else {
        timed
    };
    let writing = AppView { phase: Phase::Writing, ..fallen };
    let acquiring = AppView { phase: Phase::Acquiring, ..fallen };
    let draw = brings_texture(status);
    let rebuild = asks_for_configuration(status) && app.scene().size.has_area();
    let draws = if draw {
        seq![OutcomeView::Done]
    } else {
        seq![]
    };
    let drawn = if draw {
        seq![Action::Draw(app.scene().draw_call())]
    } else {
        seq![]
    };
    let end = draws + seq![OutcomeView::Done];
    let last = drawn + seq![Action::RequestRedraw, Action::Wait];

    let rebuilds = if rebuild {
        seq![OutcomeView::Traced(rim), OutcomeView::Done]
    } else {
        seq![]
    };
    let rebuilt_actions = if rebuild {
        seq![
            Action::Reconfigure(
                centered_circle(app.scene().size, Scalar { bits: REBUILT_RADIUS }),
            ),
            Action::CreateBuffers,
        ]
    } else {
        seq![]
    };
    let finished = after_frame(app, now, step, status, rim);
    let (answered, first) = acquiring.on_texture(status);
    assert(seq![first] + answers(answered, rebuilds + end) == rebuilt_actions + last
        && all_awaited(answered, rebuilds + end) && after(answered, rebuilds + end) == finished)
        by {
        if rebuild {
            let traced = answered.on_outcome(OutcomeView::Traced(rim)).0;
            lemma_one_outcome(answered, OutcomeView::Traced(rim), seq![OutcomeView::Done] + end);
            lemma_one_outcome(traced, OutcomeView::Done, end);
            lemma_frame_end(traced, draw);
            assert(rebuilds + end =~= seq![OutcomeView::Traced(rim)] + (seq![OutcomeView::Done]
                + end));
            assert(seq![first] + answers(answered, rebuilds + end) =~= rebuilt_actions + last);
            assert(AppView { phase: Phase::Idle, ..traced } =~= finished);
        } else {
            lemma_frame_end(acquiring, draw);
            assert(rebuilds + end =~= end);
            assert(rebuilt_actions + last =~= last);
            assert(AppView { phase: Phase::Idle, ..acquiring } =~= finished);
        }
    }
    let tail = seq![OutcomeView::Done, OutcomeView::Acquired(status)] + (rebuilds + end);
    assert(tail =~= seq![OutcomeView::Done] + (seq![OutcomeView::Acquired(status)] + (rebuilds
        + end)));
    lemma_one_outcome(
        writing,
        OutcomeView::Done,
        seq![OutcomeView::Acquired(status)] + (rebuilds + end),
    );
    lemma_one_outcome(acquiring, OutcomeView::Acquired(status), rebuilds + end);
    assert(seq![Action::WriteUniforms] + answers(writing, tail) =~= seq![
        Action::WriteUniforms,
        Action::AcquireTexture,
    ] + (rebuilt_actions + last));
    if app.gravity_on {
        lemma_one_outcome(begun, OutcomeView::Fallen(step), tail);
    } else {
        assert(seq![] + tail =~= tail);
    }
    assert(seq![action] + answers(begun, frame_outcomes(app, step, status, rim))
        =~= frame_actions(app, now, status).push(Action::Wait));
}

} // verus!
