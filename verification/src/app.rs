//! What happens when: the reaction to the events of a window, and the steps of a frame.
//!
//! An event is answered by an [`Action`] that only the outside world can take. Its
//! [`Outcome`] is handed back and answered by the next action, until there is nothing left
//! to do but to wait for the next event.

use vstd::prelude::*;

use crate::circle::CircleShape;
use crate::scalar::Scalar;
use crate::state::{
    asks_for_configuration, brings_texture, centered_circle, DrawCall, State, StateView,
    FLOOR_LIMIT, REBUILT_RADIUS, SEGMENTS, ZERO,
};
use crate::surface::{PhysicalSize, SurfaceTextureStatus};

verus! {

/// The bit pattern of 4.0, the speed that a falling circle gains in a second.
pub const GRAVITY: u32 = 0x4080_0000;

/// The bit pattern of -0.5, the share of its speed that the floor throws a circle back with.
pub const RESTITUTION: u32 = 0xbf00_0000;

/// The bit pattern of 1.5, the speed that a jump starts with.
pub const JUMP_SPEED: u32 = 0x3fc0_0000;

/// A key, as far as the application knows it.
#[derive(Clone, Copy, Debug, PartialEq, Eq, Structural)]
pub enum KeyCode {
    Escape,
    KeyG,
    Space,
    Other,
}

/// The key that was touched.
#[derive(Clone, Copy, Debug, PartialEq, Eq, Structural)]
pub enum PhysicalKey {
    Code(KeyCode),
    Unidentified,
}

/// What was done to a key.
#[derive(Clone, Copy, Debug, PartialEq, Eq, Structural)]
pub enum ElementState {
    Pressed,
    Released,
}

/// What a window reports.
#[derive(Clone, Copy, Debug, PartialEq, Eq, Structural)]
pub enum WindowEvent {
    CloseRequested,
    Resized(PhysicalSize),
    KeyboardInput { physical_key: PhysicalKey, state: ElementState },
    RedrawRequested,
    Other,
}

/// The window to be opened, with its inner size in logical pixels.
#[derive(Clone, Copy, Debug, PartialEq, Eq)]
pub struct WindowAttributes {
    pub title: &'static str,
    pub width: u32,
    pub height: u32,
}

/// What a step of the fall is computed from. After `elapsed` nanoseconds, the speed is less
/// by the speed that `gravity` gives in that time, and the circle has moved for that time
/// with its new speed.
#[derive(Clone, Copy, Debug, PartialEq, Eq, Structural)]
pub struct FallInput {
    pub elapsed: u128,
    pub velocity_y: Scalar,
    pub offset_y: Scalar,
    pub gravity: Scalar,
    pub restitution: Scalar,
}

/// A step of the fall as if there were no floor, and the speed, times the restitution, that
/// the floor would throw the circle back with.
#[derive(Clone, Copy, Debug, PartialEq, Eq, Structural)]
pub struct FallStep {
    pub velocity_y: Scalar,
    pub offset_y: Scalar,
    pub rebound_velocity_y: Scalar,
}

/// What is left to do once the buffers have been rebuilt.
#[derive(Clone, Copy, Debug, PartialEq, Eq, Structural)]
pub enum Next {
    Rest,
    Draw,
    Request,
}

/// The action whose outcome is awaited.
#[derive(Clone, Copy, Debug, PartialEq, Eq, Structural)]
pub enum Phase {
    Idle,
    Falling,
    Writing,
    Acquiring,
    Reconfiguring(Next),
    Uploading(Next),
    Drawing,
    Requesting,
}

/// What the outside world has to do next.
#[derive(Clone, Copy, Debug, PartialEq, Eq)]
pub enum Action {
    /// Nothing: wait for the next event.
    Wait,
    /// End the event loop.
    Exit,
    /// Compute a step of the fall.
    ComputeFall(FallInput),
    /// Write [`State::update`] to the buffer of uniforms.
    WriteUniforms,
    /// Ask the surface for its next texture.
    AcquireTexture,
    /// Configure the surface as [`State::config`] says, then trace the rim of a circle.
    Reconfigure(CircleShape),
    /// Create [`State::vertex_buffer`] and [`State::index_buffer`].
    CreateBuffers,
    /// Draw to the texture and present it.
    Draw(DrawCall),
    /// Ask the window to be redrawn.
    RequestRedraw,
}

/// What came of an action.
#[derive(Clone, Debug, PartialEq, Eq)]
pub enum Outcome {
    /// It was done.
    Done,
    /// The step of the fall.
    Fallen(FallStep),
    /// The surface's answer to the request for a texture.
    Acquired(SurfaceTextureStatus),
    /// The surface was configured, and this is the rim that was traced.
    Traced(Vec<[Scalar; 2]>),
}

/// The mathematical content of an [`Outcome`].
#[verifier::ext_equal]
pub enum OutcomeView {
    Done,
    Fallen(FallStep),
    Acquired(SurfaceTextureStatus),
    Traced(Seq<[Scalar; 2]>),
}

impl View for Outcome {
    type V = OutcomeView;

    open spec fn view(&self) -> OutcomeView {
        match self {
            Outcome::Done => OutcomeView::Done,
            Outcome::Fallen(step) => OutcomeView::Fallen(*step),
            Outcome::Acquired(status) => OutcomeView::Acquired(*status),
            Outcome::Traced(rim) => OutcomeView::Traced(rim@),
        }
    }
}

/// The application. Times are counted in nanoseconds, from whenever the caller likes.
#[derive(Clone, Debug, PartialEq, Eq)]
pub struct App {
    pub state: Option<State>,
    pub gravity_on: bool,
    pub velocity_y: Scalar,
    pub last_frame: u128,
    pub phase: Phase,
}

/// The mathematical content of an [`App`].
#[verifier::ext_equal]
pub struct AppView {
    pub state: Option<StateView>,
    pub gravity_on: bool,
    pub velocity_y: Scalar,
    pub last_frame: u128,
    pub phase: Phase,
}

impl View for App {
    type V = AppView;

    open spec fn view(&self) -> AppView {
        AppView {
            state: match self.state {
                Some(state) => Some(state@),
                None => None,
            },
            gravity_on: self.gravity_on,
            velocity_y: self.velocity_y,
            last_frame: self.last_frame,
            phase: self.phase,
        }
    }
}

/// The time from `earlier` to `later`, and none where the clock went backwards.
pub open spec fn time_between(earlier: u128, later: u128) -> u128 {
    if later > earlier {
        (later - earlier) as u128
    } else {
        0
    }
}

impl AppView {
    /// The application before its first window.
    pub open spec fn first(now: u128) -> AppView {
        AppView {
            state: None,
            gravity_on: false,
            velocity_y: Scalar { bits: ZERO },
            last_frame: now,
            phase: Phase::Idle,
        }
    }

    /// The scene, where there is a window.
    pub open spec fn scene(self) -> StateView {
        self.state->0
    }

    /// The next thing to do once the buffers are as they should be.
    pub open spec fn go_on(self, next: Next) -> (AppView, Action) {
        match next {
            Next::Rest => (AppView { phase: Phase::Idle, ..self }, Action::Wait),
            Next::Draw => (
                AppView { phase: Phase::Drawing, ..self },
                Action::Draw(self.scene().draw_call()),
            ),
            Next::Request => (
                AppView { phase: Phase::Requesting, ..self },
                Action::RequestRedraw,
            ),
        }
    }

    /// The surface is configured and the buffers are rebuilt for the size of the scene, and
    /// then `next` follows.
    pub open spec fn rebuild(self, next: Next) -> (AppView, Action) {
        (
            AppView { phase: Phase::Reconfiguring(next), ..self },
            Action::Reconfigure(
                centered_circle(self.scene().size, Scalar { bits: REBUILT_RADIUS }),
            ),
        )
    }

    /// A key is pressed: escape ends the event loop, G turns gravity on and off, and the space
    /// bar makes the circle jump while gravity is on.
    pub open spec fn on_key(self, key: KeyCode) -> (AppView, Action) {
        match key {
            KeyCode::Escape => (self, Action::Exit),
            KeyCode::KeyG => (AppView { gravity_on: !self.gravity_on, ..self }, Action::Wait),
            KeyCode::Space => (
                AppView {
                    velocity_y: if self.gravity_on {
                        Scalar { bits: JUMP_SPEED }
                    } else {
                        self.velocity_y
                    },
                    ..self
                },
                Action::Wait,
            ),
            KeyCode::Other => (self, Action::Wait),
        }
    }

    /// A frame begins: with gravity on the circle falls for the time since the last frame, and
    /// with gravity off it is drawn where it is.
    pub open spec fn on_redraw(self, now: u128) -> (AppView, Action) {
        if self.gravity_on {
            (
                AppView { last_frame: now, phase: Phase::Falling, ..self },
                Action::ComputeFall(
                    FallInput {
                        elapsed: time_between(self.last_frame, now),
                        velocity_y: self.velocity_y,
                        offset_y: self.scene().circle_offset[1],
                        gravity: Scalar { bits: GRAVITY },
                        restitution: Scalar { bits: RESTITUTION },
                    },
                ),
            )
        } else {
            (
                AppView { last_frame: now, phase: Phase::Writing, ..self },
                Action::WriteUniforms,
            )
        }
    }

    /// The reaction to an event. Without a window there is none.
    pub open spec fn on_event(self, event: WindowEvent, now: u128) -> (AppView, Action) {
        if self.state is None {
            (self, Action::Wait)
        } else {
            match event {
                WindowEvent::CloseRequested => (self, Action::Exit),
                WindowEvent::Resized(size) => if size.has_area() {
                    AppView { state: Some(self.scene().resized(size)), ..self }.rebuild(Next::Rest)
                } else {
                    (self, Action::Wait)
                },
                WindowEvent::KeyboardInput {
                    physical_key: PhysicalKey::Code(key),
                    state: ElementState::Pressed,
                } => self.on_key(key),
                WindowEvent::KeyboardInput { .. } => (self, Action::Wait),
                WindowEvent::RedrawRequested => self.on_redraw(now),
                WindowEvent::Other => (self, Action::Wait),
            }
        }
    }

    /// The application after a step of the fall: the circle stops at the floor, and is thrown
    /// back from it.
    pub open spec fn fallen(self, step: FallStep) -> AppView {
        let through = step.offset_y.is_below(Scalar { bits: FLOOR_LIMIT });
        let offset_y = if through {
            Scalar { bits: FLOOR_LIMIT }
        } else {
            step.offset_y
        };
        AppView {
            state: Some(
                StateView {
                    circle_offset: [self.scene().circle_offset[0], offset_y],
                    ..self.scene()
                },
            ),
            velocity_y: if through {
                step.rebound_velocity_y
            } else {
                step.velocity_y
            },
            ..self
        }
    }

    /// The reaction to the surface's answer: the frame is drawn where a texture came with it,
    /// and given up otherwise; before that the surface is configured where it has to be.
    pub open spec fn on_texture(self, status: SurfaceTextureStatus) -> (AppView, Action) {
        let next = if brings_texture(status) {
            Next::Draw
        } else {
            Next::Request
        };
        if asks_for_configuration(status) && self.scene().size.has_area() {
            AppView {
                state: Some(self.scene().resized(self.scene().size)),
                ..self
            }.rebuild(next)
        } else {
            self.go_on(next)
        }
    }

    /// Whether `outcome` is one of the action that the application waits for.
    pub open spec fn awaits(self, outcome: OutcomeView) -> bool {
        &&& self.state is Some
        &&& match self.phase {
            Phase::Idle => false,
            Phase::Falling => outcome is Fallen,
            Phase::Acquiring => outcome is Acquired,
            Phase::Reconfiguring(_) => outcome matches OutcomeView::Traced(rim) && rim.len()
                == SEGMENTS + 1,
            Phase::Writing | Phase::Uploading(_) | Phase::Drawing | Phase::Requesting =>
                outcome is Done,
        }
    }

    /// The reaction to the outcome of the last action.
    pub open spec fn on_outcome(self, outcome: OutcomeView) -> (AppView, Action) {
        match self.phase {
            Phase::Idle => (self, Action::Wait),
            Phase::Falling => (
                AppView { phase: Phase::Writing, ..self.fallen(outcome->Fallen_0) },
                Action::WriteUniforms,
            ),
            Phase::Writing => (
                AppView { phase: Phase::Acquiring, ..self },
                Action::AcquireTexture,
            ),
            Phase::Acquiring => self.on_texture(outcome->Acquired_0),
            Phase::Reconfiguring(next) => (
                AppView {
                    state: Some(self.scene().rebuilt(outcome->Traced_0)),
                    phase: Phase::Uploading(next),
                    ..self
                },
                Action::CreateBuffers,
            ),
            Phase::Uploading(next) => self.go_on(next),
            Phase::Drawing => self.go_on(Next::Request),
            Phase::Requesting => self.go_on(Next::Rest),
        }
    }

    /// What holds of the application at all times: whatever holds of its scene, and that
    /// nothing is awaited without a window.
    pub open spec fn well_formed(self) -> bool {
        match self.state {
            Some(state) => state.well_formed(),
            None => self.phase is Idle,
        }
    }
}

impl App {
    /// The application before its first window.
    pub fn new(now: u128) -> (app: App)
        ensures
            app@ == AppView::first(now),
            app@.well_formed(),
            app.last_frame == now,
            app.velocity_y.bits == 0,
            !app.gravity_on,
            app.state is None,
    {
        App {
            state: None,
            gravity_on: false,
            velocity_y: Scalar { bits: ZERO },
            last_frame: now,
            phase: Phase::Idle,
        }
    }

    /// The application may open windows: it wants one unless it has one.
    pub fn resumed(&self) -> (wanted: Option<WindowAttributes>)
        ensures
            wanted is Some == self@.state is None,
            wanted matches Some(window) ==> window.title@ == "wgpu circles"@ && window.width
                == 1000 && window.height == 800,
    {
        if self.state.is_none() {
            Some(WindowAttributes { title: "wgpu circles", width: 1000, height: 800 })
        } else {
            None
        }
    }

    /// Takes over the scene of the window that was opened.
    pub fn attach(&mut self, state: State)
        requires
            old(self)@.state is None,
        ensures
            final(self)@ == (AppView { state: Some(state@), ..old(self)@ }),
    {
        self.state = Some(state);
    }

    /// Goes on once the buffers are as they should be.
    fn go_on(&mut self, next: Next) -> (action: Action)
        requires
            old(self)@.state is Some,
        ensures
            (final(self)@, action) == old(self)@.go_on(next),
    {
        match next {
            Next::Rest => {
                self.phase = Phase::Idle;
                Action::Wait
            },
            Next::Draw => {
                self.phase = Phase::Drawing;
                Action::Draw(self.state.as_ref().unwrap().draw_call())
            },
            Next::Request => {
                self.phase = Phase::Requesting;
                Action::RequestRedraw
            },
        }
    }

    /// Has the surface configured and the buffers rebuilt, with `next` to follow.
    fn rebuild(&mut self, next: Next) -> (action: Action)
        requires
            old(self)@.state is Some,
        ensures
            (final(self)@, action) == old(self)@.rebuild(next),
    {
        self.phase = Phase::Reconfiguring(next);
        Action::Reconfigure(self.state.as_ref().unwrap().circle())
    }

    /// Reacts to an event that came at the time `now`.
    pub fn window_event(&mut self, event: WindowEvent, now: u128) -> (action: Action)
        requires
            old(self)@.phase is Idle,
        ensures
            (final(self)@, action) == old(self)@.on_event(event, now),
            event is RedrawRequested && old(self).state is Some ==> final(self).last_frame == now,
            action matches Action::ComputeFall(input) ==> now >= old(self).last_frame ==> old(
                self,
            ).last_frame + input.elapsed == now,
    {
        match &mut self.state {
            None => Action::Wait,
            Some(state) => match event {
                WindowEvent::CloseRequested => Action::Exit,
                WindowEvent::Resized(new_size) => {
                    if state.resize(new_size) {
                        self.rebuild(Next::Rest)
                    } else {
                        Action::Wait
                    }
                },
                WindowEvent::KeyboardInput {
                    physical_key: PhysicalKey::Code(key),
                    state: ElementState::Pressed,
                } => match key {
                    KeyCode::Escape => Action::Exit,
                    KeyCode::KeyG => {
                        self.gravity_on = !self.gravity_on;
                        Action::Wait
                    },
                    KeyCode::Space => {
                        if self.gravity_on {
                            self.velocity_y = Scalar { bits: JUMP_SPEED };
                        }
                        Action::Wait
                    },
                    KeyCode::Other => Action::Wait,
                },
                WindowEvent::KeyboardInput { .. } => Action::Wait,
                WindowEvent::RedrawRequested => {
                    let elapsed: u128 = if now > self.last_frame {
                        now - self.last_frame
                    } else {
                        0
                    };
                    self.last_frame = now;
                    if self.gravity_on {
                        self.phase = Phase::Falling;
                        Action::ComputeFall(
                            FallInput {
                                elapsed,
                                velocity_y: self.velocity_y,
                                offset_y: state.circle_offset[1],
                                gravity: Scalar { bits: GRAVITY },
                                restitution: Scalar { bits: RESTITUTION },
                            },
                        )
                    } else {
                        self.phase = Phase::Writing;
                        Action::WriteUniforms
                    }
                },
                WindowEvent::Other => Action::Wait,
            },
        }
    }

    /// Takes over a step of the fall. The circle stops at the floor, and is thrown back from it.
    fn fall(&mut self, step: FallStep)
        requires
            old(self)@.state is Some,
        ensures
            final(self)@ == old(self)@.fallen(step),
    {
        let floor = Scalar { bits: FLOOR_LIMIT };
        if let Some(state) = &mut self.state {
            let offset_x = state.circle_offset[0];
            if step.offset_y.below(floor) {
                state.circle_offset = [offset_x, floor];
                self.velocity_y = step.rebound_velocity_y;
            } else {
                state.circle_offset = [offset_x, step.offset_y];
                self.velocity_y = step.velocity_y;
            }
        }
    }

    /// Whether `outcome` is one of the action that the application waits for.
    pub fn awaits(&self, outcome: &Outcome) -> (answer: bool)
        ensures
            answer == self@.awaits(outcome@),
    {
        if self.state.is_none() {
            return false;
        }
        match (self.phase, outcome) {
            (Phase::Falling, Outcome::Fallen(_)) => true,
            (Phase::Acquiring, Outcome::Acquired(_)) => true,
            (Phase::Reconfiguring(_), Outcome::Traced(rim)) => rim.len() == SEGMENTS as usize + 1,
            (Phase::Writing, Outcome::Done) => true,
            (Phase::Uploading(_), Outcome::Done) => true,
            (Phase::Drawing, Outcome::Done) => true,
            (Phase::Requesting, Outcome::Done) => true,
            _ => false,
        }
    }

    /// Reacts to the outcome of the last action.
    pub fn proceed(&mut self, outcome: &Outcome) -> (action: Action)
        requires
            old(self)@.awaits(outcome@),
        ensures
            (final(self)@, action) == old(self)@.on_outcome(outcome@),
    {
        match (self.phase, outcome) {
            (Phase::Falling, Outcome::Fallen(step)) => {
                self.fall(*step);
                self.phase = Phase::Writing;
                Action::WriteUniforms
            },
            (Phase::Writing, _) => {
                self.phase = Phase::Acquiring;
                Action::AcquireTexture
            },
            (Phase::Acquiring, Outcome::Acquired(status)) => self.on_texture(*status),
            (Phase::Reconfiguring(next), Outcome::Traced(rim)) => {
                if let Some(state) = &mut self.state {
                    state.rebuild_buffers(rim);
                }
                self.phase = Phase::Uploading(next);
                Action::CreateBuffers
            },
            (Phase::Uploading(next), _) => self.go_on(next),
            (Phase::Drawing, _) => self.go_on(Next::Request),
            _ => self.go_on(Next::Rest),
        }
    }

    /// Reacts to the surface's answer to the request for a texture.
    fn on_texture(&mut self, status: SurfaceTextureStatus) -> (action: Action)
        requires
            old(self)@.state is Some,
        ensures
            (final(self)@, action) == old(self)@.on_texture(status),
    {
        if let Some(state) = &mut self.state {
            let plan = state.render(status);
            let next = if plan.presents { Next::Draw } else { Next::Request };
            if plan.reconfigured {
                self.rebuild(next)
            } else {
                self.go_on(next)
            }
        } else {
            Action::Wait
        }
    }
}

} // verus!
