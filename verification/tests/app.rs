use wgpu::{CompositeAlphaMode, TextureFormat};
use wgpu_circles::app::{
    Action, App, ElementState, FallInput, FallStep, KeyCode, Outcome, Phase, PhysicalKey,
    WindowEvent,
};
use wgpu_circles::scalar::Scalar;
use wgpu_circles::state::State;
use wgpu_circles::surface::{PhysicalSize, SurfaceTextureStatus};

fn scalar(number: f32) -> Scalar {
    Scalar { bits: number.to_bits() }
}

fn rim() -> Vec<[Scalar; 2]> {
    (0..65).map(|i| [scalar(i as f32), scalar(0.0)]).collect()
}

fn opened(width: u32, height: u32) -> App {
    let mut app = App::new(100);
    app.attach(State::new(
        PhysicalSize { width, height },
        &vec![TextureFormat::Bgra8UnormSrgb],
        &vec![CompositeAlphaMode::Opaque],
        &rim(),
    ));
    app
}

fn press(key: KeyCode) -> WindowEvent {
    WindowEvent::KeyboardInput {
        physical_key: PhysicalKey::Code(key),
        state: ElementState::Pressed,
    }
}

fn offset_y(app: &App) -> Scalar {
    app.state.as_ref().unwrap().circle_offset[1]
}

fn step(velocity: f32, offset: f32) -> FallStep {
    FallStep {
        velocity_y: scalar(velocity),
        offset_y: scalar(offset),
        rebound_velocity_y: scalar(velocity * -0.5),
    }
}

/// Runs a frame and lists its actions.
fn frame(app: &mut App, now: u128, fall: FallStep, status: SurfaceTextureStatus) -> Vec<Action> {
    let mut actions = vec![];
    let mut action = app.window_event(WindowEvent::RedrawRequested, now);
    loop {
        let outcome = match action {
            Action::Wait | Action::Exit => return actions,
            Action::ComputeFall(_) => Outcome::Fallen(fall),
            Action::AcquireTexture => Outcome::Acquired(status),
            Action::Reconfigure(_) => Outcome::Traced(rim()),
            _ => Outcome::Done,
        };
        actions.push(action);
        assert!(app.awaits(&outcome));
        action = app.proceed(&outcome);
    }
}

#[test]
fn one_window_is_wanted() {
    let app = App::new(0);
    let wanted = app.resumed().unwrap();
    assert_eq!(wanted.title, "wgpu circles");
    assert_eq!((wanted.width, wanted.height), (1000, 800));
    assert_eq!(opened(1000, 800).resumed(), None);
}

#[test]
fn application_starts_at_rest() {
    let app = App::new(7);
    assert_eq!(app.state, None);
    assert!(!app.gravity_on);
    assert_eq!(app.velocity_y, scalar(0.0));
    assert_eq!(app.last_frame, 7);
    assert_eq!(app.phase, Phase::Idle);
}

#[test]
fn nothing_happens_without_a_window() {
    let events = [
        WindowEvent::CloseRequested,
        WindowEvent::Resized(PhysicalSize { width: 5, height: 5 }),
        press(KeyCode::KeyG),
        WindowEvent::RedrawRequested,
        WindowEvent::Other,
    ];
    for event in events {
        let mut app = App::new(7);
        assert_eq!(app.window_event(event, 9), Action::Wait);
        assert_eq!(app, App::new(7));
    }
}

#[test]
fn closing_and_escape_end_the_loop() {
    let mut app = opened(1000, 800);
    assert_eq!(app.window_event(WindowEvent::CloseRequested, 1), Action::Exit);
    assert_eq!(app.window_event(press(KeyCode::Escape), 1), Action::Exit);
    assert_eq!(app, opened(1000, 800));
}

#[test]
fn gravity_toggles() {
    let mut app = opened(1000, 800);
    assert_eq!(app.window_event(press(KeyCode::KeyG), 1), Action::Wait);
    assert!(app.gravity_on);
    assert_eq!(app.window_event(press(KeyCode::KeyG), 2), Action::Wait);
    assert_eq!(app, opened(1000, 800));
}

#[test]
fn jump_needs_gravity() {
    let mut app = opened(1000, 800);
    assert_eq!(app.window_event(press(KeyCode::Space), 1), Action::Wait);
    assert_eq!(app.velocity_y, scalar(0.0));
    app.window_event(press(KeyCode::KeyG), 2);
    assert_eq!(app.window_event(press(KeyCode::Space), 3), Action::Wait);
    assert_eq!(app.velocity_y, scalar(1.5));
}

#[test]
fn other_input_does_nothing() {
    let events = [
        press(KeyCode::Other),
        WindowEvent::KeyboardInput {
            physical_key: PhysicalKey::Code(KeyCode::KeyG),
            state: ElementState::Released,
        },
        WindowEvent::KeyboardInput {
            physical_key: PhysicalKey::Unidentified,
            state: ElementState::Pressed,
        },
        WindowEvent::Other,
    ];
    for event in events {
        let mut app = opened(1000, 800);
        assert_eq!(app.window_event(event, 5), Action::Wait);
        assert_eq!(app, opened(1000, 800));
    }
}

#[test]
fn resizing_rebuilds_the_buffers() {
    let mut app = opened(1000, 800);
    let action =
        app.window_event(WindowEvent::Resized(PhysicalSize { width: 640, height: 480 }), 5);
    assert_eq!(action, Action::Reconfigure(app.state.as_ref().unwrap().circle()));
    assert_eq!(app.state.as_ref().unwrap().config.width, 640);
    assert_eq!(app.proceed(&Outcome::Traced(rim())), Action::CreateBuffers);
    assert_eq!(app.proceed(&Outcome::Done), Action::Wait);
    assert_eq!(app.phase, Phase::Idle);
    assert_eq!(app.last_frame, 100);
    let mut scene = opened(1000, 800).state.unwrap();
    scene.resize(PhysicalSize { width: 640, height: 480 });
    scene.rebuild_buffers(&rim());
    assert_eq!(app.state, Some(scene));
}

#[test]
fn empty_size_is_ignored() {
    let mut app = opened(1000, 800);
    let action = app.window_event(WindowEvent::Resized(PhysicalSize { width: 0, height: 9 }), 5);
    assert_eq!(action, Action::Wait);
    assert_eq!(app, opened(1000, 800));
}

#[test]
fn frame_without_gravity() {
    let mut app = opened(1000, 800);
    let draw = Action::Draw(app.state.as_ref().unwrap().draw_call());
    let actions = frame(&mut app, 250, step(9.0, 9.0), SurfaceTextureStatus::Success);
    assert_eq!(
        actions,
        vec![Action::WriteUniforms, Action::AcquireTexture, draw, Action::RequestRedraw]
    );
    assert_eq!(offset_y(&app), scalar(0.0));
    assert_eq!(app.last_frame, 250);
    assert_eq!(app.phase, Phase::Idle);
}

#[test]
fn frame_with_gravity_falls_first() {
    let mut app = opened(1000, 800);
    app.window_event(press(KeyCode::KeyG), 1);
    let draw = Action::Draw(app.state.as_ref().unwrap().draw_call());
    let circle = Action::Reconfigure(app.state.as_ref().unwrap().circle());
    let actions = frame(&mut app, 350, step(-1.0, -0.5), SurfaceTextureStatus::Suboptimal);
    assert_eq!(
        actions,
        vec![
            Action::ComputeFall(FallInput {
                elapsed: 250,
                velocity_y: scalar(0.0),
                offset_y: scalar(0.0),
                gravity: scalar(4.0),
                restitution: scalar(-0.5),
            }),
            Action::WriteUniforms,
            Action::AcquireTexture,
            circle,
            Action::CreateBuffers,
            draw,
            Action::RequestRedraw,
        ]
    );
    assert_eq!(offset_y(&app), scalar(-0.5));
    assert_eq!(app.velocity_y, scalar(-1.0));
}

#[test]
fn frame_without_texture_draws_nothing() {
    for status in [
        SurfaceTextureStatus::Timeout,
        SurfaceTextureStatus::Occluded,
        SurfaceTextureStatus::Validation,
    ] {
        let mut app = opened(1000, 800);
        assert_eq!(
            frame(&mut app, 250, step(0.0, 0.0), status),
            vec![Action::WriteUniforms, Action::AcquireTexture, Action::RequestRedraw]
        );
    }
    for status in [SurfaceTextureStatus::Outdated, SurfaceTextureStatus::Lost] {
        let mut app = opened(1000, 800);
        let circle = Action::Reconfigure(app.state.as_ref().unwrap().circle());
        assert_eq!(
            frame(&mut app, 250, step(0.0, 0.0), status),
            vec![
                Action::WriteUniforms,
                Action::AcquireTexture,
                circle,
                Action::CreateBuffers,
                Action::RequestRedraw,
            ]
        );
        let mut flat = opened(1000, 0);
        assert_eq!(
            frame(&mut flat, 250, step(0.0, 0.0), status),
            vec![Action::WriteUniforms, Action::AcquireTexture, Action::RequestRedraw]
        );
    }
}

#[test]
fn floor_throws_the_circle_back() {
    let mut app = opened(1000, 800);
    app.window_event(press(KeyCode::KeyG), 1);
    frame(&mut app, 200, step(-2.0, -0.95), SurfaceTextureStatus::Success);
    assert_eq!(offset_y(&app), scalar(-0.9));
    assert_eq!(app.velocity_y, scalar(1.0));
    frame(&mut app, 300, step(-0.25, -0.9), SurfaceTextureStatus::Success);
    assert_eq!(offset_y(&app), scalar(-0.9));
    assert_eq!(app.velocity_y, scalar(-0.25));
}

#[test]
fn clock_that_goes_back_gives_no_time() {
    let mut app = opened(1000, 800);
    app.window_event(press(KeyCode::KeyG), 1);
    let action = app.window_event(WindowEvent::RedrawRequested, 40);
    assert!(matches!(action, Action::ComputeFall(FallInput { elapsed: 0, .. })));
    assert_eq!(app.last_frame, 40);
}

#[test]
fn time_without_gravity_is_not_fallen() {
    let mut app = opened(1000, 800);
    frame(&mut app, 1000, step(0.0, 0.0), SurfaceTextureStatus::Success);
    app.window_event(press(KeyCode::KeyG), 1500);
    let action = app.window_event(WindowEvent::RedrawRequested, 1700);
    assert!(matches!(action, Action::ComputeFall(FallInput { elapsed: 700, .. })));
}

#[test]
fn circle_never_sinks_through_the_floor() {
    let mut app = opened(1000, 800);
    app.window_event(press(KeyCode::KeyG), 1);
    let mut velocity = 0.0f32;
    let mut offset = 0.0f32;
    for i in 0..2000u128 {
        if i % 300 == 299 {
            app.window_event(press(KeyCode::Space), 1);
            velocity = 1.5;
        }
        let dt = 0.016f32;
        velocity -= 4.0 * dt;
        let fall = step(velocity, offset + velocity * dt);
        if f32::from_bits(fall.offset_y.bits) < -0.9 {
            offset = -0.9;
            velocity *= -0.5;
        } else {
            offset = f32::from_bits(fall.offset_y.bits);
        }
        frame(&mut app, 200 + i, fall, SurfaceTextureStatus::Success);
        assert_eq!(offset_y(&app), scalar(offset));
        assert_eq!(app.velocity_y, scalar(velocity));
        assert!(offset >= -0.9);
    }
}

#[test]
fn only_the_awaited_outcome_is_awaited() {
    let mut app = opened(1000, 800);
    assert!(!app.awaits(&Outcome::Done));
    app.window_event(WindowEvent::Resized(PhysicalSize { width: 640, height: 480 }), 5);
    assert!(!app.awaits(&Outcome::Done));
    assert!(!app.awaits(&Outcome::Traced(vec![])));
    assert!(app.awaits(&Outcome::Traced(rim())));
    assert!(!App::new(0).awaits(&Outcome::Done));
}

#[test]
fn surface_keeps_its_format() {
    let mut app = opened(1000, 800);
    let before = app.state.as_ref().unwrap().config;
    app.window_event(WindowEvent::Resized(PhysicalSize { width: 640, height: 480 }), 5);
    app.proceed(&Outcome::Traced(rim()));
    app.proceed(&Outcome::Done);
    frame(&mut app, 250, step(0.0, 0.0), SurfaceTextureStatus::Lost);
    let after = app.state.as_ref().unwrap().config;
    assert_eq!(after.format, before.format);
    assert_eq!(after.alpha_mode, before.alpha_mode);
    assert_eq!(after.present_mode, before.present_mode);
    assert_eq!((after.width, after.height), (640, 480));
}
