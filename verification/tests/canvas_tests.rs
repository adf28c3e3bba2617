use canvas::canvas::{
    finish, initial_state, step, Action, CanvasEvent, CanvasOptions, MouseButton,
};
use canvas::config::{initial_config, SurfaceCaps};
use canvas::error::Error;

fn caps() -> SurfaceCaps {
    SurfaceCaps {
        format_is_srgb: vec![false, true],
        present_mode_count: 3,
        alpha_mode_count: 2,
    }
}

#[test]
fn resize_to_positive_dimensions_updates_config_then_notifies() {
    let options = CanvasOptions {
        width: 800,
        height: 600,
        title: "Hello World".to_string(),
    };
    assert!(options.is_valid());
    let config = initial_config(&caps(), options.width, options.height);
    assert_eq!(config.width, 800);
    assert_eq!(config.height, 600);

    let mut state = initial_state(config);
    let actions = step::<u32>(&mut state, CanvasEvent::Resized { width: 1024, height: 768 });

    assert_eq!(state.config.width, 1024);
    assert_eq!(state.config.height, 768);
    assert_eq!(state.size_width, 1024);
    assert_eq!(state.size_height, 768);
    // The surface is reconfigured first; the handler is notified second, once.
    assert_eq!(
        actions,
        vec![
            Action::ConfigureSurface { width: 1024, height: 768 },
            Action::NotifyResize { width: 1024, height: 768 },
        ]
    );
}

#[test]
fn resize_with_zero_dimension_is_ignored() {
    let config = initial_config(&caps(), 800, 600);
    let mut state = initial_state(config);
    let before = state;

    let actions = step::<u32>(&mut state, CanvasEvent::Resized { width: 0, height: 600 });
    assert_eq!(state, before);
    assert_eq!(actions, vec![]);

    let actions = step::<u32>(&mut state, CanvasEvent::Resized { width: 640, height: 0 });
    assert_eq!(state, before);
    assert_eq!(actions, vec![]);
}

#[test]
fn mouse_button_reports_last_cursor_move() {
    let config = initial_config(&caps(), 800, 600);
    let mut state = initial_state(config);

    let x = 12.5f64;
    let y = 7.0f64;
    let actions = step::<u32>(
        &mut state,
        CanvasEvent::CursorMoved { x_bits: x.to_bits(), y_bits: y.to_bits() },
    );
    assert_eq!(
        actions,
        vec![Action::NotifyCursorMove { x_bits: x.to_bits(), y_bits: y.to_bits() }]
    );

    // Unrelated events in between do not disturb the cached position.
    step::<u32>(&mut state, CanvasEvent::KeyboardInput { key: 42, pressed: true });
    step::<u32>(&mut state, CanvasEvent::AboutToWait);

    let actions = step::<u32>(
        &mut state,
        CanvasEvent::MouseInput { button: MouseButton::Left, pressed: true },
    );
    match actions.as_slice() {
        [Action::NotifyMouseButton { x_bits, y_bits, button, pressed }] => {
            assert_eq!(f64::from_bits(*x_bits), 12.5);
            assert_eq!(f64::from_bits(*y_bits), 7.0);
            assert_eq!(*button, MouseButton::Left);
            assert!(*pressed);
        }
        other => panic!("unexpected actions: {:?}", other),
    }
}

#[test]
fn mouse_button_before_any_cursor_move_reports_origin() {
    let config = initial_config(&caps(), 800, 600);
    let mut state = initial_state(config);

    let actions = step::<u32>(
        &mut state,
        CanvasEvent::MouseInput { button: MouseButton::Right, pressed: false },
    );
    assert_eq!(
        actions,
        vec![Action::NotifyMouseButton {
            x_bits: 0f64.to_bits(),
            y_bits: 0f64.to_bits(),
            button: MouseButton::Right,
            pressed: false,
        }]
    );
}

#[test]
fn context_lost_render_failure_reconfigures_with_last_size() {
    let config = initial_config(&caps(), 800, 600);
    let mut state = initial_state(config);
    step::<u32>(&mut state, CanvasEvent::Resized { width: 1024, height: 768 });
    let before = state;

    let actions = step::<u32>(
        &mut state,
        CanvasEvent::RenderCompleted(Err(Error::ContextLost("lost".to_string()))),
    );
    assert_eq!(
        actions,
        vec![
            Action::ConfigureSurface { width: 1024, height: 768 },
            Action::NotifyResize { width: 1024, height: 768 },
        ]
    );
    assert_eq!(state, before);
    assert!(!state.terminated);
}

#[test]
fn out_of_memory_render_failure_stops_once_and_exits() {
    let config = initial_config(&caps(), 800, 600);
    let mut state = initial_state(config);

    let actions = step::<u32>(
        &mut state,
        CanvasEvent::RenderCompleted(Err(Error::OutOfMemory("oom".to_string()))),
    );
    assert_eq!(actions, vec![Action::NotifyStop, Action::Exit]);
    assert!(state.terminated);

    // A terminated runtime ignores further events: no second stop.
    let actions = step::<u32>(&mut state, CanvasEvent::CloseRequested);
    assert_eq!(actions, vec![]);
    let actions = step::<u32>(&mut state, CanvasEvent::RedrawRequested);
    assert_eq!(actions, vec![]);
    let actions = finish::<u32>(&mut state);
    assert_eq!(actions, vec![]);
}

#[test]
fn other_render_failures_are_skipped() {
    let config = initial_config(&caps(), 800, 600);
    let mut state = initial_state(config);
    let before = state;

    let actions = step::<u32>(
        &mut state,
        CanvasEvent::RenderCompleted(Err(Error::GraphicsAPI("outdated".to_string()))),
    );
    assert_eq!(actions, vec![]);
    assert_eq!(state, before);
    assert!(!state.terminated);
}

#[test]
fn successful_render_notifies_next_frame() {
    let config = initial_config(&caps(), 800, 600);
    let mut state = initial_state(config);

    let actions = step::<u32>(&mut state, CanvasEvent::RenderCompleted(Ok(())));
    assert_eq!(actions, vec![Action::NotifyNextFrame]);
    assert!(!state.terminated);
}

#[test]
fn close_request_stops_and_exits() {
    let config = initial_config(&caps(), 800, 600);
    let mut state = initial_state(config);

    let actions = step::<u32>(&mut state, CanvasEvent::CloseRequested);
    assert_eq!(actions, vec![Action::NotifyStop, Action::Exit]);
    assert!(state.terminated);
    // The wind-down after the loop does not stop the handler a second time.
    assert_eq!(finish::<u32>(&mut state), vec![]);
}

#[test]
fn redraw_and_idle_drive_the_render_loop() {
    let config = initial_config(&caps(), 800, 600);
    let mut state = initial_state(config);

    let actions = step::<u32>(&mut state, CanvasEvent::RedrawRequested);
    assert_eq!(actions, vec![Action::Render]);
    let actions = step::<u32>(&mut state, CanvasEvent::AboutToWait);
    assert_eq!(actions, vec![Action::RequestRedraw]);
}

#[test]
fn keyboard_events_are_forwarded_per_transition() {
    let config = initial_config(&caps(), 800, 600);
    let mut state = initial_state(config);

    let actions = step::<u32>(&mut state, CanvasEvent::KeyboardInput { key: 7, pressed: true });
    assert_eq!(actions, vec![Action::NotifyKeyboard { key: 7, pressed: true }]);
    let actions = step::<u32>(&mut state, CanvasEvent::KeyboardInput { key: 7, pressed: false });
    assert_eq!(actions, vec![Action::NotifyKeyboard { key: 7, pressed: false }]);
}

#[test]
fn finish_stops_a_running_handler_exactly_once() {
    let config = initial_config(&caps(), 800, 600);
    let mut state = initial_state(config);

    let actions = finish::<u32>(&mut state);
    assert_eq!(actions, vec![Action::NotifyStop]);
    assert!(state.terminated);
    assert_eq!(finish::<u32>(&mut state), vec![]);
}

#[test]
fn invalid_construction_options_are_detected() {
    let zero_width = CanvasOptions { width: 0, height: 600, title: "t".to_string() };
    assert!(!zero_width.is_valid());
    let zero_height = CanvasOptions { width: 800, height: 0, title: "t".to_string() };
    assert!(!zero_height.is_valid());
}
