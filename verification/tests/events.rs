use brul::events::{
    ElementState, Event, EventContext, KeyCode, MouseButton, PhysicalKey, WindowEvent,
};
use brul::gui::{user_action, window_action, GuiAction, GuiLoop, LoopAction, WindowLoop};
use brul::control::GuiControlMessage;

#[test]
fn cursor_move_becomes_mouse_move_and_is_remembered() {
    let mut context = EventContext::new(0.0f32, 0.0f32);
    let made = Event::from(&mut context, WindowEvent::CursorMoved { x: 12.5, y: -3.0 });
    assert_eq!(made, Event::MouseMove { x: 12.5, y: -3.0 });
    assert_eq!(context.coordinates(), (12.5, -3.0));
}

#[test]
fn button_events_take_the_last_pointer_position() {
    let mut context = EventContext::new(0.0f32, 0.0f32);
    let down = WindowEvent::MouseInput { button: MouseButton::Left, state: ElementState::Pressed };
    assert_eq!(
        Event::from(&mut context, down),
        Event::MouseDown { button: MouseButton::Left, x: 0.0, y: 0.0 }
    );
    Event::from(&mut context, WindowEvent::CursorMoved { x: 4.0, y: 9.0 });
    Event::from(&mut context, WindowEvent::CursorEntered);
    Event::from(&mut context, WindowEvent::Resized { width: 3, height: 2 });
    assert_eq!(
        Event::from(&mut context, down),
        Event::MouseDown { button: MouseButton::Left, x: 4.0, y: 9.0 }
    );
    let up = WindowEvent::MouseInput {
        button: MouseButton::Other(7),
        state: ElementState::Released,
    };
    assert_eq!(
        Event::from(&mut context, up),
        Event::MouseUp { button: MouseButton::Other(7), x: 4.0, y: 9.0 }
    );
    assert_eq!(context.coordinates(), (4.0, 9.0));
}

#[test]
fn keyboard_reports_become_key_events() {
    let mut context = EventContext::new(1u32, 2u32);
    let pressed = WindowEvent::KeyboardInput {
        physical_key: PhysicalKey::Code(KeyCode::Other(30)),
        state: ElementState::Pressed,
    };
    assert_eq!(Event::from(&mut context, pressed), Event::KeyDown { key: KeyCode::Other(30) });
    let released = WindowEvent::KeyboardInput {
        physical_key: PhysicalKey::Code(KeyCode::Escape),
        state: ElementState::Released,
    };
    assert_eq!(Event::from(&mut context, released), Event::KeyUp { key: KeyCode::Escape });
    let unknown = WindowEvent::KeyboardInput {
        physical_key: PhysicalKey::Unidentified,
        state: ElementState::Pressed,
    };
    assert_eq!(Event::from(&mut context, unknown), Event::UnusedEvent);
    assert_eq!(context.coordinates(), (1, 2));
}

#[test]
fn window_reports_become_window_events() {
    let mut context = EventContext::new(0i64, 0i64);
    assert_eq!(
        Event::from(&mut context, WindowEvent::Resized { width: 800, height: 600 }),
        Event::WindowResize { width: 800, height: 600 }
    );
    assert_eq!(Event::from(&mut context, WindowEvent::CloseRequested), Event::WindowClose);
    assert_eq!(Event::from(&mut context, WindowEvent::CursorEntered), Event::MouseEnter);
    assert_eq!(Event::from(&mut context, WindowEvent::CursorLeft), Event::MouseLeave);
    assert_eq!(Event::from(&mut context, WindowEvent::RedrawRequested), Event::RequestRedraw);
    assert_eq!(Event::from(&mut context, WindowEvent::Other), Event::UnusedEvent);
}

#[test]
fn context_update_follows_only_mouse_moves() {
    let mut context = EventContext::new(1.0f64, 1.0f64);
    context.update(&Event::MouseDown { button: MouseButton::Right, x: 8.0, y: 8.0 });
    assert_eq!(context.coordinates(), (1.0, 1.0));
    context.update(&Event::MouseMove { x: 2.0, y: 3.0 });
    assert_eq!(context.coordinates(), (2.0, 3.0));
}

#[test]
fn gui_loop_decisions() {
    assert_eq!(window_action(&WindowEvent::<f32>::CloseRequested), GuiAction::Exit);
    assert_eq!(window_action(&WindowEvent::<f32>::RedrawRequested), GuiAction::Redraw);
    for state in [ElementState::Pressed, ElementState::Released] {
        let escape = WindowEvent::<f32>::KeyboardInput {
            physical_key: PhysicalKey::Code(KeyCode::Escape),
            state,
        };
        assert_eq!(window_action(&escape), GuiAction::RequestShutdown);
        let other = WindowEvent::<f32>::KeyboardInput {
            physical_key: PhysicalKey::Code(KeyCode::Other(1)),
            state,
        };
        assert_eq!(window_action(&other), GuiAction::Nothing);
        let unknown =
            WindowEvent::<f32>::KeyboardInput { physical_key: PhysicalKey::Unidentified, state };
        assert_eq!(window_action(&unknown), GuiAction::Nothing);
    }
    assert_eq!(window_action(&WindowEvent::CursorMoved { x: 1.0f32, y: 1.0 }), GuiAction::Nothing);
    assert_eq!(user_action(GuiControlMessage::Shutdown), GuiAction::Exit);
}

#[test]
fn window_loop_decisions() {
    let mut state: WindowLoop<f32> = WindowLoop::new();
    assert_eq!(state.pointer(), None);
    assert_eq!(state.window_event(&Event::MouseMove { x: 3.0, y: 4.0 }), LoopAction::Nothing);
    assert_eq!(state.pointer(), Some((3.0, 4.0)));
    assert_eq!(
        state.window_event(&Event::MouseDown { button: MouseButton::Left, x: 3.0, y: 4.0 }),
        LoopAction::ReportMouseDown { button: MouseButton::Left, x: 3.0, y: 4.0 }
    );
    assert_eq!(
        state.window_event(&Event::MouseUp { button: MouseButton::Left, x: 3.0, y: 4.0 }),
        LoopAction::ReportMouseUp { button: MouseButton::Left, x: 3.0, y: 4.0 }
    );
    assert_eq!(state.window_event(&Event::KeyDown { key: KeyCode::Escape }), LoopAction::Exit);
    assert_eq!(state.window_event(&Event::KeyUp { key: KeyCode::Escape }), LoopAction::Nothing);
    assert_eq!(
        state.window_event(&Event::KeyDown { key: KeyCode::Other(2) }),
        LoopAction::Nothing
    );
    assert_eq!(state.window_event(&Event::WindowClose), LoopAction::Exit);
    assert_eq!(state.pointer(), Some((3.0, 4.0)));
}

#[test]
fn window_loop_renders_at_a_limited_rate() {
    let mut state: WindowLoop<f32> = WindowLoop::new();
    assert_eq!(state.about_to_wait(100, false), None);
    assert_eq!(state.about_to_wait(200, true), Some(100));
    assert_eq!(state.about_to_wait(300, true), None);
    assert_eq!(state.about_to_wait(200 + 16_000_000, true), Some(100 + 16_000_000));
}

#[test]
fn gui_loop_does_nothing_more_once_shutdown_arrived() {
    let escape = WindowEvent::<f32>::KeyboardInput {
        physical_key: PhysicalKey::Code(KeyCode::Escape),
        state: ElementState::Pressed,
    };
    let mut state = GuiLoop::new(0);
    assert!(!state.is_exiting());
    assert_eq!(state.window_event(&WindowEvent::<f32>::RedrawRequested), GuiAction::Redraw);
    assert_eq!(state.window_event(&escape), GuiAction::RequestShutdown);
    assert!(state.about_to_wait(5));
    assert_eq!(state.frame_deadline(), 16_666_667);

    assert_eq!(state.user_event(GuiControlMessage::Shutdown), GuiAction::Exit);
    assert!(state.is_exiting());
    assert_eq!(state.window_event(&WindowEvent::<f32>::RedrawRequested), GuiAction::Nothing);
    assert_eq!(state.window_event(&escape), GuiAction::Nothing);
    assert_eq!(state.window_event(&WindowEvent::<f32>::CloseRequested), GuiAction::Nothing);
    assert_eq!(state.user_event(GuiControlMessage::Shutdown), GuiAction::Nothing);
    assert!(!state.about_to_wait(100_000_000));
    assert_eq!(state.frame_deadline(), 16_666_667);
}

#[test]
fn gui_loop_leaves_when_the_window_is_closed() {
    let mut state = GuiLoop::new(7);
    assert_eq!(state.window_event(&WindowEvent::<f32>::CloseRequested), GuiAction::Exit);
    assert!(state.is_exiting());
    assert_eq!(state.window_event(&WindowEvent::<f32>::CloseRequested), GuiAction::Nothing);
    assert!(!state.about_to_wait(7));
}
