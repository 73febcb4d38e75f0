use amethyst_egui::system::{
    convert_mouse_button, ElementState, EguiConfig, EguiSystem, Event, Key, KeyboardInput,
    Modifiers, ModifiersState, MouseButton, MouseScrollDelta, PointerButton, Pos2, RawInput,
    ScrollDirection, VirtualKeyCode, WindowEvent,
};

fn key_down(code: VirtualKeyCode) -> WindowEvent {
    WindowEvent::KeyboardInput {
        input: KeyboardInput { state: ElementState::Pressed, virtual_keycode: Some(code) },
    }
}

fn no_mods() -> Modifiers {
    Modifiers { alt: false, ctrl: false, shift: false, mac_cmd: false, command: false }
}

fn translate(events: Vec<WindowEvent>, mirror: bool) -> (RawInput, EguiSystem) {
    let mut sys = EguiSystem::new();
    let mut input = RawInput::new(800, 600, 5, 16);
    let mut config = EguiConfig::default();
    config.mirror_mouse_buttons = mirror;
    sys.handle_window_events(&mut input, &events, &config);
    (input, sys)
}

#[test]
fn one_event_per_recognized_event_in_order() {
    let events = vec![
        key_down(VirtualKeyCode::A),
        key_down(VirtualKeyCode::Other),
        WindowEvent::ReceivedCharacter('x'),
        WindowEvent::ReceivedCharacter('\n'),
        WindowEvent::ReceivedCharacter('\r'),
        WindowEvent::CursorMoved { position: Pos2 { x: 10, y: 20 } },
        WindowEvent::MouseInput { state: ElementState::Pressed, button: MouseButton::Other(7) },
        WindowEvent::MouseInput { state: ElementState::Released, button: MouseButton::Left },
        WindowEvent::CursorLeft,
        WindowEvent::ScaleFactorChanged,
        WindowEvent::Other,
        WindowEvent::KeyboardInput {
            input: KeyboardInput { state: ElementState::Pressed, virtual_keycode: None },
        },
    ];
    let (input, _) = translate(events, false);
    assert_eq!(
        input.events,
        vec![
            Event::Key { key: Key::A, pressed: true, modifiers: no_mods() },
            Event::Text('x'),
            Event::PointerMoved(Pos2 { x: 10, y: 20 }),
            Event::PointerButton {
                pos: Pos2 { x: 10, y: 20 },
                button: PointerButton::Primary,
                pressed: false,
                modifiers: no_mods(),
            },
            Event::PointerGone,
        ]
    );
}

#[test]
fn no_events_for_no_window_events() {
    let (input, sys) = translate(vec![], false);
    assert!(input.events.is_empty());
    assert_eq!(sys.current_mouse_pos, Pos2 { x: 0, y: 0 });
    assert_eq!(input.screen_width, 800);
    assert_eq!(input.screen_height, 600);
    assert_eq!(input.time_nanos, 5);
    assert_eq!(input.predicted_dt_nanos, 16);
}

#[test]
fn key_table_maps_named_keys() {
    let events = vec![
        key_down(VirtualKeyCode::Down),
        key_down(VirtualKeyCode::Back),
        key_down(VirtualKeyCode::Return),
        key_down(VirtualKeyCode::Key7),
        key_down(VirtualKeyCode::Z),
    ];
    let (input, _) = translate(events, false);
    let keys: Vec<Key> = input
        .events
        .iter()
        .map(|e| match e {
            Event::Key { key, .. } => *key,
            _ => panic!("not a key event"),
        })
        .collect();
    assert_eq!(keys, vec![Key::ArrowDown, Key::Backspace, Key::Enter, Key::Num7, Key::Z]);
}

#[test]
fn modifiers_stamp_later_events_and_persist() {
    let events = vec![
        WindowEvent::ModifiersChanged(ModifiersState {
            alt: false,
            ctrl: true,
            shift: false,
            logo: true,
        }),
        WindowEvent::KeyboardInput {
            input: KeyboardInput {
                state: ElementState::Released,
                virtual_keycode: Some(VirtualKeyCode::C),
            },
        },
    ];
    let (input, sys) = translate(events, false);
    let held = Modifiers { alt: false, ctrl: true, shift: false, mac_cmd: true, command: true };
    assert_eq!(input.events, vec![Event::Key { key: Key::C, pressed: false, modifiers: held }]);
    assert_eq!(input.modifiers, held);
    assert_eq!(sys.current_modifiers, held);
}

#[test]
fn button_mirroring() {
    assert_eq!(convert_mouse_button(MouseButton::Left, true), Some(PointerButton::Secondary));
    assert_eq!(convert_mouse_button(MouseButton::Right, true), Some(PointerButton::Primary));
    assert_eq!(convert_mouse_button(MouseButton::Middle, true), Some(PointerButton::Middle));
    assert_eq!(convert_mouse_button(MouseButton::Left, false), Some(PointerButton::Primary));
    assert_eq!(convert_mouse_button(MouseButton::Right, false), Some(PointerButton::Secondary));
    assert_eq!(convert_mouse_button(MouseButton::Middle, false), Some(PointerButton::Middle));
    assert_eq!(convert_mouse_button(MouseButton::Other(4), false), None);
}

#[test]
fn mirrored_left_press_gives_secondary_event() {
    let down = |b| WindowEvent::MouseInput { state: ElementState::Pressed, button: b };
    let (input, _) = translate(vec![down(MouseButton::Left), down(MouseButton::Right)], true);
    let buttons: Vec<PointerButton> = input
        .events
        .iter()
        .map(|e| match e {
            Event::PointerButton { button, pressed: true, .. } => *button,
            _ => panic!("not a button press"),
        })
        .collect();
    assert_eq!(buttons, vec![PointerButton::Secondary, PointerButton::Primary]);
}

#[test]
fn pixel_scroll_accumulates_and_line_scroll_is_ignored() {
    let events = vec![
        WindowEvent::MouseWheel { delta: MouseScrollDelta::PixelDelta(3, -4) },
        WindowEvent::MouseWheel { delta: MouseScrollDelta::LineDelta(1, 1) },
        WindowEvent::MouseWheel { delta: MouseScrollDelta::PixelDelta(2, -1) },
    ];
    let (input, _) = translate(events, false);
    assert!(input.events.is_empty());
    assert_eq!(input.scroll_delta.x, 5);
    assert_eq!(input.scroll_delta.y, -5);
}

#[test]
fn scroll_saturates_at_the_limit() {
    let mut input = RawInput::new(1, 1, 0, 0);
    input.scroll_delta.x = i64::MAX - 1;
    input.mouse_wheel(&MouseScrollDelta::PixelDelta(10, 0));
    assert_eq!(input.scroll_delta.x, i64::MAX);
}

#[test]
fn scroll_steps_use_sensitivity() {
    let mut input = RawInput::new(1, 1, 0, 0);
    input.add_scroll_delta(ScrollDirection::ScrollUp, 3);
    input.add_scroll_delta(ScrollDirection::ScrollRight, 2);
    input.add_scroll_delta(ScrollDirection::ScrollDown, 1);
    input.add_scroll_delta(ScrollDirection::ScrollLeft, 7);
    assert_eq!(input.scroll_delta.y, -2);
    assert_eq!(input.scroll_delta.x, -5);
}

#[test]
fn button_uses_last_pointer_position() {
    let events = vec![
        WindowEvent::CursorMoved { position: Pos2 { x: 1, y: 2 } },
        WindowEvent::CursorMoved { position: Pos2 { x: -3, y: 9 } },
        WindowEvent::MouseInput { state: ElementState::Pressed, button: MouseButton::Middle },
    ];
    let (input, sys) = translate(events, false);
    assert_eq!(sys.current_mouse_pos, Pos2 { x: -3, y: 9 });
    assert_eq!(
        input.events[2],
        Event::PointerButton {
            pos: Pos2 { x: -3, y: 9 },
            button: PointerButton::Middle,
            pressed: true,
            modifiers: no_mods(),
        }
    );
}
