use amethyst_egui::bundle::EguiBundle;
use amethyst_egui::system::{
    set_cursor, CursorAction, CursorIcon, ElementState, EguiConfig, EguiContext, EguiInputGrab,
    EguiStage, EguiSystem, Event, Key, KeyboardInput, Output, StageError, VirtualKeyCode,
    WindowCursorIcon, WindowEvent,
};

fn quiet_output(cursor_icon: CursorIcon) -> Output {
    Output { cursor_icon, open_url: None, copied_text: String::new(), events: vec![] }
}

#[test]
fn layout_context_only_while_rendering() {
    let mut ctx = EguiContext::new(42u32);
    assert!(ctx.ctx().is_none());
    assert_eq!(ctx.begin_frame().unwrap().is_none(), true);
    assert_eq!(ctx.ctx(), Some(&42u32));
    ctx.end_frame(quiet_output(CursorIcon::Default)).unwrap();
    assert!(matches!(ctx.stage, EguiStage::End(_)));
    assert!(ctx.ctx().is_none());
}

#[test]
fn stages_cycle_over_many_ticks() {
    let mut ctx = EguiContext::new(());
    for tick in 0..5 {
        let pending = ctx.begin_frame().unwrap();
        assert_eq!(pending.is_some(), tick > 0);
        assert!(matches!(ctx.stage, EguiStage::Render));
        assert_eq!(ctx.begin_frame().unwrap_err(), StageError::AlreadyRendering);
        ctx.end_frame(quiet_output(CursorIcon::Text)).unwrap();
        assert_eq!(
            ctx.end_frame(quiet_output(CursorIcon::Text)).unwrap_err(),
            StageError::NotRendering
        );
    }
}

#[test]
fn ending_without_frame_is_refused() {
    let mut ctx = EguiContext::new(());
    assert_eq!(ctx.end_frame(quiet_output(CursorIcon::Default)), Err(StageError::NotRendering));
    assert!(matches!(ctx.stage, EguiStage::Begin));
}

#[test]
fn system_refuses_to_run_while_rendering() {
    let mut res = EguiBundle.load(());
    res.context.begin_frame().unwrap();
    let wants = EguiInputGrab { keyboard: true, mouse: true };
    let r = res.system.run(&mut res.context, &mut res.input_grab, wants, &vec![], &res.config, 1, 1, 0, 0);
    assert_eq!(r.unwrap_err(), StageError::AlreadyRendering);
    assert_eq!(res.input_grab, EguiInputGrab { keyboard: false, mouse: false });
}

#[test]
fn tick_sequence_with_key_and_quiet_output() {
    let mut res = EguiBundle.load(());
    let config = EguiConfig { allow_clipboard: true, allow_webbrowser: true, ..EguiConfig::default() };
    let key = WindowEvent::KeyboardInput {
        input: KeyboardInput { state: ElementState::Pressed, virtual_keycode: Some(VirtualKeyCode::Tab) },
    };

    // Tick one: the GUI wanted nothing before this frame.
    let before = EguiInputGrab { keyboard: false, mouse: false };
    let tick = res
        .system
        .run(&mut res.context, &mut res.input_grab, before, &vec![key], &config, 640, 480, 10, 16)
        .unwrap();
    assert!(tick.actions.is_none());
    assert_eq!(tick.input.events.len(), 1);
    assert!(matches!(tick.input.events[0], Event::Key { key: Key::Tab, pressed: true, .. }));
    assert_eq!(res.input_grab, before);

    // Layout in this frame takes keyboard focus; the frame ends quietly.
    assert!(res.context.ctx().is_some());
    let focused = EguiInputGrab { keyboard: true, mouse: false };
    res.context.end_frame(quiet_output(CursorIcon::Default)).unwrap();

    // Tick two: the grab shows the focus of the frame before.
    let tick = res
        .system
        .run(&mut res.context, &mut res.input_grab, focused, &vec![], &config, 640, 480, 26, 16)
        .unwrap();
    assert_eq!(res.input_grab, focused);
    let actions = tick.actions.unwrap();
    assert_eq!(actions.cursor, CursorAction::Show(WindowCursorIcon::Default));
    assert!(actions.copy_text.is_none());
    assert!(actions.open_url.is_none());
    assert!(actions.speak.is_empty());
}

#[test]
fn output_capabilities_follow_configuration() {
    let sys = EguiSystem::new();
    let output = || Output {
        cursor_icon: CursorIcon::Hidden,
        open_url: Some("https://example.org".to_string()),
        copied_text: "copied".to_string(),
        events: vec!["button Ok".to_string()],
    };
    let off = sys.handle_output(output(), &EguiConfig::default());
    assert_eq!(off.cursor, CursorAction::Hide);
    assert!(off.open_url.is_none() && off.copy_text.is_none() && off.speak.is_empty());

    let all = EguiConfig {
        allow_webbrowser: true,
        allow_clipboard: true,
        enable_tts: true,
        ..EguiConfig::default()
    };
    let on = sys.handle_output(output(), &all);
    assert_eq!(on.open_url.as_deref(), Some("https://example.org"));
    assert_eq!(on.copy_text.as_deref(), Some("copied"));
    assert_eq!(on.speak, vec!["button Ok".to_string()]);
}

#[test]
fn cursor_mapping() {
    assert_eq!(set_cursor(CursorIcon::Hidden), CursorAction::Hide);
    assert_eq!(set_cursor(CursorIcon::PointingHand), CursorAction::Show(WindowCursorIcon::Hand));
    assert_eq!(set_cursor(CursorIcon::ResizeHorizontal), CursorAction::Show(WindowCursorIcon::EwResize));
    assert_eq!(set_cursor(CursorIcon::ResizeNeSw), CursorAction::Show(WindowCursorIcon::NeswResize));
    assert_eq!(set_cursor(CursorIcon::ResizeNwSe), CursorAction::Show(WindowCursorIcon::NwseResize));
    assert_eq!(set_cursor(CursorIcon::ResizeVertical), CursorAction::Show(WindowCursorIcon::NsResize));
    assert_eq!(set_cursor(CursorIcon::ZoomOut), CursorAction::Show(WindowCursorIcon::ZoomOut));
}

#[test]
fn bundle_sets_up_defaults() {
    let res = EguiBundle.load(7u8);
    assert_eq!(res.input_grab, EguiInputGrab { keyboard: false, mouse: false });
    assert_eq!(res.config.scroll_sensitivity, 1);
    assert!(!res.config.mirror_mouse_buttons);
    assert!(matches!(res.context.stage, EguiStage::Begin));
    assert_eq!(res.context.ctx, 7u8);
    assert!(res.context.user_textures.is_empty());
}
