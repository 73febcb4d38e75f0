use std::collections::HashMap;

use vstd::prelude::*;

use crate::pass::TextureHandle;

verus! {

/// Whether the GUI wants exclusive use of the keyboard and of the mouse.
#[derive(Debug, Clone, Copy, PartialEq, Eq, Structural)]
pub struct EguiInputGrab {
    pub keyboard: bool,
    pub mouse: bool,
}

impl EguiInputGrab {
    pub fn new() -> (r: EguiInputGrab)
        ensures
            !r.keyboard && !r.mouse,
    {
        EguiInputGrab { keyboard: false, mouse: false }
    }
}

// ---------------------------------------------------------------------------
// Window-side input, as the windowing layer reports it.
// ---------------------------------------------------------------------------

/// Whether a key or a button went down or up.
#[derive(Debug, Clone, Copy, PartialEq, Eq, Structural)]
pub enum ElementState {
    Pressed,
    Released,
}

/// A key code of the windowing layer. Codes that the GUI has no key for are
/// all reported as `Other`.
#[derive(Debug, Clone, Copy, PartialEq, Eq, Structural)]
pub enum VirtualKeyCode {
    Down,
    Left,
    Right,
    Up,
    Escape,
    Tab,
    Back,
    Return,
    Space,
    Insert,
    Delete,
    Home,
    End,
    PageUp,
    PageDown,
    Key0,
    Key1,
    Key2,
    Key3,
    Key4,
    Key5,
    Key6,
    Key7,
    Key8,
    Key9,
    A,
    B,
    C,
    D,
    E,
    F,
    G,
    H,
    I,
    J,
    K,
    L,
    M,
    N,
    O,
    P,
    Q,
    R,
    S,
    T,
    U,
    V,
    W,
    X,
    Y,
    Z,
    Other,
}

/// A key press or release; the key code is absent for keys that the
/// windowing layer cannot name.
#[derive(Debug, Clone, Copy, PartialEq, Eq, Structural)]
pub struct KeyboardInput {
    pub state: ElementState,
    pub virtual_keycode: Option<VirtualKeyCode>,
}

/// The modifier keys held, as the windowing layer reports them.
#[derive(Debug, Clone, Copy, PartialEq, Eq, Structural)]
pub struct ModifiersState {
    pub alt: bool,
    pub ctrl: bool,
    pub shift: bool,
    pub logo: bool,
}

/// A mouse button of the windowing layer.
#[derive(Debug, Clone, Copy, PartialEq, Eq, Structural)]
pub enum MouseButton {
    Left,
    Right,
    Middle,
    Other(u16),
}

/// A position on the surface, in whole physical pixels.
#[derive(Debug, Clone, Copy, PartialEq, Eq, Structural)]
pub struct Pos2 {
    pub x: i32,
    pub y: i32,
}

/// A scroll amount: in lines or in pixels.
#[derive(Debug, Clone, Copy, PartialEq, Eq, Structural)]
pub enum MouseScrollDelta {
    LineDelta(i32, i32),
    PixelDelta(i32, i32),
}

/// One discrete scroll step in a direction.
#[derive(Debug, Clone, Copy, PartialEq, Eq, Structural)]
pub enum ScrollDirection {
    ScrollUp,
    ScrollDown,
    ScrollLeft,
    ScrollRight,
}

/// An event of the window, as far as the GUI takes notice of it.
#[derive(Debug, Clone, Copy, PartialEq, Eq, Structural)]
pub enum WindowEvent {
    KeyboardInput { input: KeyboardInput },
    ModifiersChanged(ModifiersState),
    ReceivedCharacter(char),
    CursorMoved { position: Pos2 },
    MouseInput { state: ElementState, button: MouseButton },
    CursorLeft,
    MouseWheel { delta: MouseScrollDelta },
    ScaleFactorChanged,
    Other,
}

// ---------------------------------------------------------------------------
// GUI-side input.
// ---------------------------------------------------------------------------

/// A key that the GUI knows.
#[derive(Debug, Clone, Copy, PartialEq, Eq, Structural)]
pub enum Key {
    ArrowDown,
    ArrowLeft,
    ArrowRight,
    ArrowUp,
    Escape,
    Tab,
    Backspace,
    Enter,
    Space,
    Insert,
    Delete,
    Home,
    End,
    PageUp,
    PageDown,
    Num0,
    Num1,
    Num2,
    Num3,
    Num4,
    Num5,
    Num6,
    Num7,
    Num8,
    Num9,
    A,
    B,
    C,
    D,
    E,
    F,
    G,
    H,
    I,
    J,
    K,
    L,
    M,
    N,
    O,
    P,
    Q,
    R,
    S,
    T,
    U,
    V,
    W,
    X,
    Y,
    Z,
}

/// The modifier keys held, as the GUI sees them.
#[derive(Debug, Clone, Copy, PartialEq, Eq, Structural)]
pub struct Modifiers {
    pub alt: bool,
    pub ctrl: bool,
    pub shift: bool,
    pub mac_cmd: bool,
    pub command: bool,
}

impl Modifiers {
    pub fn none() -> (r: Modifiers)
        ensures
            r == no_modifiers(),
    {
        Modifiers { alt: false, ctrl: false, shift: false, mac_cmd: false, command: false }
    }
}

pub open spec fn no_modifiers() -> Modifiers {
    Modifiers { alt: false, ctrl: false, shift: false, mac_cmd: false, command: false }
}

/// A pointer button as the GUI sees it.
#[derive(Debug, Clone, Copy, PartialEq, Eq, Structural)]
pub enum PointerButton {
    Primary,
    Secondary,
    Middle,
}

/// One input event handed to the GUI.
#[derive(Debug, Clone, Copy, PartialEq, Eq, Structural)]
pub enum Event {
    Key { key: Key, pressed: bool, modifiers: Modifiers },
    Text(char),
    PointerMoved(Pos2),
    PointerButton { pos: Pos2, button: PointerButton, pressed: bool, modifiers: Modifiers },
    PointerGone,
}

/// An accumulated scroll amount, in pixels.
#[derive(Debug, Clone, Copy, PartialEq, Eq, Structural)]
pub struct Vec2 {
    pub x: i64,
    pub y: i64,
}

/// The input of one frame, handed to the GUI as the frame begins.
#[derive(Debug)]
pub struct RawInput {
    pub events: Vec<Event>,
    pub modifiers: Modifiers,
    pub scroll_delta: Vec2,
    pub screen_width: u32,
    pub screen_height: u32,
    pub time_nanos: u64,
    pub predicted_dt_nanos: u64,
}

// ---------------------------------------------------------------------------
// The translation, stated.
// ---------------------------------------------------------------------------

/// The GUI key for a key code, if the GUI has one.
pub open spec fn key_table(k: VirtualKeyCode) -> Option<Key> {
    match k {
        VirtualKeyCode::Down => Some(Key::ArrowDown),
        VirtualKeyCode::Left => Some(Key::ArrowLeft),
        VirtualKeyCode::Right => Some(Key::ArrowRight),
        VirtualKeyCode::Up => Some(Key::ArrowUp),
        VirtualKeyCode::Escape => Some(Key::Escape),
        VirtualKeyCode::Tab => Some(Key::Tab),
        VirtualKeyCode::Back => Some(Key::Backspace),
        VirtualKeyCode::Return => Some(Key::Enter),
        VirtualKeyCode::Space => Some(Key::Space),
        VirtualKeyCode::Insert => Some(Key::Insert),
        VirtualKeyCode::Delete => Some(Key::Delete),
        VirtualKeyCode::Home => Some(Key::Home),
        VirtualKeyCode::End => Some(Key::End),
        VirtualKeyCode::PageUp => Some(Key::PageUp),
        VirtualKeyCode::PageDown => Some(Key::PageDown),
        VirtualKeyCode::Key0 => Some(Key::Num0),
        VirtualKeyCode::Key1 => Some(Key::Num1),
        VirtualKeyCode::Key2 => Some(Key::Num2),
        VirtualKeyCode::Key3 => Some(Key::Num3),
        VirtualKeyCode::Key4 => Some(Key::Num4),
        VirtualKeyCode::Key5 => Some(Key::Num5),
        VirtualKeyCode::Key6 => Some(Key::Num6),
        VirtualKeyCode::Key7 => Some(Key::Num7),
        VirtualKeyCode::Key8 => Some(Key::Num8),
        VirtualKeyCode::Key9 => Some(Key::Num9),
        VirtualKeyCode::A => Some(Key::A),
        VirtualKeyCode::B => Some(Key::B),
        VirtualKeyCode::C => Some(Key::C),
        VirtualKeyCode::D => Some(Key::D),
        VirtualKeyCode::E => Some(Key::E),
        VirtualKeyCode::F => Some(Key::F),
        VirtualKeyCode::G => Some(Key::G),
        VirtualKeyCode::H => Some(Key::H),
        VirtualKeyCode::I => Some(Key::I),
        VirtualKeyCode::J => Some(Key::J),
        VirtualKeyCode::K => Some(Key::K),
        VirtualKeyCode::L => Some(Key::L),
        VirtualKeyCode::M => Some(Key::M),
        VirtualKeyCode::N => Some(Key::N),
        VirtualKeyCode::O => Some(Key::O),
        VirtualKeyCode::P => Some(Key::P),
        VirtualKeyCode::Q => Some(Key::Q),
        VirtualKeyCode::R => Some(Key::R),
        VirtualKeyCode::S => Some(Key::S),
        VirtualKeyCode::T => Some(Key::T),
        VirtualKeyCode::U => Some(Key::U),
        VirtualKeyCode::V => Some(Key::V),
        VirtualKeyCode::W => Some(Key::W),
        VirtualKeyCode::X => Some(Key::X),
        VirtualKeyCode::Y => Some(Key::Y),
        VirtualKeyCode::Z => Some(Key::Z),
        VirtualKeyCode::Other => None,
    }
}

/// The GUI's view of the modifiers held: the logo key counts as command.
pub open spec fn modifiers_of(m: ModifiersState) -> Modifiers {
    Modifiers { alt: m.alt, ctrl: m.ctrl, shift: m.shift, mac_cmd: m.logo, command: m.logo }
}

/// The GUI button for a mouse button; left and right swap when mirrored,
/// the middle button never does.
pub open spec fn pointer_button_of(b: MouseButton, mirror: bool) -> Option<PointerButton> {
    match b {
        MouseButton::Left => Some(if mirror { PointerButton::Secondary } else { PointerButton::Primary }),
        MouseButton::Right => Some(if mirror { PointerButton::Primary } else { PointerButton::Secondary }),
        MouseButton::Middle => Some(PointerButton::Middle),
        MouseButton::Other(_) => None,
    }
}

pub open spec fn key_event_of(input: KeyboardInput, modifiers: Modifiers) -> Option<Event> {
    match input.virtual_keycode {
        Some(k) => match key_table(k) {
            Some(key) => Some(
                Event::Key { key, pressed: input.state == ElementState::Pressed, modifiers },
            ),
            None => None,
        },
        None => None,
    }
}

pub open spec fn text_event_of(c: char) -> Option<Event> {
    if c != '\n' && c != '\r' {
        Some(Event::Text(c))
    } else {
        None
    }
}

pub open spec fn button_event_of(
    state: ElementState,
    button: MouseButton,
    pos: Pos2,
    modifiers: Modifiers,
    mirror: bool,
) -> Option<Event> {
    match pointer_button_of(button, mirror) {
        Some(b) => Some(
            Event::PointerButton {
                pos,
                button: b,
                pressed: state == ElementState::Pressed,
                modifiers,
            },
        ),
        None => None,
    }
}

/// The GUI event that a window event gives, given the modifiers held and the
/// last pointer position.
pub open spec fn gui_event_of(
    ev: WindowEvent,
    modifiers: Modifiers,
    pos: Pos2,
    mirror: bool,
) -> Option<Event> {
    match ev {
        WindowEvent::KeyboardInput { input } => key_event_of(input, modifiers),
        WindowEvent::ReceivedCharacter(c) => text_event_of(c),
        WindowEvent::CursorMoved { position } => Some(Event::PointerMoved(position)),
        WindowEvent::MouseInput { state, button } => button_event_of(
            state,
            button,
            pos,
            modifiers,
            mirror,
        ),
        WindowEvent::CursorLeft => Some(Event::PointerGone),
        _ => None,
    }
}

/// Whether a window event gives a GUI event; this does not depend on what
/// came before it.
pub open spec fn recognized(ev: WindowEvent, mirror: bool) -> bool {
    match ev {
        WindowEvent::KeyboardInput { input } => match input.virtual_keycode {
            Some(k) => key_table(k) is Some,
            None => false,
        },
        WindowEvent::ReceivedCharacter(c) => c != '\n' && c != '\r',
        WindowEvent::CursorMoved { .. } => true,
        WindowEvent::MouseInput { button, .. } => pointer_button_of(button, mirror) is Some,
        WindowEvent::CursorLeft => true,
        _ => false,
    }
}

pub open spec fn push_opt(s: Seq<Event>, e: Option<Event>) -> Seq<Event> {
    match e {
        Some(e) => s.push(e),
        None => s,
    }
}

/// `x` held to the range of `i64`.
pub open spec fn saturate(x: int) -> int {
    if x < i64::MIN {
        i64::MIN as int
    } else if x > i64::MAX {
        i64::MAX as int
    } else {
        x
    }
}

/// What the translation keeps between events.
pub struct TranslateState {
    pub events: Seq<Event>,
    /// The modifiers that events are stamped with.
    pub modifiers: Modifiers,
    /// The modifiers kept from one frame to the next.
    pub held_modifiers: Modifiers,
    pub pos: Pos2,
    pub scroll: Vec2,
}

pub open spec fn scroll_after(s: Vec2, delta: MouseScrollDelta) -> Vec2 {
    match delta {
        MouseScrollDelta::PixelDelta(x, y) => Vec2 {
            x: saturate(s.x + x) as i64,
            y: saturate(s.y + y) as i64,
        },
        MouseScrollDelta::LineDelta(_, _) => s,
    }
}

/// The effect of one window event.
pub open spec fn step(s: TranslateState, ev: WindowEvent, mirror: bool) -> TranslateState {
    TranslateState {
        events: push_opt(s.events, gui_event_of(ev, s.modifiers, s.pos, mirror)),
        modifiers: match ev {
            WindowEvent::ModifiersChanged(m) => modifiers_of(m),
            _ => s.modifiers,
        },
        held_modifiers: match ev {
            WindowEvent::ModifiersChanged(m) => modifiers_of(m),
            _ => s.held_modifiers,
        },
        pos: match ev {
            WindowEvent::CursorMoved { position } => position,
            _ => s.pos,
        },
        scroll: match ev {
            WindowEvent::MouseWheel { delta } => scroll_after(s.scroll, delta),
            _ => s.scroll,
        },
    }
}

/// The effect of a sequence of window events, in order.
pub open spec fn translate(s: TranslateState, evs: Seq<WindowEvent>, mirror: bool) -> TranslateState
    decreases evs.len(),
{
    if evs.len() == 0 {
        s
    } else {
        step(translate(s, evs.drop_last(), mirror), evs.last(), mirror)
    }
}

/// How many events of a sequence give a GUI event.
pub open spec fn count_recognized(evs: Seq<WindowEvent>, mirror: bool) -> nat
    decreases evs.len(),
{
    if evs.len() == 0 {
        0
    } else {
        count_recognized(evs.drop_last(), mirror) + if recognized(evs.last(), mirror) {
            1nat
        } else {
            0nat
        }
    }
}

pub proof fn lemma_recognized_iff_event(ev: WindowEvent, modifiers: Modifiers, pos: Pos2, mirror: bool)
    ensures
        gui_event_of(ev, modifiers, pos, mirror) is Some <==> recognized(ev, mirror),
{
}

/// A sequence of window events gives exactly one GUI event for each event
/// that is recognized, appended in the order of the window events to what
/// was there; unrecognized keys, buttons and the like give none.
pub proof fn lemma_one_event_per_recognized(s: TranslateState, evs: Seq<WindowEvent>, mirror: bool)
    ensures
        translate(s, evs, mirror).events.len() == s.events.len() + count_recognized(evs, mirror),
        translate(s, evs, mirror).events.subrange(0, s.events.len() as int) == s.events,
    decreases evs.len(),
{
    if evs.len() > 0 {
        let t = translate(s, evs.drop_last(), mirror);
        lemma_one_event_per_recognized(s, evs.drop_last(), mirror);
        lemma_recognized_iff_event(evs.last(), t.modifiers, t.pos, mirror);
        let r = translate(s, evs, mirror);
        assert(r.events.subrange(0, s.events.len() as int) =~= s.events) by {
            assert(t.events.subrange(0, s.events.len() as int) == s.events);
            if gui_event_of(evs.last(), t.modifiers, t.pos, mirror) is Some {
                assert forall|i: int| 0 <= i < s.events.len() implies r.events[i] == t.events[i] by {}
            }
        }
    }
}

/// An event that is not recognized leaves the GUI events as they were.
pub proof fn lemma_unrecognized_gives_nothing(
    s: TranslateState,
    evs: Seq<WindowEvent>,
    ev: WindowEvent,
    mirror: bool,
)
    requires
        !recognized(ev, mirror),
    ensures
        translate(s, evs.push(ev), mirror).events == translate(s, evs, mirror).events,
{
    let t = translate(s, evs, mirror);
    assert(evs.push(ev).drop_last() =~= evs);
    lemma_recognized_iff_event(ev, t.modifiers, t.pos, mirror);
}

// ---------------------------------------------------------------------------
// The translation, carried out.
// ---------------------------------------------------------------------------

fn convert_key(key: &VirtualKeyCode) -> (r: Option<Key>)
    ensures
        r == key_table(*key),
{
    match key {
        VirtualKeyCode::Down => Some(Key::ArrowDown),
        VirtualKeyCode::Left => Some(Key::ArrowLeft),
        VirtualKeyCode::Right => Some(Key::ArrowRight),
        VirtualKeyCode::Up => Some(Key::ArrowUp),
        VirtualKeyCode::Escape => Some(Key::Escape),
        VirtualKeyCode::Tab => Some(Key::Tab),
        VirtualKeyCode::Back => Some(Key::Backspace),
        VirtualKeyCode::Return => Some(Key::Enter),
        VirtualKeyCode::Space => Some(Key::Space),
        VirtualKeyCode::Insert => Some(Key::Insert),
        VirtualKeyCode::Delete => Some(Key::Delete),
        VirtualKeyCode::Home => Some(Key::Home),
        VirtualKeyCode::End => Some(Key::End),
        VirtualKeyCode::PageUp => Some(Key::PageUp),
        VirtualKeyCode::PageDown => Some(Key::PageDown),
        VirtualKeyCode::Key0 => Some(Key::Num0),
        VirtualKeyCode::Key1 => Some(Key::Num1),
        VirtualKeyCode::Key2 => Some(Key::Num2),
        VirtualKeyCode::Key3 => Some(Key::Num3),
        VirtualKeyCode::Key4 => Some(Key::Num4),
        VirtualKeyCode::Key5 => Some(Key::Num5),
        VirtualKeyCode::Key6 => Some(Key::Num6),
        VirtualKeyCode::Key7 => Some(Key::Num7),
        VirtualKeyCode::Key8 => Some(Key::Num8),
        VirtualKeyCode::Key9 => Some(Key::Num9),
        VirtualKeyCode::A => Some(Key::A),
        VirtualKeyCode::B => Some(Key::B),
        VirtualKeyCode::C => Some(Key::C),
        VirtualKeyCode::D => Some(Key::D),
        VirtualKeyCode::E => Some(Key::E),
        VirtualKeyCode::F => Some(Key::F),
        VirtualKeyCode::G => Some(Key::G),
        VirtualKeyCode::H => Some(Key::H),
        VirtualKeyCode::I => Some(Key::I),
        VirtualKeyCode::J => Some(Key::J),
        VirtualKeyCode::K => Some(Key::K),
        VirtualKeyCode::L => Some(Key::L),
        VirtualKeyCode::M => Some(Key::M),
        VirtualKeyCode::N => Some(Key::N),
        VirtualKeyCode::O => Some(Key::O),
        VirtualKeyCode::P => Some(Key::P),
        VirtualKeyCode::Q => Some(Key::Q),
        VirtualKeyCode::R => Some(Key::R),
        VirtualKeyCode::S => Some(Key::S),
        VirtualKeyCode::T => Some(Key::T),
        VirtualKeyCode::U => Some(Key::U),
        VirtualKeyCode::V => Some(Key::V),
        VirtualKeyCode::W => Some(Key::W),
        VirtualKeyCode::X => Some(Key::X),
        VirtualKeyCode::Y => Some(Key::Y),
        VirtualKeyCode::Z => Some(Key::Z),
        VirtualKeyCode::Other => None,
    }
}

fn convert_modifiers(modifiers: &ModifiersState) -> (r: Modifiers)
    ensures
        r == modifiers_of(*modifiers),
{
    Modifiers {
        alt: modifiers.alt,
        ctrl: modifiers.ctrl,
        shift: modifiers.shift,
        mac_cmd: modifiers.logo,
        command: modifiers.logo,
    }
}

/// The GUI button for a mouse button, with left and right swapped when
/// `mirror_buttons` is set.
pub fn convert_mouse_button(mouse_button: MouseButton, mirror_buttons: bool) -> (r: Option<
    PointerButton,
>)
    ensures
        r == pointer_button_of(mouse_button, mirror_buttons),
{
    match mouse_button {
        MouseButton::Left => if mirror_buttons {
            Some(PointerButton::Secondary)
        } else {
            Some(PointerButton::Primary)
        },
        MouseButton::Right => if mirror_buttons {
            Some(PointerButton::Primary)
        } else {
            Some(PointerButton::Secondary)
        },
        MouseButton::Middle => Some(PointerButton::Middle),
        MouseButton::Other(_) => None,
    }
}

fn saturating_add_i64(a: i64, b: i64) -> (r: i64)
    ensures
        r == saturate(a + b),
{
    let s: i128 = a as i128 + b as i128;
    if s < i64::MIN as i128 {
        i64::MIN
    } else if s > i64::MAX as i128 {
        i64::MAX
    } else {
        s as i64
    }
}

/// `b` is `a` with only its events changed.
pub open spec fn same_but_events(a: RawInput, b: RawInput) -> bool {
    &&& b.modifiers == a.modifiers
    &&& b.scroll_delta == a.scroll_delta
    &&& b.screen_width == a.screen_width
    &&& b.screen_height == a.screen_height
    &&& b.time_nanos == a.time_nanos
    &&& b.predicted_dt_nanos == a.predicted_dt_nanos
}

impl RawInput {
    /// An input with no events, no modifiers and no scrolling.
    pub fn new(screen_width: u32, screen_height: u32, time_nanos: u64, predicted_dt_nanos: u64) -> (r:
        RawInput)
        ensures
            r.events@.len() == 0,
            r.modifiers == no_modifiers(),
            r.scroll_delta == (Vec2 { x: 0, y: 0 }),
            r.screen_width == screen_width,
            r.screen_height == screen_height,
            r.time_nanos == time_nanos,
            r.predicted_dt_nanos == predicted_dt_nanos,
    {
        RawInput {
            events: Vec::new(),
            modifiers: Modifiers::none(),
            scroll_delta: Vec2 { x: 0, y: 0 },
            screen_width,
            screen_height,
            time_nanos,
            predicted_dt_nanos,
        }
    }

    /// Adds a key event if the GUI knows the key.
    pub fn key(&mut self, keyboard_input: &KeyboardInput)
        ensures
            final(self).events@ == push_opt(
                old(self).events@,
                key_event_of(*keyboard_input, old(self).modifiers),
            ),
            same_but_events(*old(self), *final(self)),
    {
        if let Some(code) = &keyboard_input.virtual_keycode {
            if let Some(key) = convert_key(code) {
                let pressed = match keyboard_input.state {
                    ElementState::Pressed => true,
                    ElementState::Released => false,
                };
                self.events.push(Event::Key { key, pressed, modifiers: self.modifiers });
            }
        }
    }

    /// Takes on new modifiers, here and in `current_modifiers`.
    pub fn modifiers(&mut self, modifiers: &ModifiersState, current_modifiers: &mut Modifiers)
        ensures
            final(self).modifiers == modifiers_of(*modifiers),
            *final(current_modifiers) == modifiers_of(*modifiers),
            final(self).events@ == old(self).events@,
            final(self).scroll_delta == old(self).scroll_delta,
            final(self).screen_width == old(self).screen_width,
            final(self).screen_height == old(self).screen_height,
            final(self).time_nanos == old(self).time_nanos,
            final(self).predicted_dt_nanos == old(self).predicted_dt_nanos,
    {
        let m = convert_modifiers(modifiers);
        self.modifiers = m;
        *current_modifiers = m;
    }

    /// Adds a text event, except for line breaks, which keys convey.
    pub fn key_char(&mut self, c: char)
        ensures
            final(self).events@ == push_opt(old(self).events@, text_event_of(c)),
            same_but_events(*old(self), *final(self)),
    {
        if c != '\n' && c != '\r' {
            self.events.push(Event::Text(c));
        }
    }

    /// Adds a pointer-moved event and remembers the position.
    pub fn mouse_moved(&mut self, position: &Pos2, current_mouse_pos: &mut Pos2)
        ensures
            final(self).events@ == old(self).events@.push(Event::PointerMoved(*position)),
            same_but_events(*old(self), *final(self)),
            *final(current_mouse_pos) == *position,
    {
        self.events.push(Event::PointerMoved(*position));
        *current_mouse_pos = *position;
    }

    /// Adds a pointer-button event at the last known position, if the GUI
    /// has a button for it.
    pub fn mouse_button(
        &mut self,
        state: ElementState,
        button: MouseButton,
        current_mouse_pos: &Pos2,
        mirror_buttons: bool,
    )
        ensures
            final(self).events@ == push_opt(
                old(self).events@,
                button_event_of(
                    state,
                    button,
                    *current_mouse_pos,
                    old(self).modifiers,
                    mirror_buttons,
                ),
            ),
            same_but_events(*old(self), *final(self)),
    {
        if let Some(b) = convert_mouse_button(button, mirror_buttons) {
            let pressed = match state {
                ElementState::Pressed => true,
                ElementState::Released => false,
            };
            self.events.push(
                Event::PointerButton {
                    pos: *current_mouse_pos,
                    button: b,
                    pressed,
                    modifiers: self.modifiers,
                },
            );
        }
    }

    /// Adds a pixel scroll to the scroll amount; line scrolls are ignored.
    pub fn mouse_wheel(&mut self, delta: &MouseScrollDelta)
        ensures
            final(self).scroll_delta == scroll_after(old(self).scroll_delta, *delta),
            final(self).events@ == old(self).events@,
            final(self).modifiers == old(self).modifiers,
            final(self).screen_width == old(self).screen_width,
            final(self).screen_height == old(self).screen_height,
            final(self).time_nanos == old(self).time_nanos,
            final(self).predicted_dt_nanos == old(self).predicted_dt_nanos,
    {
        if let MouseScrollDelta::PixelDelta(x, y) = delta {
            self.scroll_delta.x = saturating_add_i64(self.scroll_delta.x, *x as i64);
            self.scroll_delta.y = saturating_add_i64(self.scroll_delta.y, *y as i64);
        }
    }

    /// Adds a pointer-gone event.
    pub fn mouse_left(&mut self)
        ensures
            final(self).events@ == old(self).events@.push(Event::PointerGone),
            same_but_events(*old(self), *final(self)),
    {
        self.events.push(Event::PointerGone);
    }

    /// Scrolls one step of `sensitivity` pixels in a direction.
    pub fn add_scroll_delta(&mut self, direction: ScrollDirection, sensitivity: u32)
        ensures
            final(self).scroll_delta == (match direction {
                ScrollDirection::ScrollUp => Vec2 {
                    x: old(self).scroll_delta.x,
                    y: saturate(old(self).scroll_delta.y - sensitivity) as i64,
                },
                ScrollDirection::ScrollDown => Vec2 {
                    x: old(self).scroll_delta.x,
                    y: saturate(old(self).scroll_delta.y + sensitivity) as i64,
                },
                ScrollDirection::ScrollLeft => Vec2 {
                    x: saturate(old(self).scroll_delta.x - sensitivity) as i64,
                    y: old(self).scroll_delta.y,
                },
                ScrollDirection::ScrollRight => Vec2 {
                    x: saturate(old(self).scroll_delta.x + sensitivity) as i64,
                    y: old(self).scroll_delta.y,
                },
            }),
            final(self).events@ == old(self).events@,
            final(self).modifiers == old(self).modifiers,
    {
        let s: i64 = sensitivity as i64;
        match direction {
            ScrollDirection::ScrollUp => {
                self.scroll_delta.y = saturating_add_i64(self.scroll_delta.y, -s);
            },
            ScrollDirection::ScrollDown => {
                self.scroll_delta.y = saturating_add_i64(self.scroll_delta.y, s);
            },
            ScrollDirection::ScrollLeft => {
                self.scroll_delta.x = saturating_add_i64(self.scroll_delta.x, -s);
            },
            ScrollDirection::ScrollRight => {
                self.scroll_delta.x = saturating_add_i64(self.scroll_delta.x, s);
            },
        }
    }
}


// ---------------------------------------------------------------------------
// Configuration.
// ---------------------------------------------------------------------------

/// Options of the GUI integration.
#[derive(Debug, Clone, Copy, PartialEq, Eq, Structural)]
pub struct EguiConfig {
    /// Pixels scrolled by one discrete scroll step.
    pub scroll_sensitivity: u32,
    /// Swap the left and the right mouse button.
    pub mirror_mouse_buttons: bool,
    /// Open the links that the GUI asks for.
    pub allow_webbrowser: bool,
    /// Write the text that the GUI copies to the clipboard.
    pub allow_clipboard: bool,
    /// Speak what the GUI describes.
    pub enable_tts: bool,
}

impl Default for EguiConfig {
    fn default() -> (r: EguiConfig)
        ensures
            r.scroll_sensitivity == 1,
            !r.mirror_mouse_buttons,
            !r.allow_webbrowser,
            !r.allow_clipboard,
            !r.enable_tts,
    {
        EguiConfig {
            scroll_sensitivity: 1,
            mirror_mouse_buttons: false,
            allow_webbrowser: false,
            allow_clipboard: false,
            enable_tts: false,
        }
    }
}

// ---------------------------------------------------------------------------
// Frame output and what is done with it.
// ---------------------------------------------------------------------------

/// The mouse cursor that the GUI asks for.
#[derive(Debug, Clone, Copy, PartialEq, Eq, Structural)]
pub enum CursorIcon {
    Default,
    Hidden,
    ContextMenu,
    Help,
    PointingHand,
    Progress,
    Wait,
    Cell,
    Crosshair,
    Text,
    VerticalText,
    Alias,
    Copy,
    Move,
    NoDrop,
    NotAllowed,
    Grab,
    Grabbing,
    AllScroll,
    ResizeHorizontal,
    ResizeNeSw,
    ResizeNwSe,
    ResizeVertical,
    ZoomIn,
    ZoomOut,
}

/// A cursor shape of the window.
#[derive(Debug, Clone, Copy, PartialEq, Eq, Structural)]
pub enum WindowCursorIcon {
    Default,
    ContextMenu,
    Help,
    Hand,
    Progress,
    Wait,
    Cell,
    Crosshair,
    Text,
    VerticalText,
    Alias,
    Copy,
    Move,
    NoDrop,
    NotAllowed,
    Grab,
    Grabbing,
    AllScroll,
    EwResize,
    NeswResize,
    NwseResize,
    NsResize,
    ZoomIn,
    ZoomOut,
}

/// What to do with the window's cursor.
#[derive(Debug, Clone, Copy, PartialEq, Eq, Structural)]
pub enum CursorAction {
    /// Hide the cursor.
    Hide,
    /// Show the cursor with this shape.
    Show(WindowCursorIcon),
}

pub open spec fn cursor_action_of(icon: CursorIcon) -> CursorAction {
    match icon {
        CursorIcon::Default => CursorAction::Show(WindowCursorIcon::Default),
        CursorIcon::Hidden => CursorAction::Hide,
        CursorIcon::ContextMenu => CursorAction::Show(WindowCursorIcon::ContextMenu),
        CursorIcon::Help => CursorAction::Show(WindowCursorIcon::Help),
        CursorIcon::PointingHand => CursorAction::Show(WindowCursorIcon::Hand),
        CursorIcon::Progress => CursorAction::Show(WindowCursorIcon::Progress),
        CursorIcon::Wait => CursorAction::Show(WindowCursorIcon::Wait),
        CursorIcon::Cell => CursorAction::Show(WindowCursorIcon::Cell),
        CursorIcon::Crosshair => CursorAction::Show(WindowCursorIcon::Crosshair),
        CursorIcon::Text => CursorAction::Show(WindowCursorIcon::Text),
        CursorIcon::VerticalText => CursorAction::Show(WindowCursorIcon::VerticalText),
        CursorIcon::Alias => CursorAction::Show(WindowCursorIcon::Alias),
        CursorIcon::Copy => CursorAction::Show(WindowCursorIcon::Copy),
        CursorIcon::Move => CursorAction::Show(WindowCursorIcon::Move),
        CursorIcon::NoDrop => CursorAction::Show(WindowCursorIcon::NoDrop),
        CursorIcon::NotAllowed => CursorAction::Show(WindowCursorIcon::NotAllowed),
        CursorIcon::Grab => CursorAction::Show(WindowCursorIcon::Grab),
        CursorIcon::Grabbing => CursorAction::Show(WindowCursorIcon::Grabbing),
        CursorIcon::AllScroll => CursorAction::Show(WindowCursorIcon::AllScroll),
        CursorIcon::ResizeHorizontal => CursorAction::Show(WindowCursorIcon::EwResize),
        CursorIcon::ResizeNeSw => CursorAction::Show(WindowCursorIcon::NeswResize),
        CursorIcon::ResizeNwSe => CursorAction::Show(WindowCursorIcon::NwseResize),
        CursorIcon::ResizeVertical => CursorAction::Show(WindowCursorIcon::NsResize),
        CursorIcon::ZoomIn => CursorAction::Show(WindowCursorIcon::ZoomIn),
        CursorIcon::ZoomOut => CursorAction::Show(WindowCursorIcon::ZoomOut),
    }
}

/// What the window's cursor should become for the cursor the GUI asks for.
pub fn set_cursor(cursor_icon: CursorIcon) -> (r: CursorAction)
    ensures
        r == cursor_action_of(cursor_icon),
{
    let icon = match cursor_icon {
        CursorIcon::Default => WindowCursorIcon::Default,
        CursorIcon::Hidden => {
            return CursorAction::Hide;
        },
        CursorIcon::ContextMenu => WindowCursorIcon::ContextMenu,
        CursorIcon::Help => WindowCursorIcon::Help,
        CursorIcon::PointingHand => WindowCursorIcon::Hand,
        CursorIcon::Progress => WindowCursorIcon::Progress,
        CursorIcon::Wait => WindowCursorIcon::Wait,
        CursorIcon::Cell => WindowCursorIcon::Cell,
        CursorIcon::Crosshair => WindowCursorIcon::Crosshair,
        CursorIcon::Text => WindowCursorIcon::Text,
        CursorIcon::VerticalText => WindowCursorIcon::VerticalText,
        CursorIcon::Alias => WindowCursorIcon::Alias,
        CursorIcon::Copy => WindowCursorIcon::Copy,
        CursorIcon::Move => WindowCursorIcon::Move,
        CursorIcon::NoDrop => WindowCursorIcon::NoDrop,
        CursorIcon::NotAllowed => WindowCursorIcon::NotAllowed,
        CursorIcon::Grab => WindowCursorIcon::Grab,
        CursorIcon::Grabbing => WindowCursorIcon::Grabbing,
        CursorIcon::AllScroll => WindowCursorIcon::AllScroll,
        CursorIcon::ResizeHorizontal => WindowCursorIcon::EwResize,
        CursorIcon::ResizeNeSw => WindowCursorIcon::NeswResize,
        CursorIcon::ResizeNwSe => WindowCursorIcon::NwseResize,
        CursorIcon::ResizeVertical => WindowCursorIcon::NsResize,
        CursorIcon::ZoomIn => WindowCursorIcon::ZoomIn,
        CursorIcon::ZoomOut => WindowCursorIcon::ZoomOut,
    };
    CursorAction::Show(icon)
}

/// What the GUI produced in one frame, besides geometry.
#[derive(Debug)]
pub struct Output {
    pub cursor_icon: CursorIcon,
    /// A link the GUI asks to open.
    pub open_url: Option<String>,
    /// Text the GUI copied; empty when nothing was copied.
    pub copied_text: String,
    /// Descriptions of the widgets that were clicked, focused or changed.
    pub events: Vec<String>,
}

/// The side effects to apply to the window after a frame.
#[derive(Debug)]
pub struct OutputActions {
    pub cursor: CursorAction,
    pub open_url: Option<String>,
    pub copy_text: Option<String>,
    pub speak: Vec<String>,
}

/// `r` holds the side effects of a frame's output `o` under a configuration:
/// the cursor always; each optional capability only where it is enabled.
pub open spec fn actions_of(r: OutputActions, o: Output, config: EguiConfig) -> bool {
    &&& r.cursor == cursor_action_of(o.cursor_icon)
    &&& r.open_url == if config.allow_webbrowser {
        o.open_url
    } else {
        None
    }
    &&& r.copy_text == if config.allow_clipboard && o.copied_text@.len() > 0 {
        Some(o.copied_text)
    } else {
        None
    }
    &&& r.speak@ == if config.enable_tts {
        o.events@
    } else {
        Seq::<String>::empty()
    }
}

// ---------------------------------------------------------------------------
// The frame stage.
// ---------------------------------------------------------------------------

/// Where the GUI's frame stands: waiting for input, open for layout, or
/// closed with output not yet applied.
#[derive(Debug)]
pub enum EguiStage {
    Begin,
    Render,
    End(Output),
}

/// A frame-stage transition out of order.
#[derive(Debug, Clone, Copy, PartialEq, Eq, Structural)]
pub enum StageError {
    /// A frame was begun while one was open.
    AlreadyRendering,
    /// A frame was ended while none was open.
    NotRendering,
}

/// The stage after beginning a frame; none where a frame is open.
pub open spec fn after_begin(s: EguiStage) -> Option<EguiStage> {
    match s {
        EguiStage::Render => None,
        _ => Some(EguiStage::Render),
    }
}

/// The stage after ending a frame with output `o`; none where no frame is open.
pub open spec fn after_end(s: EguiStage, o: Output) -> Option<EguiStage> {
    match s {
        EguiStage::Render => Some(EguiStage::End(o)),
        _ => None,
    }
}

/// The output that a stage holds for dispatch.
pub open spec fn pending_output(s: EguiStage) -> Option<Output> {
    match s {
        EguiStage::End(o) => Some(o),
        _ => None,
    }
}

/// The stage after a number of ticks, each beginning a frame and ending it
/// with the next output; none if a transition is refused on the way.
pub open spec fn run_ticks(s: EguiStage, outputs: Seq<Output>) -> Option<EguiStage>
    decreases outputs.len(),
{
    if outputs.len() == 0 {
        Some(s)
    } else {
        match run_ticks(s, outputs.drop_last()) {
            Some(t) => match after_begin(t) {
                Some(u) => after_end(u, outputs.last()),
                None => None,
            },
            None => None,
        }
    }
}

/// From `Begin`, any number of ticks, each one beginning and then ending a
/// frame, all go through: each tick passes through `Render` once and `End`
/// once, and the stage then holds the last tick's output.
pub proof fn lemma_stage_cycle(outputs: Seq<Output>)
    ensures
        outputs.len() == 0 ==> run_ticks(EguiStage::Begin, outputs) == Some(EguiStage::Begin),
        outputs.len() > 0 ==> run_ticks(EguiStage::Begin, outputs) == Some(
            EguiStage::End(outputs.last()),
        ),
    decreases outputs.len(),
{
    if outputs.len() > 0 {
        lemma_stage_cycle(outputs.drop_last());
    }
}

/// Within a tick there is exactly one `Render` and one `End`: a frame cannot
/// be begun twice, nor ended twice.
pub proof fn lemma_stage_no_repeat(s: EguiStage, o: Output, p: Output)
    ensures
        after_begin(s) is Some ==> after_begin(after_begin(s).unwrap()) is None,
        after_end(s, o) is Some ==> after_end(after_end(s, o).unwrap(), p) is None,
{
}

// ---------------------------------------------------------------------------
// The shared context.
// ---------------------------------------------------------------------------

/// The GUI context `ctx`, the frame stage, and the textures registered by
/// users under numeric ids.
#[derive(Debug)]
pub struct EguiContext<C> {
    pub ctx: C,
    pub stage: EguiStage,
    pub user_textures: HashMap<u64, TextureHandle>,
}

impl<C> EguiContext<C> {
    /// A context at stage `Begin` with no user textures.
    pub fn new(ctx: C) -> (r: EguiContext<C>)
        ensures
            r.ctx == ctx,
            r.stage is Begin,
            r.user_textures@ == Map::<u64, TextureHandle>::empty(),
    {
        EguiContext { ctx, stage: EguiStage::Begin, user_textures: HashMap::new() }
    }

    /// The GUI context, for layout; only while a frame is open.
    pub fn ctx(&self) -> (r: Option<&C>)
        ensures
            r is Some <==> self.stage is Render,
            r is Some ==> *r.unwrap() == self.ctx,
    {
        if let EguiStage::Render = self.stage {
            Some(&self.ctx)
        } else {
            None
        }
    }

    /// Registers a user texture under `id`, replacing any earlier one.
    pub fn set_user_texture(&mut self, id: u64, handle: TextureHandle)
        ensures
            final(self).user_textures@ == old(self).user_textures@.insert(id, handle),
            final(self).stage == old(self).stage,
            final(self).ctx == old(self).ctx,
    {
        self.user_textures.insert(id, handle);
    }

    /// The handle registered under `id`.
    pub fn user_texture(&self, id: u64) -> (r: Option<TextureHandle>)
        ensures
            r == (if self.user_textures@.contains_key(id) {
                Some(self.user_textures@[id])
            } else {
                None
            }),
    {
        broadcast use vstd::std_specs::hash::group_hash_axioms;

        match self.user_textures.get(&id) {
            Some(h) => Some(*h),
            None => None,
        }
    }

    /// Opens a frame for layout, handing back the output of the frame
    /// before, if it has not been dispatched.
    pub fn begin_frame(&mut self) -> (r: Result<Option<Output>, StageError>)
        ensures
            r is Err <==> after_begin(old(self).stage) is None,
            r is Err ==> r == Err::<Option<Output>, StageError>(StageError::AlreadyRendering)
                && *final(self) == *old(self),
            r is Ok ==> Some(final(self).stage) == after_begin(old(self).stage) && r
                == Ok::<Option<Output>, StageError>(pending_output(old(self).stage))
                && final(self).ctx == old(self).ctx && final(self).user_textures
                == old(self).user_textures,
    {
        if let EguiStage::Render = self.stage {
            return Err(StageError::AlreadyRendering);
        }
        let mut st = EguiStage::Render;
        std::mem::swap(&mut self.stage, &mut st);
        match st {
            EguiStage::End(o) => Ok(Some(o)),
            _ => Ok(None),
        }
    }

    /// Closes the open frame, keeping its output for the next tick.
    pub fn end_frame(&mut self, output: Output) -> (r: Result<(), StageError>)
        ensures
            r is Err <==> after_end(old(self).stage, output) is None,
            r is Err ==> r == Err::<(), StageError>(StageError::NotRendering) && *final(self)
                == *old(self),
            r is Ok ==> Some(final(self).stage) == after_end(old(self).stage, output)
                && final(self).ctx == old(self).ctx && final(self).user_textures
                == old(self).user_textures,
    {
        if let EguiStage::Render = self.stage {
            self.stage = EguiStage::End(output);
            Ok(())
        } else {
            Err(StageError::NotRendering)
        }
    }
}

// ---------------------------------------------------------------------------
// The input system.
// ---------------------------------------------------------------------------

/// What the input system keeps from one tick to the next.
#[derive(Debug)]
pub struct EguiSystem {
    pub current_mouse_pos: Pos2,
    pub current_modifiers: Modifiers,
}

/// The translation state of an input being filled by a system.
pub open spec fn state_of(input: RawInput, sys: EguiSystem) -> TranslateState {
    TranslateState {
        events: input.events@,
        modifiers: input.modifiers,
        held_modifiers: sys.current_modifiers,
        pos: sys.current_mouse_pos,
        scroll: input.scroll_delta,
    }
}

/// The translation state at the start of a tick: no events, no scrolling,
/// and what the system kept from the tick before.
pub open spec fn fresh_state(sys: EguiSystem) -> TranslateState {
    TranslateState {
        events: Seq::empty(),
        modifiers: sys.current_modifiers,
        held_modifiers: sys.current_modifiers,
        pos: sys.current_mouse_pos,
        scroll: Vec2 { x: 0, y: 0 },
    }
}

/// What a tick hands on: the input for the frame that opens, and the side
/// effects of the frame before, if it left output.
#[derive(Debug)]
pub struct Tick {
    pub input: RawInput,
    pub actions: Option<OutputActions>,
}

impl EguiSystem {
    /// A system with the pointer at the origin and no modifiers held.
    pub fn new() -> (r: EguiSystem)
        ensures
            r.current_mouse_pos == (Pos2 { x: 0, y: 0 }),
            r.current_modifiers == no_modifiers(),
    {
        EguiSystem { current_mouse_pos: Pos2 { x: 0, y: 0 }, current_modifiers: Modifiers::none() }
    }

    /// Translates the window events, in order, into `egui_input`.
    pub fn handle_window_events(
        &mut self,
        egui_input: &mut RawInput,
        window_events: &Vec<WindowEvent>,
        config: &EguiConfig,
    )
        ensures
            state_of(*final(egui_input), *final(self)) == translate(
                state_of(*old(egui_input), *old(self)),
                window_events@,
                config.mirror_mouse_buttons,
            ),
            final(egui_input).screen_width == old(egui_input).screen_width,
            final(egui_input).screen_height == old(egui_input).screen_height,
            final(egui_input).time_nanos == old(egui_input).time_nanos,
            final(egui_input).predicted_dt_nanos == old(egui_input).predicted_dt_nanos,
    {
        let ghost s0 = state_of(*egui_input, *self);
        let mirror = config.mirror_mouse_buttons;
        let mut i: usize = 0;
        while i < window_events.len()
            invariant
                i <= window_events@.len(),
                mirror == config.mirror_mouse_buttons,
                state_of(*egui_input, *self) == translate(
                    s0,
                    window_events@.subrange(0, i as int),
                    mirror,
                ),
                egui_input.screen_width == old(egui_input).screen_width,
                egui_input.screen_height == old(egui_input).screen_height,
                egui_input.time_nanos == old(egui_input).time_nanos,
                egui_input.predicted_dt_nanos == old(egui_input).predicted_dt_nanos,
            decreases window_events@.len() - i,
        {
            let ghost before = state_of(*egui_input, *self);
            let event = &window_events[i];
            match event {
                WindowEvent::KeyboardInput { input } => {
                    egui_input.key(input);
                },
                WindowEvent::ModifiersChanged(modifiers) => {
                    egui_input.modifiers(modifiers, &mut self.current_modifiers);
                    self.current_modifiers = egui_input.modifiers;
                },
                WindowEvent::ReceivedCharacter(chr) => {
                    egui_input.key_char(*chr);
                },
                WindowEvent::CursorMoved { position } => {
                    egui_input.mouse_moved(position, &mut self.current_mouse_pos);
                },
                WindowEvent::MouseInput { state, button } => {
                    egui_input.mouse_button(*state, *button, &self.current_mouse_pos, mirror);
                },
                WindowEvent::CursorLeft => {
                    egui_input.mouse_left();
                },
                WindowEvent::MouseWheel { delta } => {
                    egui_input.mouse_wheel(delta);
                },
                WindowEvent::ScaleFactorChanged => {},
                WindowEvent::Other => {},
            }
            proof {
                let pre = window_events@.subrange(0, i + 1);
                assert(pre.drop_last() =~= window_events@.subrange(0, i as int));
                assert(pre.last() == window_events@[i as int]);
                assert(state_of(*egui_input, *self) == step(before, window_events@[i as int], mirror));
            }
            i = i + 1;
        }
        proof {
            assert(window_events@.subrange(0, i as int) =~= window_events@);
        }
    }

    /// Dispatches the output of a finished frame: what to do with the
    /// cursor, and with the links, copied text and descriptions where the
    /// configuration allows.
    pub fn handle_output(&self, egui_output: Output, config: &EguiConfig) -> (r: OutputActions)
        ensures
            actions_of(r, egui_output, *config),
    {
        let cursor = set_cursor(egui_output.cursor_icon);
        let open_url = if config.allow_webbrowser {
            egui_output.open_url
        } else {
            None
        };
        let copy_text = if config.allow_clipboard && !egui_output.copied_text.as_str().is_empty() {
            Some(egui_output.copied_text)
        } else {
            None
        };
        let speak = if config.enable_tts {
            egui_output.events
        } else {
            Vec::new()
        };
        OutputActions { cursor, open_url, copy_text, speak }
    }

    /// One tick of the input system. Refused, with nothing changed, while a
    /// frame is open. Otherwise: the output of the frame before is
    /// dispatched, `input_grab` takes the GUI's wishes `wants` from the
    /// frame before, the window events are translated into a fresh input
    /// that starts from the modifiers held, and a frame is opened.
    pub fn run<C>(
        &mut self,
        egui_ctx: &mut EguiContext<C>,
        input_grab: &mut EguiInputGrab,
        wants: EguiInputGrab,
        window_events: &Vec<WindowEvent>,
        config: &EguiConfig,
        screen_width: u32,
        screen_height: u32,
        time_nanos: u64,
        predicted_dt_nanos: u64,
    ) -> (r: Result<Tick, StageError>)
        ensures
            r is Err <==> old(egui_ctx).stage is Render,
            r is Err ==> r == Err::<Tick, StageError>(StageError::AlreadyRendering),
            r is Err ==> *final(egui_ctx) == *old(egui_ctx),
            r is Err ==> *final(input_grab) == *old(input_grab) && *final(self) == *old(self),
            r is Ok ==> {
                let t = r.unwrap();
                let start = fresh_state(*old(self));
                &&& final(egui_ctx).stage is Render
                &&& final(egui_ctx).ctx == old(egui_ctx).ctx
                &&& final(egui_ctx).user_textures == old(egui_ctx).user_textures
                &&& *final(input_grab) == wants
                &&& (t.actions is Some <==> pending_output(old(egui_ctx).stage) is Some)
                &&& (t.actions is Some ==> actions_of(
                    t.actions.unwrap(),
                    pending_output(old(egui_ctx).stage).unwrap(),
                    *config,
                ))
                &&& state_of(t.input, *final(self)) == translate(
                    start,
                    window_events@,
                    config.mirror_mouse_buttons,
                )
                &&& t.input.screen_width == screen_width
                &&& t.input.screen_height == screen_height
                &&& t.input.time_nanos == time_nanos
                &&& t.input.predicted_dt_nanos == predicted_dt_nanos
            },
    {
        let pending = match egui_ctx.begin_frame() {
            Ok(p) => p,
            Err(e) => {
                return Err(e);
            },
        };
        let actions = match pending {
            Some(o) => Some(self.handle_output(o, config)),
            None => None,
        };
        *input_grab = wants;
        let mut egui_input = RawInput::new(screen_width, screen_height, time_nanos, predicted_dt_nanos);
        egui_input.modifiers = self.current_modifiers;
        proof {
            assert(egui_input.events@ =~= Seq::<Event>::empty());
            assert(state_of(egui_input, *self) == fresh_state(*self));
        }
        self.handle_window_events(&mut egui_input, window_events, config);
        Ok(Tick { input: egui_input, actions })
    }
}

} // verus!
