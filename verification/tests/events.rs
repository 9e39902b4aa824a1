use plug_gui::events::{
    translate_event, translate_keyboard_event, translate_mouse_button, translate_mouse_event,
    BlitzPointerEvent, BlitzPointerId, BlitzWheelDelta, Event, MouseButton, MouseEvent, MouseEventButton,
    MouseEventButtons, ScrollDelta, UiEvent, WindowEvent, WindowInfo,
};
use plug_gui::keyboard::{BlitzKeyState, Key, KeyState, KeyboardEvent, Location};
use plug_gui::scalar::{Scalar, Vec2};
use plug_gui::size::PixelSize;

fn num(n: f32) -> Scalar {
    Scalar { bits: n.to_bits() }
}

fn vec(x: f32, y: f32) -> Vec2 {
    Vec2 { x: num(x), y: num(y) }
}

struct Input {
    pos: Vec2,
    buttons: MouseEventButtons,
    modifiers: u32,
}

impl Input {
    fn new() -> Self {
        Input { pos: vec(0.0, 0.0), buttons: MouseEventButtons::empty(), modifiers: 0 }
    }

    fn send(&mut self, event: Event) -> Option<UiEvent> {
        translate_event(
            &event,
            &mut self.pos,
            &mut self.buttons,
            &mut self.modifiers,
            vec(799.0, 599.0),
        )
    }

    fn moved(&mut self, x: f32, y: f32) -> BlitzPointerEvent {
        match self.send(Event::Mouse(MouseEvent::CursorMoved { position: vec(x, y), modifiers: 0 })) {
            Some(UiEvent::PointerMove(e)) => e,
            _ => panic!("no pointer move"),
        }
    }

    fn press(&mut self, button: MouseButton) -> BlitzPointerEvent {
        match self.send(Event::Mouse(MouseEvent::ButtonPressed { button, modifiers: 0 })) {
            Some(UiEvent::PointerDown(e)) => e,
            _ => panic!("no pointer down"),
        }
    }

    fn release(&mut self, button: MouseButton) -> BlitzPointerEvent {
        match self.send(Event::Mouse(MouseEvent::ButtonReleased { button, modifiers: 0 })) {
            Some(UiEvent::PointerUp(e)) => e,
            _ => panic!("no pointer up"),
        }
    }
}

fn key_event(state: KeyState, key: Key, code: &str) -> KeyboardEvent {
    KeyboardEvent {
        state,
        key,
        code: code.to_string(),
        location: 1,
        modifiers: 4,
        repeat: true,
        is_composing: false,
    }
}

#[test]
fn a_free_pointer_may_leave_the_window() {
    let mut input = Input::new();
    let event = input.moved(-20.0, 1000.0);
    assert_eq!(event.coords.client_x, num(-20.0));
    assert_eq!(event.coords.client_y, num(1000.0));
    assert_eq!(input.pos, vec(-20.0, 1000.0));
    assert_eq!(event.button, MouseEventButton::Main);
    assert!(event.is_primary);
    assert_eq!(event.id, BlitzPointerId::Mouse);
    assert_eq!(event.element, vec(0.0, 0.0));
    assert_eq!((event.details.pressure, event.details.altitude, event.details.azimuth), (0, 0, 0));
    assert_eq!((event.details.tilt_x, event.details.tilt_y, event.details.twist), (0, 0, 0));
    assert_eq!(event.details.tangential_pressure, num(0.0));
}

#[test]
fn a_drag_is_clamped_to_the_window() {
    let mut input = Input::new();
    input.moved(400.0, 300.0);
    input.press(MouseButton::Left);
    let event = input.moved(-20.0, 1000.0);
    assert_eq!(event.coords.client_x, num(0.0));
    assert_eq!(event.coords.client_y, num(599.0));
    let event = input.moved(12.5, 30.25);
    assert_eq!(event.coords.client_x, num(12.5));
    assert_eq!(event.coords.client_y, num(30.25));
    let event = input.moved(800.0, -0.5);
    assert_eq!(event.coords.client_x, num(799.0));
    assert_eq!(event.coords.client_y, num(0.0));
}

#[test]
fn all_coordinates_agree() {
    let mut input = Input::new();
    let coords = input.moved(3.0, 4.0).coords;
    assert_eq!((coords.page_x, coords.page_y), (num(3.0), num(4.0)));
    assert_eq!((coords.screen_x, coords.screen_y), (num(3.0), num(4.0)));
    assert_eq!((coords.client_x, coords.client_y), (num(3.0), num(4.0)));
}

#[test]
fn buttons_are_tracked() {
    let mut input = Input::new();
    input.moved(5.0, 6.0);
    let down = input.press(MouseButton::Right);
    assert_eq!(down.button, MouseEventButton::Secondary);
    assert_eq!(down.buttons.bits, 2);
    assert_eq!(down.coords.client_x, num(5.0));
    let down = input.press(MouseButton::Forward);
    assert_eq!(down.button, MouseEventButton::Fifth);
    assert_eq!(down.buttons.bits, 18);
    let up = input.release(MouseButton::Right);
    assert_eq!(up.button, MouseEventButton::Secondary);
    assert_eq!(up.buttons.bits, 16);
    let up = input.release(MouseButton::Forward);
    assert_eq!(up.buttons.bits, 0);
    assert!(input.buttons.is_empty());
}

#[test]
fn releasing_a_button_that_is_not_held_changes_nothing() {
    let mut input = Input::new();
    input.press(MouseButton::Left);
    input.release(MouseButton::Middle);
    assert_eq!(input.buttons.bits, 1);
}

#[test]
fn every_button_has_its_bit() {
    let bits: Vec<u8> = [
        MouseButton::Left,
        MouseButton::Right,
        MouseButton::Middle,
        MouseButton::Back,
        MouseButton::Forward,
        MouseButton::Other(9),
    ]
    .iter()
    .map(|button| Input::new().press(*button).buttons.bits)
    .collect();
    assert_eq!(bits, vec![1, 2, 4, 8, 16, 1]);
}

#[test]
fn window_buttons_map_to_document_buttons() {
    assert_eq!(translate_mouse_button(MouseButton::Left), MouseEventButton::Main);
    assert_eq!(translate_mouse_button(MouseButton::Right), MouseEventButton::Secondary);
    assert_eq!(translate_mouse_button(MouseButton::Middle), MouseEventButton::Auxiliary);
    assert_eq!(translate_mouse_button(MouseButton::Back), MouseEventButton::Fourth);
    assert_eq!(translate_mouse_button(MouseButton::Forward), MouseEventButton::Fifth);
    assert_eq!(translate_mouse_button(MouseButton::Other(3)), MouseEventButton::Main);
}

#[test]
fn scrolling_keeps_its_unit() {
    let mut input = Input::new();
    input.moved(1.0, 2.0);
    let delta = ScrollDelta::Lines { x: num(0.0), y: num(-3.0) };
    match input.send(Event::Mouse(MouseEvent::WheelScrolled { delta, modifiers: 0xffff_ffff })) {
        Some(UiEvent::Wheel(e)) => {
            assert_eq!(e.delta, BlitzWheelDelta::Lines(num(0.0), num(-3.0)));
            assert_eq!(e.coords.page_y, num(2.0));
            assert_eq!(e.mods, 0x3fff);
            assert_eq!(e.buttons.bits, 0);
        }
        _ => panic!("no wheel event"),
    }
    let delta = ScrollDelta::Pixels { x: num(1.5), y: num(8.0) };
    match input.send(Event::Mouse(MouseEvent::WheelScrolled { delta, modifiers: 0 })) {
        Some(UiEvent::Wheel(e)) => {
            assert_eq!(e.delta, BlitzWheelDelta::Pixels(num(1.5), num(8.0)))
        }
        _ => panic!("no wheel event"),
    }
}

#[test]
fn keys_go_down_and_up() {
    let mut input = Input::new();
    let event = key_event(KeyState::Down, Key::Character("a".to_string()), "KeyA");
    match input.send(Event::Keyboard(event)) {
        Some(UiEvent::KeyDown(e)) => {
            assert!(matches!(e.key, Key::Character(ref text) if text == "a"));
            assert_eq!(e.code, "KeyA");
            assert_eq!(e.text.as_deref(), Some("a"));
            assert_eq!(e.state, BlitzKeyState::Pressed);
            assert_eq!(e.location, Location::Left);
            assert_eq!(e.modifiers, 4);
            assert!(e.is_auto_repeating);
            assert!(!e.is_composing);
        }
        _ => panic!("no key down"),
    }
    assert_eq!(input.modifiers, 4);
    let event = key_event(KeyState::Up, Key::Named("Enter".to_string()), "Enter");
    match translate_keyboard_event(&event) {
        Some(UiEvent::KeyUp(e)) => {
            assert!(matches!(e.key, Key::Named(ref name) if name == "Enter"));
            assert_eq!(e.text, None);
            assert_eq!(e.state, BlitzKeyState::Released);
        }
        _ => panic!("no key up"),
    }
}

#[test]
fn mouse_events_do_not_track_modifiers() {
    let mut input = Input::new();
    input.modifiers = 8;
    let event = MouseEvent::CursorMoved { position: vec(1.0, 1.0), modifiers: 1 };
    match input.send(Event::Mouse(event)) {
        Some(UiEvent::PointerMove(e)) => assert_eq!(e.mods, 1),
        _ => panic!("no pointer move"),
    }
    assert_eq!(input.modifiers, 8);
}

#[test]
fn other_events_tell_the_document_nothing() {
    let size = PixelSize { width: 10, height: 10 };
    let info = WindowInfo { physical: size, logical: size, scale_factor: num(1.0) };
    let mut input = Input::new();
    input.moved(9.0, 9.0);
    for event in [
        Event::Window(WindowEvent::Focused),
        Event::Window(WindowEvent::Unfocused),
        Event::Window(WindowEvent::Resized(info)),
        Event::Window(WindowEvent::WillClose),
        Event::Mouse(MouseEvent::CursorEntered),
        Event::Mouse(MouseEvent::CursorLeft),
        Event::Mouse(MouseEvent::DragEntered),
        Event::Mouse(MouseEvent::DragMoved),
        Event::Mouse(MouseEvent::DragLeft),
        Event::Mouse(MouseEvent::DragDropped),
    ] {
        assert!(input.send(event).is_none());
        assert_eq!(input.pos, vec(9.0, 9.0));
        assert_eq!(input.buttons.bits, 0);
        assert_eq!(input.modifiers, 0);
    }
}

#[test]
fn a_viewport_of_one_pixel_holds_a_drag() {
    let mut pos = vec(0.0, 0.0);
    let mut buttons = MouseEventButtons { bits: 1 };
    let event = MouseEvent::CursorMoved { position: vec(50.0, -50.0), modifiers: 0 };
    translate_mouse_event(&event, &mut pos, &mut buttons, vec(0.0, 0.0));
    assert_eq!(pos, vec(0.0, 0.0));
}
