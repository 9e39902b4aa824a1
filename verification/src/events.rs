//! Input events: what the window reports, and what the document is told of it.

use vstd::prelude::*;

use crate::keyboard::{
    convert_key_event, convert_modifiers, converted_key_event, converted_modifiers, BlitzKeyEvent,
    BlitzKeyEventView, KeyState, KeyboardEvent,
};
use crate::scalar::{Scalar, Vec2, ZERO};
use crate::size::PixelSize;

verus! {

/// A mouse button as the window reports it.
#[derive(Clone, Copy, Debug, PartialEq, Eq, Structural)]
pub enum MouseButton {
    Left,
    Middle,
    Right,
    Back,
    Forward,
    Other(u8),
}

/// A mouse button as the document takes it.
#[derive(Clone, Copy, Debug, PartialEq, Eq, Structural)]
pub enum MouseEventButton {
    Main,
    Auxiliary,
    Secondary,
    Fourth,
    Fifth,
}

/// The mouse buttons that are held, one bit for each.
#[derive(Clone, Copy, Debug, PartialEq, Eq, Structural)]
pub struct MouseEventButtons {
    pub bits: u8,
}

/// The bits of all mouse buttons.
pub const ALL_BUTTONS: u8 = 0x1f;

/// How far the wheel was scrolled.
#[derive(Clone, Copy, Debug, PartialEq, Eq, Structural)]
pub enum ScrollDelta {
    Lines { x: Scalar, y: Scalar },
    Pixels { x: Scalar, y: Scalar },
}

/// How far the wheel was scrolled, as the document takes it.
#[derive(Clone, Copy, Debug, PartialEq, Eq, Structural)]
pub enum BlitzWheelDelta {
    Lines(Scalar, Scalar),
    Pixels(Scalar, Scalar),
}

/// What the mouse did. Modifiers are given by their bits.
#[derive(Clone, Copy, Debug, PartialEq, Eq, Structural)]
pub enum MouseEvent {
    CursorMoved { position: Vec2, modifiers: u32 },
    ButtonPressed { button: MouseButton, modifiers: u32 },
    ButtonReleased { button: MouseButton, modifiers: u32 },
    WheelScrolled { delta: ScrollDelta, modifiers: u32 },
    CursorEntered,
    CursorLeft,
    DragEntered,
    DragMoved,
    DragLeft,
    DragDropped,
}

/// The size of a window after it was resized.
#[derive(Clone, Copy, Debug, PartialEq, Eq, Structural)]
pub struct WindowInfo {
    /// In physical pixels.
    pub physical: PixelSize,
    /// In logical pixels, without the fraction.
    pub logical: PixelSize,
    pub scale_factor: Scalar,
}

/// What happened to the window.
#[derive(Clone, Copy, Debug, PartialEq, Eq, Structural)]
pub enum WindowEvent {
    Focused,
    Unfocused,
    Resized(WindowInfo),
    WillClose,
}

/// What the window reports.
pub enum Event {
    Mouse(MouseEvent),
    Keyboard(KeyboardEvent),
    Window(WindowEvent),
}

/// Where the pointer is, relative to the page, the screen and the viewport.
#[derive(Clone, Copy, Debug, PartialEq, Eq, Structural)]
pub struct PointerCoords {
    pub page_x: Scalar,
    pub page_y: Scalar,
    pub screen_x: Scalar,
    pub screen_y: Scalar,
    pub client_x: Scalar,
    pub client_y: Scalar,
}

/// Which pointer an event is about.
#[derive(Clone, Copy, Debug, PartialEq, Eq, Structural)]
pub enum BlitzPointerId {
    Mouse,
    Pen,
    Finger(u64),
}

/// How a pointer is held. Numbers in double precision are given by their bits.
#[derive(Clone, Copy, Debug, PartialEq, Eq, Structural)]
pub struct PointerDetails {
    pub pressure: u64,
    pub tangential_pressure: Scalar,
    pub tilt_x: i8,
    pub tilt_y: i8,
    pub twist: u16,
    pub altitude: u64,
    pub azimuth: u64,
}

/// A pointer event.
#[derive(Clone, Copy, Debug, PartialEq, Eq, Structural)]
pub struct BlitzPointerEvent {
    pub id: BlitzPointerId,
    pub is_primary: bool,
    pub coords: PointerCoords,
    pub button: MouseEventButton,
    pub buttons: MouseEventButtons,
    pub mods: u32,
    pub details: PointerDetails,
    /// Where the pointer is in the element under it. The document finds it out.
    pub element: Vec2,
}

/// A wheel event.
#[derive(Clone, Copy, Debug, PartialEq, Eq, Structural)]
pub struct BlitzWheelEvent {
    pub delta: BlitzWheelDelta,
    pub coords: PointerCoords,
    pub buttons: MouseEventButtons,
    pub mods: u32,
    /// Where the pointer is in the element under it. The document finds it out.
    pub element: Vec2,
}

/// An event as the document takes it.
pub enum UiEvent {
    PointerMove(BlitzPointerEvent),
    PointerUp(BlitzPointerEvent),
    PointerDown(BlitzPointerEvent),
    Wheel(BlitzWheelEvent),
    KeyUp(BlitzKeyEvent),
    KeyDown(BlitzKeyEvent),
}

/// The contents of a [`UiEvent`].
pub enum UiEventView {
    PointerMove(BlitzPointerEvent),
    PointerUp(BlitzPointerEvent),
    PointerDown(BlitzPointerEvent),
    Wheel(BlitzWheelEvent),
    KeyUp(BlitzKeyEventView),
    KeyDown(BlitzKeyEventView),
}

impl View for UiEvent {
    type V = UiEventView;

    open spec fn view(&self) -> UiEventView {
        match self {
            UiEvent::PointerMove(e) => UiEventView::PointerMove(*e),
            UiEvent::PointerUp(e) => UiEventView::PointerUp(*e),
            UiEvent::PointerDown(e) => UiEventView::PointerDown(*e),
            UiEvent::Wheel(e) => UiEventView::Wheel(*e),
            UiEvent::KeyUp(e) => UiEventView::KeyUp(e@),
            UiEvent::KeyDown(e) => UiEventView::KeyDown(e@),
        }
    }
}

/// The contents of an optional event.
pub open spec fn ui_event_view(event: Option<UiEvent>) -> Option<UiEventView> {
    match event {
        Some(e) => Some(e@),
        None => None,
    }
}

/// The document's button for a window's button.
pub open spec fn translated_button(button: MouseButton) -> MouseEventButton {
    match button {
        MouseButton::Left => MouseEventButton::Main,
        MouseButton::Right => MouseEventButton::Secondary,
        MouseButton::Middle => MouseEventButton::Auxiliary,
        MouseButton::Back => MouseEventButton::Fourth,
        MouseButton::Forward => MouseEventButton::Fifth,
        MouseButton::Other(_) => MouseEventButton::Main,
    }
}

/// The bit of a button.
pub open spec fn button_flag(button: MouseEventButton) -> u8 {
    match button {
        MouseEventButton::Main => 1,
        MouseEventButton::Secondary => 2,
        MouseEventButton::Auxiliary => 4,
        MouseEventButton::Fourth => 8,
        MouseEventButton::Fifth => 16,
    }
}

/// The bit of a button, by `<blitz_traits::events::MouseEventButtons as From>::from` and its
/// `bits`: 1 for the main button, then 2, 4, 8 and 16 for the secondary, auxiliary, fourth and
/// fifth.
#[verifier::external_body]
fn button_bits(button: MouseEventButton) -> (r: u8)
    ensures
        r == button_flag(button),
{
    let button = match button {
        MouseEventButton::Main => blitz_traits::events::MouseEventButton::Main,
        MouseEventButton::Auxiliary => blitz_traits::events::MouseEventButton::Auxiliary,
        MouseEventButton::Secondary => blitz_traits::events::MouseEventButton::Secondary,
        MouseEventButton::Fourth => blitz_traits::events::MouseEventButton::Fourth,
        MouseEventButton::Fifth => blitz_traits::events::MouseEventButton::Fifth,
    };
    blitz_traits::events::MouseEventButtons::from(button).bits()
}

impl MouseEventButtons {
    /// Only the bits of buttons are set.
    pub open spec fn wf(self) -> bool {
        self.bits <= ALL_BUTTONS
    }

    /// Whether a button is held.
    pub open spec fn holds(self, button: MouseEventButton) -> bool {
        self.bits & button_flag(button) != 0
    }

    /// These buttons and `button`.
    pub open spec fn with(self, button: MouseEventButton) -> MouseEventButtons {
        MouseEventButtons { bits: self.bits | button_flag(button) }
    }

    /// These buttons without `button`.
    pub open spec fn without(self, button: MouseEventButton) -> MouseEventButtons {
        MouseEventButtons { bits: self.bits & (!button_flag(button) & ALL_BUTTONS) }
    }

    /// No buttons.
    pub fn empty() -> (r: MouseEventButtons)
        ensures
            r.bits == 0,
            r.wf(),
    {
        MouseEventButtons { bits: 0 }
    }

    /// Whether no button is held.
    pub fn is_empty(self) -> (r: bool)
        ensures
            r == (self.bits == 0),
    {
        self.bits == 0
    }

    /// Adds a button.
    pub fn insert(&mut self, button: MouseEventButton)
        ensures
            *final(self) == old(self).with(button),
    {
        self.bits = self.bits | button_bits(button);
    }

    /// Takes a button out.
    pub fn remove(&mut self, button: MouseEventButton)
        ensures
            *final(self) == old(self).without(button),
    {
        self.bits = self.bits & (!button_bits(button) & ALL_BUTTONS);
    }
}

/// The last position inside a viewport: neither side is negative or a NaN.
pub open spec fn valid_limits(limits: Vec2) -> bool {
    let zero = Scalar { bits: ZERO };
    zero.within(zero, limits.x) && zero.within(zero, limits.y)
}

/// Where a pointer that moved to `position` is taken to be: while a button is held it does not
/// leave `0..=limits`.
pub open spec fn confined(position: Vec2, buttons: MouseEventButtons, limits: Vec2) -> Vec2 {
    if buttons.bits == 0 {
        position
    } else {
        let zero = Scalar { bits: ZERO };
        Vec2 { x: position.x.clamped(zero, limits.x), y: position.y.clamped(zero, limits.y) }
    }
}

/// The window does not tell page, screen and viewport apart: all three hold the same pair.
pub open spec fn coords_at(position: Vec2) -> PointerCoords {
    PointerCoords {
        page_x: position.x,
        page_y: position.y,
        screen_x: position.x,
        screen_y: position.y,
        client_x: position.x,
        client_y: position.y,
    }
}

/// The same distances in the same unit.
pub open spec fn wheel_delta(delta: ScrollDelta) -> BlitzWheelDelta {
    match delta {
        ScrollDelta::Lines { x, y } => BlitzWheelDelta::Lines(x, y),
        ScrollDelta::Pixels { x, y } => BlitzWheelDelta::Pixels(x, y),
    }
}

/// Where the pointer is after an event: only a move changes it.
pub open spec fn position_after(
    event: Event,
    position: Vec2,
    buttons: MouseEventButtons,
    limits: Vec2,
) -> Vec2 {
    match event {
        Event::Mouse(MouseEvent::CursorMoved { position: to, .. }) => confined(to, buttons, limits),
        _ => position,
    }
}

/// The buttons that are held after an event: only a press and a release change them.
pub open spec fn buttons_after(event: Event, buttons: MouseEventButtons) -> MouseEventButtons {
    match event {
        Event::Mouse(MouseEvent::ButtonPressed { button, .. }) => buttons.with(
            translated_button(button),
        ),
        Event::Mouse(MouseEvent::ButtonReleased { button, .. }) => buttons.without(
            translated_button(button),
        ),
        _ => buttons,
    }
}

/// The modifiers that are tracked after an event: those of the last key event.
pub open spec fn modifiers_after(event: Event, modifiers: u32) -> u32 {
    match event {
        Event::Keyboard(key_event) => key_event.modifiers,
        _ => modifiers,
    }
}

/// The details of a mouse: nothing is known of how it is held.
pub open spec fn mouse_details() -> PointerDetails {
    PointerDetails {
        pressure: 0,
        tangential_pressure: Scalar { bits: ZERO },
        tilt_x: 0,
        tilt_y: 0,
        twist: 0,
        altitude: 0,
        azimuth: 0,
    }
}

/// The point at zero.
pub open spec fn origin() -> Vec2 {
    Vec2 { x: Scalar { bits: ZERO }, y: Scalar { bits: ZERO } }
}

/// A mouse event's pointer event.
pub open spec fn pointer_event(
    position: Vec2,
    button: MouseEventButton,
    buttons: MouseEventButtons,
    modifiers: u32,
) -> BlitzPointerEvent {
    BlitzPointerEvent {
        id: BlitzPointerId::Mouse,
        is_primary: true,
        coords: coords_at(position),
        button,
        buttons,
        mods: converted_modifiers(modifiers),
        details: mouse_details(),
        element: origin(),
    }
}

/// What the document is told of an event, given the position and the buttons before it. Pointer
/// events carry the position and the buttons after it.
pub open spec fn translated(
    event: Event,
    position: Vec2,
    buttons: MouseEventButtons,
    limits: Vec2,
) -> Option<UiEventView> {
    let at = position_after(event, position, buttons, limits);
    let held = buttons_after(event, buttons);
    match event {
        Event::Mouse(MouseEvent::CursorMoved { modifiers, .. }) => Some(
            UiEventView::PointerMove(pointer_event(at, MouseEventButton::Main, held, modifiers)),
        ),
        Event::Mouse(MouseEvent::ButtonPressed { button, modifiers }) => Some(
            UiEventView::PointerDown(pointer_event(at, translated_button(button), held, modifiers)),
        ),
        Event::Mouse(MouseEvent::ButtonReleased { button, modifiers }) => Some(
            UiEventView::PointerUp(pointer_event(at, translated_button(button), held, modifiers)),
        ),
        Event::Mouse(MouseEvent::WheelScrolled { delta, modifiers }) => Some(
            UiEventView::Wheel(
                BlitzWheelEvent {
                    delta: wheel_delta(delta),
                    coords: coords_at(at),
                    buttons: held,
                    mods: converted_modifiers(modifiers),
                    element: origin(),
                },
            ),
        ),
        Event::Keyboard(key_event) => match key_event.state {
            KeyState::Down => Some(UiEventView::KeyDown(converted_key_event(key_event))),
            KeyState::Up => Some(UiEventView::KeyUp(converted_key_event(key_event))),
        },
        _ => None,
    }
}

/// Translates a window event to the document's event, and keeps track of the pointer, the buttons
/// and the modifiers.
///
/// `limits` is the last position inside the viewport, in physical pixels. While a mouse button is
/// held (a drag is in progress), coordinates are clamped to the viewport, so that hit testing
/// still finds the element that is dragged over even when the cursor is outside the window.
pub fn translate_event(
    event: &Event,
    mouse_pos: &mut Vec2,
    mouse_buttons: &mut MouseEventButtons,
    modifiers: &mut u32,
    limits: Vec2,
) -> (r: Option<UiEvent>)
    requires
        valid_limits(limits),
    ensures
        ui_event_view(r) == translated(*event, *old(mouse_pos), *old(mouse_buttons), limits),
        *final(mouse_pos) == position_after(*event, *old(mouse_pos), *old(mouse_buttons), limits),
        *final(mouse_buttons) == buttons_after(*event, *old(mouse_buttons)),
        *final(modifiers) == modifiers_after(*event, *old(modifiers)),
{
    match event {
        Event::Mouse(mouse_event) => translate_mouse_event(
            mouse_event,
            mouse_pos,
            mouse_buttons,
            limits,
        ),
        Event::Keyboard(keyboard_event) => {
            *modifiers = keyboard_event.modifiers;
            translate_keyboard_event(keyboard_event)
        },
        Event::Window(_) => None,
    }
}

/// Translates what the mouse did.
pub fn translate_mouse_event(
    event: &MouseEvent,
    mouse_pos: &mut Vec2,
    mouse_buttons: &mut MouseEventButtons,
    limits: Vec2,
) -> (r: Option<UiEvent>)
    requires
        valid_limits(limits),
    ensures
        ui_event_view(r) == translated(
            Event::Mouse(*event),
            *old(mouse_pos),
            *old(mouse_buttons),
            limits,
        ),
        *final(mouse_pos) == position_after(
            Event::Mouse(*event),
            *old(mouse_pos),
            *old(mouse_buttons),
            limits,
        ),
        *final(mouse_buttons) == buttons_after(Event::Mouse(*event), *old(mouse_buttons)),
{
    match event {
        MouseEvent::CursorMoved { position, modifiers } => {
            *mouse_pos = confine(*position, *mouse_buttons, limits);
            Some(
                UiEvent::PointerMove(
                    mouse_pointer_event(*mouse_pos, MouseEventButton::Main, *mouse_buttons, *modifiers),
                ),
            )
        },
        MouseEvent::ButtonPressed { button, modifiers } => {
            let button: MouseEventButton = translate_mouse_button(*button);
            mouse_buttons.insert(button);
            Some(
                UiEvent::PointerDown(
                    mouse_pointer_event(*mouse_pos, button, *mouse_buttons, *modifiers),
                ),
            )
        },
        MouseEvent::ButtonReleased { button, modifiers } => {
            let button: MouseEventButton = translate_mouse_button(*button);
            mouse_buttons.remove(button);
            Some(
                UiEvent::PointerUp(
                    mouse_pointer_event(*mouse_pos, button, *mouse_buttons, *modifiers),
                ),
            )
        },
        MouseEvent::WheelScrolled { delta, modifiers } => {
            let delta: BlitzWheelDelta = match delta {
                ScrollDelta::Lines { x, y } => BlitzWheelDelta::Lines(*x, *y),
                ScrollDelta::Pixels { x, y } => BlitzWheelDelta::Pixels(*x, *y),
            };
            Some(
                UiEvent::Wheel(
                    BlitzWheelEvent {
                        delta,
                        coords: pointer_coords(*mouse_pos),
                        buttons: *mouse_buttons,
                        mods: convert_modifiers(*modifiers),
                        element: Vec2 { x: Scalar { bits: ZERO }, y: Scalar { bits: ZERO } },
                    },
                ),
            )
        },
        MouseEvent::CursorEntered => None,
        MouseEvent::CursorLeft => None,
        MouseEvent::DragEntered => None,
        MouseEvent::DragMoved => None,
        MouseEvent::DragLeft => None,
        MouseEvent::DragDropped => None,
    }
}

/// Keeps a dragged pointer inside the viewport.
fn confine(position: Vec2, buttons: MouseEventButtons, limits: Vec2) -> (r: Vec2)
    requires
        valid_limits(limits),
    ensures
        r == confined(position, buttons, limits),
{
    if buttons.is_empty() {
        position
    } else {
        let zero: Scalar = Scalar { bits: ZERO };
        Vec2 { x: position.x.clamp(zero, limits.x), y: position.y.clamp(zero, limits.y) }
    }
}

/// Fills all three kinds of coordinates with the same pair.
fn pointer_coords(position: Vec2) -> (r: PointerCoords)
    ensures
        r == coords_at(position),
{
    PointerCoords {
        page_x: position.x,
        page_y: position.y,
        screen_x: position.x,
        screen_y: position.y,
        client_x: position.x,
        client_y: position.y,
    }
}

/// The pointer event of a mouse at a position.
fn mouse_pointer_event(
    position: Vec2,
    button: MouseEventButton,
    buttons: MouseEventButtons,
    modifiers: u32,
) -> (r: BlitzPointerEvent)
    ensures
        r == pointer_event(position, button, buttons, modifiers),
{
    let zero: Scalar = Scalar { bits: ZERO };
    BlitzPointerEvent {
        id: BlitzPointerId::Mouse,
        is_primary: true,
        coords: pointer_coords(position),
        button,
        buttons,
        mods: convert_modifiers(modifiers),
        details: PointerDetails {
            pressure: 0,
            tangential_pressure: zero,
            tilt_x: 0,
            tilt_y: 0,
            twist: 0,
            altitude: 0,
            azimuth: 0,
        },
        element: Vec2 { x: zero, y: zero },
    }
}

/// Translates a key event. There is always an event for the document.
pub fn translate_keyboard_event(event: &KeyboardEvent) -> (r: Option<UiEvent>)
    ensures
        r is Some,
        event.state is Down ==> ui_event_view(r) == Some(
            UiEventView::KeyDown(converted_key_event(*event)),
        ),
        event.state is Up ==> ui_event_view(r) == Some(
            UiEventView::KeyUp(converted_key_event(*event)),
        ),
{
    let converted: BlitzKeyEvent = convert_key_event(event);
    match event.state {
        KeyState::Down => Some(UiEvent::KeyDown(converted)),
        KeyState::Up => Some(UiEvent::KeyUp(converted)),
    }
}

/// The document's button for a window's button.
pub fn translate_mouse_button(button: MouseButton) -> (r: MouseEventButton)
    ensures
        r == translated_button(button),
{
    match button {
        MouseButton::Left => MouseEventButton::Main,
        MouseButton::Right => MouseEventButton::Secondary,
        MouseButton::Middle => MouseEventButton::Auxiliary,
        MouseButton::Back => MouseEventButton::Fourth,
        MouseButton::Forward => MouseEventButton::Fifth,
        MouseButton::Other(_) => MouseEventButton::Main,
    }
}

/// While a button is held, a pointer that moves stays inside the viewport, wherever the cursor is.
pub proof fn a_drag_stays_inside_the_viewport(
    to: Vec2,
    modifiers: u32,
    position: Vec2,
    buttons: MouseEventButtons,
    limits: Vec2,
)
    requires
        valid_limits(limits),
        buttons.bits != 0,
        !to.x.is_nan(),
        !to.y.is_nan(),
    ensures
        ({
            let event = Event::Mouse(MouseEvent::CursorMoved { position: to, modifiers });
            let at = position_after(event, position, buttons, limits);
            let zero = Scalar { bits: ZERO };
            at.x.within(zero, limits.x) && at.y.within(zero, limits.y)
        }),
{
}

/// Without a button held, a pointer that moves is where the cursor is, inside the viewport or not.
pub proof fn a_free_pointer_follows_the_cursor(
    to: Vec2,
    modifiers: u32,
    position: Vec2,
    buttons: MouseEventButtons,
    limits: Vec2,
)
    requires
        buttons.bits == 0,
    ensures
        position_after(
            Event::Mouse(MouseEvent::CursorMoved { position: to, modifiers }),
            position,
            buttons,
            limits,
        ) == to,
{
}

/// Whatever happens, only the bits of buttons are ever set.
pub proof fn buttons_stay_well_formed(event: Event, buttons: MouseEventButtons)
    requires
        buttons.wf(),
    ensures
        buttons_after(event, buttons).wf(),
{
    let b = buttons.bits;
    assert(b <= 0x1f ==> b | 1 <= 0x1f && b | 2 <= 0x1f && b | 4 <= 0x1f && b | 8 <= 0x1f && b | 16
        <= 0x1f) by (bit_vector);
    assert(b & (!1u8 & 0x1f) <= 0x1f && b & (!2u8 & 0x1f) <= 0x1f && b & (!4u8 & 0x1f) <= 0x1f && b
        & (!8u8 & 0x1f) <= 0x1f && b & (!16u8 & 0x1f) <= 0x1f) by (bit_vector);
}

/// A pressed button is held, a released one is not, and neither changes another button.
pub proof fn press_and_release_change_one_button(
    buttons: MouseEventButtons,
    button: MouseEventButton,
    other: MouseEventButton,
)
    requires
        buttons.wf(),
    ensures
        buttons.with(button).holds(button),
        !buttons.without(button).holds(button),
        other != button ==> buttons.with(button).holds(other) == buttons.holds(other),
        other != button ==> buttons.without(button).holds(other) == buttons.holds(other),
{
    let b = buttons.bits;
    let f = button_flag(button);
    let g = button_flag(other);
    assert((b | f) & f == f) by (bit_vector);
    assert((b & (!f & 0x1f)) & f == 0) by (bit_vector);
    if other != button {
        assert(f & g == 0) by {
            assert(1u8 & 2 == 0 && 1u8 & 4 == 0 && 1u8 & 8 == 0 && 1u8 & 16 == 0) by (bit_vector);
            assert(2u8 & 1 == 0 && 2u8 & 4 == 0 && 2u8 & 8 == 0 && 2u8 & 16 == 0) by (bit_vector);
            assert(4u8 & 1 == 0 && 4u8 & 2 == 0 && 4u8 & 8 == 0 && 4u8 & 16 == 0) by (bit_vector);
            assert(8u8 & 1 == 0 && 8u8 & 2 == 0 && 8u8 & 4 == 0 && 8u8 & 16 == 0) by (bit_vector);
            assert(16u8 & 1 == 0 && 16u8 & 2 == 0 && 16u8 & 4 == 0 && 16u8 & 8 == 0) by (bit_vector);
        }
        assert(f & g == 0 ==> (b | f) & g == b & g) by (bit_vector);
        assert(f & g == 0 && g <= 16 ==> (b & (!f & 0x1f)) & g == b & g) by (bit_vector);
    }
}

/// Releasing a button undoes the press of it, where it was not held before.
pub proof fn release_undoes_press(buttons: MouseEventButtons, button: MouseEventButton)
    requires
        buttons.wf(),
        !buttons.holds(button),
    ensures
        buttons.with(button).without(button) == buttons,
{
    let b = buttons.bits;
    let f = button_flag(button);
    assert(b <= 0x1f && b & f == 0 ==> (b | f) & (!f & 0x1f) == b) by (bit_vector);
}

/// Window events, drags of data and the cursor entering or leaving tell the document nothing and
/// change no input state.
pub proof fn other_events_are_not_translated(
    event: Event,
    position: Vec2,
    buttons: MouseEventButtons,
    modifiers: u32,
    limits: Vec2,
)
    requires
        match event {
            Event::Window(_) => true,
            Event::Keyboard(_) => false,
            Event::Mouse(m) => m is CursorEntered || m is CursorLeft || m is DragEntered
                || m is DragMoved || m is DragLeft || m is DragDropped,
        },
    ensures
        translated(event, position, buttons, limits) is None,
        position_after(event, position, buttons, limits) == position,
        buttons_after(event, buttons) == buttons,
        modifiers_after(event, modifiers) == modifiers,
{
}

/// A press, a release and a scroll happen where the pointer is: all six coordinates of the event
/// that the document is told of are those of the tracked position.
pub proof fn clicks_and_scrolls_happen_at_the_pointer(
    event: MouseEvent,
    position: Vec2,
    buttons: MouseEventButtons,
    limits: Vec2,
)
    ensures
        ({
            let told = translated(Event::Mouse(event), position, buttons, limits);
            &&& event is ButtonPressed ==> told is Some && told->0 is PointerDown
                && told->0->PointerDown_0.coords.page_x == position.x
                && told->0->PointerDown_0.coords.page_y == position.y
                && told->0->PointerDown_0.coords.screen_x == position.x
                && told->0->PointerDown_0.coords.screen_y == position.y
                && told->0->PointerDown_0.coords.client_x == position.x
                && told->0->PointerDown_0.coords.client_y == position.y
            &&& event is ButtonReleased ==> told is Some && told->0 is PointerUp
                && told->0->PointerUp_0.coords.page_x == position.x
                && told->0->PointerUp_0.coords.page_y == position.y
                && told->0->PointerUp_0.coords.screen_x == position.x
                && told->0->PointerUp_0.coords.screen_y == position.y
                && told->0->PointerUp_0.coords.client_x == position.x
                && told->0->PointerUp_0.coords.client_y == position.y
            &&& event is WheelScrolled ==> told is Some && told->0 is Wheel
                && told->0->Wheel_0.coords.page_x == position.x
                && told->0->Wheel_0.coords.page_y == position.y
                && told->0->Wheel_0.coords.screen_x == position.x
                && told->0->Wheel_0.coords.screen_y == position.y
                && told->0->Wheel_0.coords.client_x == position.x
                && told->0->Wheel_0.coords.client_y == position.y
        }),
{
}

/// A move is told at the position that is tracked after it, in all six coordinates.
pub proof fn a_move_is_told_where_the_pointer_arrives(
    to: Vec2,
    modifiers: u32,
    position: Vec2,
    buttons: MouseEventButtons,
    limits: Vec2,
)
    ensures
        ({
            let event = Event::Mouse(MouseEvent::CursorMoved { position: to, modifiers });
            let at = position_after(event, position, buttons, limits);
            let told = translated(event, position, buttons, limits);
            &&& told is Some && told->0 is PointerMove
            &&& told->0->PointerMove_0.coords.page_x == at.x
            &&& told->0->PointerMove_0.coords.page_y == at.y
            &&& told->0->PointerMove_0.coords.screen_x == at.x
            &&& told->0->PointerMove_0.coords.screen_y == at.y
            &&& told->0->PointerMove_0.coords.client_x == at.x
            &&& told->0->PointerMove_0.coords.client_y == at.y
        }),
{
}

/// A dragged pointer is moved as little as possible: along each axis it is where the cursor is, or
/// at the edge of the viewport that the cursor went beyond. A free one is not moved at all.
pub proof fn a_drag_is_moved_to_the_nearer_edge(
    to: Vec2,
    modifiers: u32,
    position: Vec2,
    buttons: MouseEventButtons,
    limits: Vec2,
)
    requires
        valid_limits(limits),
    ensures
        ({
            let event = Event::Mouse(MouseEvent::CursorMoved { position: to, modifiers });
            let at = position_after(event, position, buttons, limits);
            let zero = Scalar { bits: 0 };
            &&& buttons.bits == 0 ==> at.x == to.x && at.y == to.y
            &&& buttons.bits != 0 && to.x.below(zero) ==> at.x.bits == 0
            &&& buttons.bits != 0 && to.y.below(zero) ==> at.y.bits == 0
            &&& buttons.bits != 0 && limits.x.below(to.x) ==> at.x == limits.x
            &&& buttons.bits != 0 && limits.y.below(to.y) ==> at.y == limits.y
            &&& !to.x.below(zero) && !limits.x.below(to.x) ==> at.x == to.x
            &&& !to.y.below(zero) && !limits.y.below(to.y) ==> at.y == to.y
        }),
{
}

/// Only a move changes where the pointer is taken to be.
pub proof fn the_pointer_stays_unless_it_moves(
    event: Event,
    position: Vec2,
    buttons: MouseEventButtons,
    limits: Vec2,
)
    requires
        !(event matches Event::Mouse(MouseEvent::CursorMoved { .. })),
    ensures
        position_after(event, position, buttons, limits).x == position.x,
        position_after(event, position, buttons, limits).y == position.y,
{
}

/// A press is told with the button that was pressed, by the document's name for it, and with all
/// the buttons that are held from then on.
pub proof fn a_press_is_told_with_its_button(
    button: MouseButton,
    modifiers: u32,
    position: Vec2,
    buttons: MouseEventButtons,
    limits: Vec2,
)
    ensures
        ({
            let event = Event::Mouse(MouseEvent::ButtonPressed { button, modifiers });
            let told = translated(event, position, buttons, limits)->0->PointerDown_0;
            let held = buttons_after(event, buttons).bits;
            &&& told.buttons.bits == held
            &&& button is Left ==> told.button is Main && held == buttons.bits | 1
            &&& button is Right ==> told.button is Secondary && held == buttons.bits | 2
            &&& button is Middle ==> told.button is Auxiliary && held == buttons.bits | 4
            &&& button is Back ==> told.button is Fourth && held == buttons.bits | 8
            &&& button is Forward ==> told.button is Fifth && held == buttons.bits | 16
            &&& button is Other ==> told.button is Main && held == buttons.bits | 1
            &&& told.is_primary && told.id is Mouse
        }),
{
}

/// A release is told with the button that was released, and with the buttons that are still held:
/// those that were, but for that one.
pub proof fn a_release_is_told_with_its_button(
    button: MouseButton,
    modifiers: u32,
    position: Vec2,
    buttons: MouseEventButtons,
    limits: Vec2,
)
    requires
        buttons.bits <= 0x1f,
    ensures
        ({
            let event = Event::Mouse(MouseEvent::ButtonReleased { button, modifiers });
            let told = translated(event, position, buttons, limits)->0->PointerUp_0;
            let held = buttons_after(event, buttons).bits;
            &&& told.buttons.bits == held
            &&& button is Left ==> told.button is Main && held == buttons.bits & 0x1e
            &&& button is Right ==> told.button is Secondary && held == buttons.bits & 0x1d
            &&& button is Middle ==> told.button is Auxiliary && held == buttons.bits & 0x1b
            &&& button is Back ==> told.button is Fourth && held == buttons.bits & 0x17
            &&& button is Forward ==> told.button is Fifth && held == buttons.bits & 0x0f
            &&& button is Other ==> told.button is Main && held == buttons.bits & 0x1e
            &&& told.is_primary && told.id is Mouse
        }),
{
    assert(!1u8 & 0x1f == 0x1e && !2u8 & 0x1f == 0x1d && !4u8 & 0x1f == 0x1b && !8u8 & 0x1f == 0x17
        && !16u8 & 0x1f == 0x0f) by (bit_vector);
}

/// A press and the release right after it are told at one place and with one button: a click ends on
/// the element that it began on.
pub proof fn a_click_ends_where_it_began(
    button: MouseButton,
    pressed_with: u32,
    released_with: u32,
    position: Vec2,
    buttons: MouseEventButtons,
    limits: Vec2,
)
    ensures
        ({
            let press = Event::Mouse(
                MouseEvent::ButtonPressed { button, modifiers: pressed_with },
            );
            let release = Event::Mouse(
                MouseEvent::ButtonReleased { button, modifiers: released_with },
            );
            let down = translated(press, position, buttons, limits)->0->PointerDown_0;
            let up = translated(
                release,
                position_after(press, position, buttons, limits),
                buttons_after(press, buttons),
                limits,
            )->0->PointerUp_0;
            &&& down.button == up.button
            &&& down.coords.page_x == up.coords.page_x && down.coords.page_y == up.coords.page_y
            &&& down.coords.screen_x == up.coords.screen_x && down.coords.screen_y
                == up.coords.screen_y
            &&& down.coords.client_x == up.coords.client_x && down.coords.client_y
                == up.coords.client_y
        }),
{
}

/// A move and a scroll are told with the buttons that are held, and change none of them.
pub proof fn moves_and_scrolls_hold_the_buttons(
    event: MouseEvent,
    position: Vec2,
    buttons: MouseEventButtons,
    limits: Vec2,
)
    requires
        event is CursorMoved || event is WheelScrolled,
    ensures
        ({
            let told = translated(Event::Mouse(event), position, buttons, limits);
            &&& buttons_after(Event::Mouse(event), buttons).bits == buttons.bits
            &&& event is CursorMoved ==> told->0->PointerMove_0.buttons.bits == buttons.bits
                && told->0->PointerMove_0.button is Main && told->0->PointerMove_0.is_primary
                && told->0->PointerMove_0.id is Mouse
            &&& event is WheelScrolled ==> told->0->Wheel_0.buttons.bits == buttons.bits
        }),
{
}

/// A scroll is told with the distance that was scrolled along each axis, in the unit that it was
/// reported in.
pub proof fn a_scroll_keeps_its_distance(
    x: Scalar,
    y: Scalar,
    modifiers: u32,
    position: Vec2,
    buttons: MouseEventButtons,
    limits: Vec2,
)
    ensures
        ({
            let lines = Event::Mouse(
                MouseEvent::WheelScrolled { delta: ScrollDelta::Lines { x, y }, modifiers },
            );
            let pixels = Event::Mouse(
                MouseEvent::WheelScrolled { delta: ScrollDelta::Pixels { x, y }, modifiers },
            );
            let by_lines = translated(lines, position, buttons, limits)->0->Wheel_0.delta;
            let by_pixels = translated(pixels, position, buttons, limits)->0->Wheel_0.delta;
            &&& by_lines is Lines && by_lines->Lines_0 == x && by_lines->Lines_1 == y
            &&& by_pixels is Pixels && by_pixels->Pixels_0 == x && by_pixels->Pixels_1 == y
        }),
{
}

/// The modifiers that a mouse event reports are those that the document is told of, as far as they
/// have a meaning; no other bit is set or lost.
pub proof fn mouse_modifiers_reach_the_document(
    event: MouseEvent,
    modifiers: u32,
    position: Vec2,
    buttons: MouseEventButtons,
    limits: Vec2,
)
    requires
        event matches MouseEvent::CursorMoved { modifiers: m, .. } ==> m == modifiers,
        event matches MouseEvent::ButtonPressed { modifiers: m, .. } ==> m == modifiers,
        event matches MouseEvent::ButtonReleased { modifiers: m, .. } ==> m == modifiers,
        event matches MouseEvent::WheelScrolled { modifiers: m, .. } ==> m == modifiers,
    ensures
        ({
            let told = translated(Event::Mouse(event), position, buttons, limits);
            let kept = if modifiers <= 0x3fff {
                modifiers
            } else {
                modifiers & 0x3fff
            };
            &&& event is CursorMoved ==> told->0->PointerMove_0.mods == kept
            &&& event is ButtonPressed ==> told->0->PointerDown_0.mods == kept
            &&& event is ButtonReleased ==> told->0->PointerUp_0.mods == kept
            &&& event is WheelScrolled ==> told->0->Wheel_0.mods == kept
        }),
{
    assert(modifiers <= 0x3fff ==> modifiers & 0x3fff == modifiers) by (bit_vector);
}

/// A key event is told as a press where the key went down and as a release where it went up. It
/// moves neither the pointer nor a button, and its modifiers are tracked from then on.
pub proof fn a_key_event_is_always_told(
    event: KeyboardEvent,
    position: Vec2,
    buttons: MouseEventButtons,
    modifiers: u32,
    limits: Vec2,
)
    ensures
        ({
            let told = translated(Event::Keyboard(event), position, buttons, limits);
            &&& told is Some
            &&& event.state is Down ==> told->0 is KeyDown && told->0->KeyDown_0
                == converted_key_event(event)
            &&& event.state is Up ==> told->0 is KeyUp && told->0->KeyUp_0 == converted_key_event(
                event,
            )
            &&& buttons_after(Event::Keyboard(event), buttons).bits == buttons.bits
            &&& modifiers_after(Event::Keyboard(event), modifiers) == event.modifiers
        }),
{
}

/// Mouse and window events leave the tracked modifiers as they are.
pub proof fn only_keys_change_the_tracked_modifiers(event: Event, modifiers: u32)
    requires
        !(event is Keyboard),
    ensures
        modifiers_after(event, modifiers) == modifiers,
{
}

/// What the document is told holds every part of the event that was made for it.
pub proof fn a_told_event_is_handed_over_whole(event: UiEvent)
    ensures
        event matches UiEvent::PointerMove(e) ==> event@ is PointerMove && event@->PointerMove_0 == e,
        event matches UiEvent::PointerUp(e) ==> event@ is PointerUp && event@->PointerUp_0 == e,
        event matches UiEvent::PointerDown(e) ==> event@ is PointerDown && event@->PointerDown_0 == e,
        event matches UiEvent::Wheel(e) ==> event@ is Wheel && event@->Wheel_0 == e,
        event matches UiEvent::KeyUp(e) ==> event@ is KeyUp && event@->KeyUp_0 == e@,
        event matches UiEvent::KeyDown(e) ==> event@ is KeyDown && event@->KeyDown_0 == e@,
        ui_event_view(Some(event)) == Some(event@),
        ui_event_view(None) is None,
{
}

/// Nothing is known of how a mouse is held, nor yet of the element under it: every such part of a
/// pointer event is zero.
pub proof fn a_mouse_tells_no_details(
    position: Vec2,
    button: MouseEventButton,
    buttons: MouseEventButtons,
    modifiers: u32,
)
    ensures
        ({
            let told = pointer_event(position, button, buttons, modifiers);
            &&& told.details.pressure == 0 && told.details.tangential_pressure.bits == 0
            &&& told.details.tilt_x == 0 && told.details.tilt_y == 0 && told.details.twist == 0
            &&& told.details.altitude == 0 && told.details.azimuth == 0
            &&& told.element.x.bits == 0 && told.element.y.bits == 0
        }),
{
}

} // verus!
