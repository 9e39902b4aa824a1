//! Keyboard input: from what the window reports to what the document takes.
//!
//! The window and the document may be built against different versions of the keyboard types.
//! The versions agree on the names of keys and codes and on the values of modifier bits and
//! locations, so those are what crosses over.

use vstd::prelude::*;

use crate::text::text_view;

verus! {

/// The value of a key.
pub enum Key {
    /// The text that the key types.
    Character(String),
    /// A key that types nothing, by its name.
    Named(String),
}

/// The contents of a [`Key`].
pub enum KeyView {
    Character(Seq<char>),
    Named(Seq<char>),
}

impl View for Key {
    type V = KeyView;

    open spec fn view(&self) -> KeyView {
        match self {
            Key::Character(text) => KeyView::Character(text@),
            Key::Named(name) => KeyView::Named(name@),
        }
    }
}

/// Where a key is on the keyboard.
#[derive(Clone, Copy, Debug, PartialEq, Eq, Structural)]
pub enum Location {
    Standard,
    Left,
    Right,
    Numpad,
}

/// What happened to a key, as the window reports it.
#[derive(Clone, Copy, Debug, PartialEq, Eq, Structural)]
pub enum KeyState {
    Down,
    Up,
}

/// What happened to a key, as the document takes it.
#[derive(Clone, Copy, Debug, PartialEq, Eq, Structural)]
pub enum BlitzKeyState {
    Pressed,
    Released,
}

/// A key event as the window reports it.
pub struct KeyboardEvent {
    pub state: KeyState,
    pub key: Key,
    /// The name of the key's physical position.
    pub code: String,
    /// The number of the key's location.
    pub location: u32,
    /// The bits of the modifiers that are held.
    pub modifiers: u32,
    pub repeat: bool,
    pub is_composing: bool,
}

/// A key event as the document takes it.
pub struct BlitzKeyEvent {
    pub key: Key,
    pub code: String,
    pub modifiers: u32,
    pub location: Location,
    pub is_auto_repeating: bool,
    pub is_composing: bool,
    pub state: BlitzKeyState,
    /// The text that the key types, if it types any.
    pub text: Option<String>,
}

/// The contents of a [`BlitzKeyEvent`].
pub struct BlitzKeyEventView {
    pub key: KeyView,
    pub code: Seq<char>,
    pub modifiers: u32,
    pub location: Location,
    pub is_auto_repeating: bool,
    pub is_composing: bool,
    pub state: BlitzKeyState,
    pub text: Option<Seq<char>>,
}

impl View for BlitzKeyEvent {
    type V = BlitzKeyEventView;

    open spec fn view(&self) -> BlitzKeyEventView {
        BlitzKeyEventView {
            key: self.key@,
            code: self.code@,
            modifiers: self.modifiers,
            location: self.location,
            is_auto_repeating: self.is_auto_repeating,
            is_composing: self.is_composing,
            state: self.state,
            text: text_view(self.text),
        }
    }
}

/// The bits of all modifiers that have a meaning.
pub const KNOWN_MODIFIERS: u32 = 0x3fff;

/// The text of a key: what it types, or its name.
pub open spec fn key_text(key: KeyView) -> Seq<char> {
    match key {
        KeyView::Character(text) => text,
        KeyView::Named(name) => name,
    }
}

/// The key that a name stands for, or `None` where it stands for none: what
/// `keyboard_types::Key` parses from the name.
pub uninterp spec fn parsed_key(name: Seq<char>) -> Option<KeyView>;

/// The name of the code that a name stands for, or `None` where it stands for none: what
/// `keyboard_types::Code` parses from the name.
pub uninterp spec fn parsed_code(name: Seq<char>) -> Option<Seq<char>>;

/// The contents of an optional key.
pub open spec fn key_view(key: Option<Key>) -> Option<KeyView> {
    match key {
        Some(k) => Some(k@),
        None => None,
    }
}

/// Parses a key's name with `<keyboard_types::Key as FromStr>::from_str`. The result, a named key
/// by its `Display` text, is claimed to be a function of the name, and to have that name: a named
/// key is parsed from the text that it is displayed as, and a character from itself.
#[verifier::external_body]
fn parse_key(name: &str) -> (key: Option<Key>)
    ensures
        key_view(key) == parsed_key(name@),
        key matches Some(k) ==> key_text(k@) == name@,
{
    match name.parse::<keyboard_types::Key>() {
        Ok(keyboard_types::Key::Character(text)) => Some(Key::Character(text)),
        Ok(keyboard_types::Key::Named(named)) => Some(Key::Named(named.to_string())),
        Err(_) => None,
    }
}

/// Parses a code's name with `<keyboard_types::Code as FromStr>::from_str`. The result, by its
/// `Display` text, is claimed to be a function of the name.
#[verifier::external_body]
fn parse_code(name: &str) -> (code: Option<String>)
    ensures
        text_view(code) == parsed_code(name@),
{
    match name.parse::<keyboard_types::Code>() {
        Ok(code) => Some(code.to_string()),
        Err(_) => None,
    }
}

/// Drops unknown modifier bits with `keyboard_types::Modifiers::from_bits_truncate`, which keeps
/// the fourteen lowest bits and clears the others.
#[verifier::external_body]
fn truncate_modifiers(bits: u32) -> (r: u32)
    ensures
        r == bits & KNOWN_MODIFIERS,
{
    keyboard_types::Modifiers::from_bits_truncate(bits).bits()
}

/// The modifiers that the document is told of.
pub open spec fn converted_modifiers(modifiers: u32) -> u32 {
    modifiers & KNOWN_MODIFIERS
}

/// The key that was parsed, or the unidentified key.
pub open spec fn key_or_unidentified_of(parsed: Option<KeyView>) -> KeyView {
    match parsed {
        Some(key) => key,
        None => KeyView::Named("Unidentified"@),
    }
}

/// The code that was parsed, or the unidentified code.
pub open spec fn code_or_unidentified_of(parsed: Option<Seq<char>>) -> Seq<char> {
    match parsed {
        Some(code) => code,
        None => "Unidentified"@,
    }
}

/// The key that the document is told of: a character stays, and a name goes through
/// [`parsed_key`].
pub open spec fn converted_key(key: KeyView) -> KeyView {
    match key {
        KeyView::Character(text) => KeyView::Character(text),
        KeyView::Named(name) => key_or_unidentified_of(parsed_key(name)),
    }
}

/// The code that the document is told of.
pub open spec fn converted_code(code: Seq<char>) -> Seq<char> {
    code_or_unidentified_of(parsed_code(code))
}

/// The location with a number; a number without one is the standard location.
pub open spec fn converted_location(location: u32) -> Location {
    if location == 1 {
        Location::Left
    } else if location == 2 {
        Location::Right
    } else if location == 3 {
        Location::Numpad
    } else {
        Location::Standard
    }
}

/// A key that goes down is pressed, one that goes up is released.
pub open spec fn converted_state(state: KeyState) -> BlitzKeyState {
    match state {
        KeyState::Down => BlitzKeyState::Pressed,
        KeyState::Up => BlitzKeyState::Released,
    }
}

/// The text that a key types: a character types itself, a named key types nothing.
pub open spec fn typed_text(key: KeyView) -> Option<Seq<char>> {
    match key {
        KeyView::Character(text) => Some(text),
        KeyView::Named(_) => None,
    }
}

/// The event that the document is told of.
pub open spec fn converted_key_event(event: KeyboardEvent) -> BlitzKeyEventView {
    BlitzKeyEventView {
        key: converted_key(event.key@),
        code: converted_code(event.code@),
        modifiers: converted_modifiers(event.modifiers),
        location: converted_location(event.location),
        is_auto_repeating: event.repeat,
        is_composing: event.is_composing,
        state: converted_state(event.state),
        text: typed_text(event.key@),
    }
}

/// Clears the modifier bits that have no meaning.
pub fn convert_modifiers(modifiers: u32) -> (r: u32)
    ensures
        r == converted_modifiers(modifiers),
{
    truncate_modifiers(modifiers)
}

/// The key that was parsed, or the unidentified key.
pub fn key_or_unidentified(parsed: Option<Key>) -> (r: Key)
    ensures
        r@ == key_or_unidentified_of(key_view(parsed)),
{
    match parsed {
        Some(key) => key,
        None => Key::Named("Unidentified".to_owned()),
    }
}

/// The code that was parsed, or the unidentified code.
pub fn code_or_unidentified(parsed: Option<String>) -> (r: String)
    ensures
        r@ == code_or_unidentified_of(text_view(parsed)),
{
    match parsed {
        Some(code) => code,
        None => "Unidentified".to_owned(),
    }
}

/// Converts a key by its name. No key becomes another one: it keeps its text, or is unidentified.
pub fn convert_key(key: &Key) -> (r: Key)
    ensures
        r@ == converted_key(key@),
        key_text(r@) == key_text(key@) || r@ == KeyView::Named("Unidentified"@),
{
    match key {
        Key::Character(text) => Key::Character(text.clone()),
        Key::Named(name) => key_or_unidentified(parse_key(name.as_str())),
    }
}

/// Converts a code by its name.
pub fn convert_code(code: &str) -> (r: String)
    ensures
        r@ == converted_code(code@),
{
    code_or_unidentified(parse_code(code))
}

/// Converts a location by its number.
pub fn convert_location(location: u32) -> (r: Location)
    ensures
        r == converted_location(location),
{
    match location {
        1 => Location::Left,
        2 => Location::Right,
        3 => Location::Numpad,
        _ => Location::Standard,
    }
}

/// Converts what happened to a key.
pub fn convert_key_state(state: KeyState) -> (r: BlitzKeyState)
    ensures
        r == converted_state(state),
{
    match state {
        KeyState::Down => BlitzKeyState::Pressed,
        KeyState::Up => BlitzKeyState::Released,
    }
}

/// Converts a key event.
pub fn convert_key_event(event: &KeyboardEvent) -> (r: BlitzKeyEvent)
    ensures
        r@ == converted_key_event(*event),
{
    let text: Option<String> = match &event.key {
        Key::Character(text) => Some(text.clone()),
        Key::Named(_) => None,
    };
    BlitzKeyEvent {
        key: convert_key(&event.key),
        code: convert_code(event.code.as_str()),
        modifiers: convert_modifiers(event.modifiers),
        location: convert_location(event.location),
        is_auto_repeating: event.repeat,
        is_composing: event.is_composing,
        state: convert_key_state(event.state),
        text,
    }
}

/// Converting modifiers twice is converting them once.
pub proof fn converted_modifiers_twice(modifiers: u32)
    ensures
        converted_modifiers(converted_modifiers(modifiers)) == converted_modifiers(modifiers),
{
    assert((modifiers & 0x3fff) & 0x3fff == modifiers & 0x3fff) by (bit_vector);
}

/// A key that types text reaches the document as that text, both as its value and as the text to
/// insert.
pub proof fn a_character_reaches_the_document(event: KeyboardEvent, text: Seq<char>)
    requires
        event.key@ == KeyView::Character(text),
    ensures
        converted_key_event(event).key == KeyView::Character(text),
        converted_key_event(event).text == Some(text),
{
}

/// The modifiers that a key event reports are those that the document is told of, as far as they
/// have a meaning: where all of them have, not a bit changes.
pub proof fn modifiers_reach_the_document(event: KeyboardEvent)
    ensures
        event.modifiers <= 0x3fff ==> converted_key_event(event).modifiers == event.modifiers,
        forall|bit: u32|
            bit < 14 ==> (#[trigger] (converted_key_event(event).modifiers >> bit)) & 1 == (
            event.modifiers >> bit) & 1,
        converted_key_event(event).modifiers <= 0x3fff,
{
    let m = event.modifiers;
    let told = converted_key_event(event).modifiers;
    assert(m <= 0x3fff ==> m & 0x3fff == m) by (bit_vector);
    assert(m & 0x3fff <= 0x3fff) by (bit_vector);
    assert(told == m & 0x3fff);
    assert forall|bit: u32| bit < 14 implies (#[trigger] (told >> bit)) & 1 == (m >> bit) & 1 by {
        assert(bit < 14 && told == m & 0x3fff ==> (told >> bit) & 1 == (m >> bit) & 1)
            by (bit_vector);
    }
}

/// Whether a key repeats, whether text is being composed, and whether the key went down or up are
/// told as they were reported.
pub proof fn the_circumstances_of_a_key_reach_the_document(event: KeyboardEvent)
    ensures
        converted_key_event(event).is_auto_repeating == event.repeat,
        converted_key_event(event).is_composing == event.is_composing,
        converted_key_event(event).state is Pressed <==> event.state is Down,
        converted_key_event(event).state is Released <==> event.state is Up,
{
}

/// Each side of the keyboard has its own number, and the numbers reach the document; every number
/// without a meaning is the standard location.
pub proof fn locations_reach_the_document(event: KeyboardEvent)
    ensures
        converted_key_event(event).location is Left <==> event.location == 1,
        converted_key_event(event).location is Right <==> event.location == 2,
        converted_key_event(event).location is Numpad <==> event.location == 3,
        converted_key_event(event).location is Standard <==> event.location == 0 || event.location
            > 3,
{
}

/// A key that types nothing is told by the key that its name stands for, without text; a name that
/// stands for no key is told as the unidentified key.
pub proof fn a_named_key_reaches_the_document(event: KeyboardEvent, name: Seq<char>)
    requires
        event.key@ == KeyView::Named(name),
    ensures
        converted_key_event(event).text is None,
        parsed_key(name) matches Some(key) ==> converted_key_event(event).key == key,
        parsed_key(name) is None ==> converted_key_event(event).key == KeyView::Named(
            "Unidentified"@,
        ),
{
}

/// A code is told as the code that its name stands for; a name that stands for none is told as the
/// unidentified code.
pub proof fn a_code_reaches_the_document(event: KeyboardEvent)
    ensures
        parsed_code(event.code@) matches Some(code) ==> converted_key_event(event).code == code,
        parsed_code(event.code@) is None ==> converted_key_event(event).code == "Unidentified"@,
{
}

/// What the document is told of a key holds every part of the event that was made for it.
pub proof fn a_key_event_is_handed_over_whole(event: BlitzKeyEvent)
    ensures
        event@.key == event.key@,
        event@.code == event.code@,
        event@.modifiers == event.modifiers,
        event@.location == event.location,
        event@.is_auto_repeating == event.is_auto_repeating,
        event@.is_composing == event.is_composing,
        event@.state == event.state,
        event.text matches Some(text) ==> event@.text == Some(text@),
        event.text is None ==> event@.text is None,
        event.key matches Key::Character(text) ==> event.key@ == KeyView::Character(text@),
        event.key matches Key::Named(name) ==> event.key@ == KeyView::Named(name@),
{
}

/// A key that was parsed is taken as it is, and a name that stands for none gives none.
pub proof fn a_parsed_key_is_taken_whole(key: Key)
    ensures
        key_view(Some(key)) == Some(key@),
        key_view(None) is None,
        key matches Key::Character(text) ==> key@ == KeyView::Character(text@),
        key matches Key::Named(name) ==> key@ == KeyView::Named(name@),
        key_text(key@) == match key {
            Key::Character(text) => text@,
            Key::Named(name) => name@,
        },
{
}

} // verus!
