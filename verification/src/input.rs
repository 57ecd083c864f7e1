//! Translation of platform-native input representations into the abstract,
//! platform-independent event vocabulary.
//!
//! The translators are stateless, total functions: an unrecognized native
//! code maps to an explicit "unidentified" sentinel, never to a failure.

use vstd::prelude::*;

verus! {

/// A named key as the native windowing layer reports it. Native keys the
/// runtime does not distinguish arrive as [`NativeNamedKey::Unrecognized`].
#[derive(Debug, Clone, Copy, PartialEq, Eq)]
pub enum NativeNamedKey {
    Enter,
    Escape,
    Tab,
    Space,
    Backspace,
    Delete,
    ArrowUp,
    ArrowDown,
    ArrowLeft,
    ArrowRight,
    Home,
    End,
    PageUp,
    PageDown,
    Shift,
    Control,
    Alt,
    Unrecognized,
}

/// The logical key of a native keyboard event: either a named key, a
/// character-producing key, or something the native layer itself could not
/// identify.
#[derive(Debug, Clone, PartialEq, Eq)]
pub enum NativeKey {
    Named(NativeNamedKey),
    Character(String),
    Unidentified,
}

/// The physical position of a native keyboard event on the keyboard.
#[derive(Debug, Clone, Copy, PartialEq, Eq)]
pub enum NativePhysicalKey {
    Code(NativeKeyCode),
    Unidentified,
}

/// A physical key location as the native windowing layer reports it.
#[derive(Debug, Clone, Copy, PartialEq, Eq)]
pub enum NativeKeyCode {
    Enter,
    Escape,
    Tab,
    Space,
    Backspace,
    Delete,
    ArrowUp,
    ArrowDown,
    ArrowLeft,
    ArrowRight,
    Home,
    End,
    PageUp,
    PageDown,
    ShiftLeft,
    ShiftRight,
    ControlLeft,
    ControlRight,
    AltLeft,
    AltRight,
    Unrecognized,
}

/// Abstract logical key delivered to the embedded application.
#[derive(Debug, Clone, PartialEq, Eq)]
pub enum Key {
    Character(String),
    Enter,
    Escape,
    Tab,
    Space,
    Backspace,
    Delete,
    ArrowUp,
    ArrowDown,
    ArrowLeft,
    ArrowRight,
    Home,
    End,
    PageUp,
    PageDown,
    Shift,
    Control,
    Alt,
    Unidentified,
}

/// Abstract physical key code delivered to the embedded application.
#[derive(Debug, Clone, Copy, PartialEq, Eq)]
pub enum Code {
    Enter,
    Escape,
    Tab,
    Space,
    Backspace,
    Delete,
    ArrowUp,
    ArrowDown,
    ArrowLeft,
    ArrowRight,
    Home,
    End,
    PageUp,
    PageDown,
    ShiftLeft,
    ShiftRight,
    ControlLeft,
    ControlRight,
    AltLeft,
    AltRight,
    Unidentified,
}

/// Active modifier keys as the native windowing layer reports them.
#[derive(Debug, Clone, Copy, PartialEq, Eq, Structural)]
pub struct NativeModifiers {
    pub shift: bool,
    pub control: bool,
    pub alt: bool,
    pub meta: bool,
}

impl NativeModifiers {
    /// The empty modifier state: no modifier key is held.
    pub fn empty() -> (r: NativeModifiers)
        ensures
            r == (NativeModifiers { shift: false, control: false, alt: false, meta: false }),
    {
        NativeModifiers { shift: false, control: false, alt: false, meta: false }
    }
}

/// Abstract modifier set delivered to the embedded application.
#[derive(Debug, Clone, Copy, PartialEq, Eq, Structural)]
pub struct Modifiers {
    pub shift: bool,
    pub control: bool,
    pub alt: bool,
    pub meta: bool,
}

/// What [`translate_named_key`] returns for each named native key.
pub open spec fn spec_translate_named_key(named: NativeNamedKey) -> Key {
    match named {
        NativeNamedKey::Enter => Key::Enter,
        NativeNamedKey::Escape => Key::Escape,
        NativeNamedKey::Tab => Key::Tab,
        NativeNamedKey::Space => Key::Space,
        NativeNamedKey::Backspace => Key::Backspace,
        NativeNamedKey::Delete => Key::Delete,
        NativeNamedKey::ArrowUp => Key::ArrowUp,
        NativeNamedKey::ArrowDown => Key::ArrowDown,
        NativeNamedKey::ArrowLeft => Key::ArrowLeft,
        NativeNamedKey::ArrowRight => Key::ArrowRight,
        NativeNamedKey::Home => Key::Home,
        NativeNamedKey::End => Key::End,
        NativeNamedKey::PageUp => Key::PageUp,
        NativeNamedKey::PageDown => Key::PageDown,
        NativeNamedKey::Shift => Key::Shift,
        NativeNamedKey::Control => Key::Control,
        NativeNamedKey::Alt => Key::Alt,
        NativeNamedKey::Unrecognized => Key::Unidentified,
    }
}

/// What [`translate_key`] returns: character keys keep their text, named
/// keys map one to one, everything else degrades to the sentinel.
pub open spec fn spec_translate_key(native: NativeKey) -> Key {
    match native {
        NativeKey::Named(named) => spec_translate_named_key(named),
        NativeKey::Character(text) => Key::Character(text),
        NativeKey::Unidentified => Key::Unidentified,
    }
}

/// What [`translate_physical_key`] returns for each physical native code.
pub open spec fn spec_translate_key_code(code: NativeKeyCode) -> Code {
    match code {
        NativeKeyCode::Enter => Code::Enter,
        NativeKeyCode::Escape => Code::Escape,
        NativeKeyCode::Tab => Code::Tab,
        NativeKeyCode::Space => Code::Space,
        NativeKeyCode::Backspace => Code::Backspace,
        NativeKeyCode::Delete => Code::Delete,
        NativeKeyCode::ArrowUp => Code::ArrowUp,
        NativeKeyCode::ArrowDown => Code::ArrowDown,
        NativeKeyCode::ArrowLeft => Code::ArrowLeft,
        NativeKeyCode::ArrowRight => Code::ArrowRight,
        NativeKeyCode::Home => Code::Home,
        NativeKeyCode::End => Code::End,
        NativeKeyCode::PageUp => Code::PageUp,
        NativeKeyCode::PageDown => Code::PageDown,
        NativeKeyCode::ShiftLeft => Code::ShiftLeft,
        NativeKeyCode::ShiftRight => Code::ShiftRight,
        NativeKeyCode::ControlLeft => Code::ControlLeft,
        NativeKeyCode::ControlRight => Code::ControlRight,
        NativeKeyCode::AltLeft => Code::AltLeft,
        NativeKeyCode::AltRight => Code::AltRight,
        NativeKeyCode::Unrecognized => Code::Unidentified,
    }
}

/// What [`translate_physical_key`] returns.
pub open spec fn spec_translate_physical_key(native: NativePhysicalKey) -> Code {
    match native {
        NativePhysicalKey::Code(code) => spec_translate_key_code(code),
        NativePhysicalKey::Unidentified => Code::Unidentified,
    }
}

/// What [`translate_modifiers`] returns: the modifier bits carry over
/// unchanged into the abstract vocabulary.
pub open spec fn spec_translate_modifiers(native: NativeModifiers) -> Modifiers {
    Modifiers {
        shift: native.shift,
        control: native.control,
        alt: native.alt,
        meta: native.meta,
    }
}

/// Translates a named native key into the abstract logical key.
pub fn translate_named_key(named: NativeNamedKey) -> (r: Key)
    ensures
        r == spec_translate_named_key(named),
{
    match named {
        NativeNamedKey::Enter => Key::Enter,
        NativeNamedKey::Escape => Key::Escape,
        NativeNamedKey::Tab => Key::Tab,
        NativeNamedKey::Space => Key::Space,
        NativeNamedKey::Backspace => Key::Backspace,
        NativeNamedKey::Delete => Key::Delete,
        NativeNamedKey::ArrowUp => Key::ArrowUp,
        NativeNamedKey::ArrowDown => Key::ArrowDown,
        NativeNamedKey::ArrowLeft => Key::ArrowLeft,
        NativeNamedKey::ArrowRight => Key::ArrowRight,
        NativeNamedKey::Home => Key::Home,
        NativeNamedKey::End => Key::End,
        NativeNamedKey::PageUp => Key::PageUp,
        NativeNamedKey::PageDown => Key::PageDown,
        NativeNamedKey::Shift => Key::Shift,
        NativeNamedKey::Control => Key::Control,
        NativeNamedKey::Alt => Key::Alt,
        NativeNamedKey::Unrecognized => Key::Unidentified,
    }
}

/// Translates a native logical key into the abstract logical key. Total:
/// unrecognized input degrades to [`Key::Unidentified`].
pub fn translate_key(native: NativeKey) -> (r: Key)
    ensures
        r == spec_translate_key(native),
{
    match native {
        NativeKey::Named(named) => translate_named_key(named),
        NativeKey::Character(text) => Key::Character(text),
        NativeKey::Unidentified => Key::Unidentified,
    }
}

/// Translates a native physical key into the abstract code. Total:
/// unrecognized input degrades to [`Code::Unidentified`].
pub fn translate_physical_key(native: NativePhysicalKey) -> (r: Code)
    ensures
        r == spec_translate_physical_key(native),
{
    match native {
        NativePhysicalKey::Code(code) => match code {
            NativeKeyCode::Enter => Code::Enter,
            NativeKeyCode::Escape => Code::Escape,
            NativeKeyCode::Tab => Code::Tab,
            NativeKeyCode::Space => Code::Space,
            NativeKeyCode::Backspace => Code::Backspace,
            NativeKeyCode::Delete => Code::Delete,
            NativeKeyCode::ArrowUp => Code::ArrowUp,
            NativeKeyCode::ArrowDown => Code::ArrowDown,
            NativeKeyCode::ArrowLeft => Code::ArrowLeft,
            NativeKeyCode::ArrowRight => Code::ArrowRight,
            NativeKeyCode::Home => Code::Home,
            NativeKeyCode::End => Code::End,
            NativeKeyCode::PageUp => Code::PageUp,
            NativeKeyCode::PageDown => Code::PageDown,
            NativeKeyCode::ShiftLeft => Code::ShiftLeft,
            NativeKeyCode::ShiftRight => Code::ShiftRight,
            NativeKeyCode::ControlLeft => Code::ControlLeft,
            NativeKeyCode::ControlRight => Code::ControlRight,
            NativeKeyCode::AltLeft => Code::AltLeft,
            NativeKeyCode::AltRight => Code::AltRight,
            NativeKeyCode::Unrecognized => Code::Unidentified,
        },
        NativePhysicalKey::Unidentified => Code::Unidentified,
    }
}

/// Translates the native modifier state into the abstract modifier set.
pub fn translate_modifiers(native: NativeModifiers) -> (r: Modifiers)
    ensures
        r == spec_translate_modifiers(native),
{
    Modifiers {
        shift: native.shift,
        control: native.control,
        alt: native.alt,
        meta: native.meta,
    }
}

} // verus!
