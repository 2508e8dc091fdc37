//! Keyboard events as the terminal delivers them, and the policy that
//! turns one event into a signal for the tap session.

use vstd::prelude::*;

verus! {

/// The identity of a key, as far as the session cares about it.
#[derive(Clone, Copy, Debug, PartialEq, Eq, Structural)]
pub enum KeyCode {
    /// A printable character key.
    Char(char),
    /// The escape key.
    Esc,
    /// Any other key: arrows, function keys, enter and the like.
    Other,
}

/// Which part of a key stroke an event reports.
///
/// A terminal without enhanced keyboard reporting delivers every stroke as
/// a single `Press`.
#[derive(Clone, Copy, Debug, PartialEq, Eq, Structural)]
pub enum KeyKind {
    Press,
    Repeat,
    Release,
}

/// The modifier keys held down while a key event was produced.
#[derive(Clone, Copy, Debug, PartialEq, Eq, Structural)]
pub struct Modifiers {
    pub shift: bool,
    pub control: bool,
    pub alt: bool,
    pub logo: bool,
    pub hyper: bool,
    pub meta: bool,
}

impl Modifiers {
    /// No modifier is held.
    pub open spec fn spec_is_empty(&self) -> bool {
        !self.shift && !self.control && !self.alt && !self.logo && !self.hyper && !self.meta
    }

    /// Control is held and nothing else.
    pub open spec fn spec_is_control_only(&self) -> bool {
        self.control && !self.shift && !self.alt && !self.logo && !self.hyper && !self.meta
    }

    /// The empty set of modifiers.
    pub fn none() -> (m: Modifiers)
        ensures
            m.is_empty(),
    {
        Modifiers {
            shift: false,
            control: false,
            alt: false,
            logo: false,
            hyper: false,
            meta: false,
        }
    }

    /// Tells whether no modifier is held.
    #[verifier::when_used_as_spec(spec_is_empty)]
    pub fn is_empty(&self) -> (b: bool)
        ensures
            b == self.spec_is_empty(),
    {
        !self.shift && !self.control && !self.alt && !self.logo && !self.hyper && !self.meta
    }

    /// Tells whether control is held and nothing else.
    #[verifier::when_used_as_spec(spec_is_control_only)]
    pub fn is_control_only(&self) -> (b: bool)
        ensures
            b == self.spec_is_control_only(),
    {
        self.control && !self.shift && !self.alt && !self.logo && !self.hyper && !self.meta
    }
}

/// One key event: the key, the modifiers held with it, and the part of the
/// stroke that is reported.
#[derive(Clone, Copy, Debug, PartialEq, Eq, Structural)]
pub struct KeyEvent {
    pub code: KeyCode,
    pub modifiers: Modifiers,
    pub kind: KeyKind,
}

/// One input event of the terminal.
#[derive(Clone, Copy, Debug, PartialEq, Eq, Structural)]
pub enum InputEvent {
    /// A key event.
    Key(KeyEvent),
    /// Anything that is not a key event: mouse, resize, focus, paste.
    Other,
}

/// What an input event means to the tap session.
#[derive(Clone, Copy, Debug, PartialEq, Eq, Structural)]
pub enum Signal {
    /// One accepted tap.
    Tap,
    /// The request to stop: escape, or control together with `c`.
    Stop,
    /// Nothing: the event is passed over.
    Ignore,
}

/// Whether a key event is listened to at all.
///
/// With enhanced reporting every stroke arrives as a press, any number of
/// repeats and a release; only the release is heard, so that a stroke is
/// heard once. Without it every event is heard.
pub open spec fn is_heard(enhanced: bool, key: KeyEvent) -> bool {
    enhanced ==> key.kind is Release
}

/// Whether a key asks to stop: escape with any modifiers, or `c` in either
/// case with control and no other modifier.
pub open spec fn is_stop_key(key: KeyEvent) -> bool {
    match key.code {
        KeyCode::Esc => true,
        KeyCode::Char(c) => (c == 'c' || c == 'C') && key.modifiers.is_control_only(),
        KeyCode::Other => false,
    }
}

/// Whether a key is a tap: a character key with no modifier held.
pub open spec fn is_tap_key(key: KeyEvent) -> bool {
    key.code is Char && key.modifiers.is_empty()
}

/// The signal that an input event gives, on a terminal with or without
/// enhanced keyboard reporting.
pub open spec fn signal_of(enhanced: bool, event: InputEvent) -> Signal {
    match event {
        InputEvent::Other => Signal::Ignore,
        InputEvent::Key(key) => {
            if !is_heard(enhanced, key) {
                Signal::Ignore
            } else if is_stop_key(key) {
                Signal::Stop
            } else if is_tap_key(key) {
                Signal::Tap
            } else {
                Signal::Ignore
            }
        },
    }
}

/// Classifies one input event.
pub fn classify(enhanced: bool, event: &InputEvent) -> (signal: Signal)
    ensures
        signal == signal_of(enhanced, *event),
{
    match event {
        InputEvent::Other => Signal::Ignore,
        InputEvent::Key(key) => {
            if enhanced && !matches!(key.kind, KeyKind::Release) {
                return Signal::Ignore;
            }
            match key.code {
                KeyCode::Esc => Signal::Stop,
                KeyCode::Char(c) => {
                    if (c == 'c' || c == 'C') && key.modifiers.is_control_only() {
                        Signal::Stop
                    } else if key.modifiers.is_empty() {
                        Signal::Tap
                    } else {
                        Signal::Ignore
                    }
                },
                KeyCode::Other => Signal::Ignore,
            }
        },
    }
}

/// A character key held together with any modifier is never a tap, and a
/// key that is a tap is never a stop.
pub proof fn law_modified_key_is_no_tap(enhanced: bool, key: KeyEvent)
    ensures
        key.code is Char && !key.modifiers.is_empty() ==> signal_of(enhanced, InputEvent::Key(key))
            != Signal::Tap,
        is_tap_key(key) ==> !is_stop_key(key),
{
}

/// Only the release of a stroke is heard on an enhanced terminal: a press
/// or a repeat gives no signal, whatever key it is.
pub proof fn law_enhanced_hears_release_only(key: KeyEvent)
    ensures
        !(key.kind is Release) ==> signal_of(true, InputEvent::Key(key)) == Signal::Ignore,
        signal_of(true, InputEvent::Key(KeyEvent { kind: KeyKind::Release, ..key })) == signal_of(
            false,
            InputEvent::Key(key),
        ),
{
}

} // verus!
