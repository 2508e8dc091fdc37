use bpm::key::{classify, InputEvent, KeyCode, KeyEvent, KeyKind, Modifiers, Signal};

fn with(code: KeyCode, modifiers: Modifiers, kind: KeyKind) -> InputEvent {
    InputEvent::Key(KeyEvent { code, modifiers, kind })
}

fn plain(code: KeyCode, kind: KeyKind) -> InputEvent {
    with(code, Modifiers::none(), kind)
}

fn control() -> Modifiers {
    Modifiers { control: true, ..Modifiers::none() }
}

fn shift() -> Modifiers {
    Modifiers { shift: true, ..Modifiers::none() }
}

#[test]
fn no_modifiers_is_empty() {
    let none = Modifiers::none();
    assert!(none.is_empty());
    assert!(!none.is_control_only());
    assert_eq!(
        none,
        Modifiers { shift: false, control: false, alt: false, logo: false, hyper: false, meta: false }
    );
}

#[test]
fn each_modifier_alone_is_not_empty() {
    let none = Modifiers::none();
    let each = [
        Modifiers { shift: true, ..none },
        Modifiers { control: true, ..none },
        Modifiers { alt: true, ..none },
        Modifiers { logo: true, ..none },
        Modifiers { hyper: true, ..none },
        Modifiers { meta: true, ..none },
    ];
    for (index, modifiers) in each.iter().enumerate() {
        assert!(!modifiers.is_empty());
        assert_eq!(modifiers.is_control_only(), index == 1);
    }
}

#[test]
fn control_with_another_modifier_is_not_control_only() {
    let none = Modifiers::none();
    assert!(!Modifiers { control: true, shift: true, ..none }.is_control_only());
    assert!(!Modifiers { control: true, alt: true, ..none }.is_control_only());
    assert!(!Modifiers { control: true, logo: true, ..none }.is_control_only());
    assert!(!Modifiers { control: true, hyper: true, ..none }.is_control_only());
    assert!(!Modifiers { control: true, meta: true, ..none }.is_control_only());
}

#[test]
fn plain_character_is_a_tap_without_enhancement() {
    for kind in [KeyKind::Press, KeyKind::Repeat, KeyKind::Release] {
        assert_eq!(classify(false, &plain(KeyCode::Char('a'), kind)), Signal::Tap);
    }
    assert_eq!(classify(false, &plain(KeyCode::Char(' '), KeyKind::Press)), Signal::Tap);
    assert_eq!(classify(false, &plain(KeyCode::Char('c'), KeyKind::Press)), Signal::Tap);
    assert_eq!(classify(false, &plain(KeyCode::Char('C'), KeyKind::Press)), Signal::Tap);
}

#[test]
fn enhanced_terminal_hears_the_release_only() {
    assert_eq!(classify(true, &plain(KeyCode::Char('a'), KeyKind::Press)), Signal::Ignore);
    assert_eq!(classify(true, &plain(KeyCode::Char('a'), KeyKind::Repeat)), Signal::Ignore);
    assert_eq!(classify(true, &plain(KeyCode::Char('a'), KeyKind::Release)), Signal::Tap);
    assert_eq!(classify(true, &plain(KeyCode::Esc, KeyKind::Press)), Signal::Ignore);
    assert_eq!(classify(true, &plain(KeyCode::Esc, KeyKind::Repeat)), Signal::Ignore);
    assert_eq!(classify(true, &plain(KeyCode::Esc, KeyKind::Release)), Signal::Stop);
    assert_eq!(classify(true, &with(KeyCode::Char('c'), control(), KeyKind::Press)), Signal::Ignore);
    assert_eq!(classify(true, &with(KeyCode::Char('c'), control(), KeyKind::Release)), Signal::Stop);
}

#[test]
fn escape_stops_with_any_modifiers() {
    assert_eq!(classify(false, &plain(KeyCode::Esc, KeyKind::Press)), Signal::Stop);
    assert_eq!(classify(false, &with(KeyCode::Esc, shift(), KeyKind::Press)), Signal::Stop);
    assert_eq!(classify(false, &with(KeyCode::Esc, control(), KeyKind::Press)), Signal::Stop);
}

#[test]
fn control_c_stops_in_either_case() {
    assert_eq!(classify(false, &with(KeyCode::Char('c'), control(), KeyKind::Press)), Signal::Stop);
    assert_eq!(classify(false, &with(KeyCode::Char('C'), control(), KeyKind::Press)), Signal::Stop);
}

#[test]
fn control_with_another_key_or_modifier_is_ignored() {
    let control_shift = Modifiers { shift: true, ..control() };
    let control_alt = Modifiers { alt: true, ..control() };
    assert_eq!(classify(false, &with(KeyCode::Char('c'), control_shift, KeyKind::Press)), Signal::Ignore);
    assert_eq!(classify(false, &with(KeyCode::Char('C'), control_alt, KeyKind::Press)), Signal::Ignore);
    assert_eq!(classify(false, &with(KeyCode::Char('x'), control(), KeyKind::Press)), Signal::Ignore);
    assert_eq!(classify(false, &with(KeyCode::Char('d'), control(), KeyKind::Press)), Signal::Ignore);
}

#[test]
fn character_with_a_modifier_is_never_a_tap() {
    let none = Modifiers::none();
    let each = [
        Modifiers { shift: true, ..none },
        Modifiers { alt: true, ..none },
        Modifiers { logo: true, ..none },
        Modifiers { hyper: true, ..none },
        Modifiers { meta: true, ..none },
        Modifiers { control: true, ..none },
        Modifiers { shift: true, alt: true, ..none },
    ];
    for enhanced in [false, true] {
        for modifiers in each {
            for kind in [KeyKind::Press, KeyKind::Repeat, KeyKind::Release] {
                for letter in ['a', 'A', 'c', 'C', '1', ' '] {
                    let event = with(KeyCode::Char(letter), modifiers, kind);
                    assert_ne!(classify(enhanced, &event), Signal::Tap);
                }
            }
        }
    }
}

#[test]
fn other_keys_and_other_events_are_ignored() {
    for enhanced in [false, true] {
        for kind in [KeyKind::Press, KeyKind::Repeat, KeyKind::Release] {
            assert_eq!(classify(enhanced, &plain(KeyCode::Other, kind)), Signal::Ignore);
            assert_eq!(classify(enhanced, &with(KeyCode::Other, control(), kind)), Signal::Ignore);
        }
        assert_eq!(classify(enhanced, &InputEvent::Other), Signal::Ignore);
    }
}
