use bpm::key::{InputEvent, KeyCode, KeyEvent, KeyKind, Modifiers};
use bpm::report::Tally;
use bpm::session::{Phase, Session};

fn key(code: KeyCode, kind: KeyKind) -> InputEvent {
    InputEvent::Key(KeyEvent { code, modifiers: Modifiers::none(), kind })
}

fn press(letter: char) -> InputEvent {
    key(KeyCode::Char(letter), KeyKind::Press)
}

fn escape() -> InputEvent {
    key(KeyCode::Esc, KeyKind::Press)
}

fn control_c() -> InputEvent {
    InputEvent::Key(KeyEvent {
        code: KeyCode::Char('c'),
        modifiers: Modifiers { control: true, ..Modifiers::none() },
        kind: KeyKind::Press,
    })
}

fn figures(session: &Session) -> (Phase, u128, u128, u32) {
    (session.phase(), session.start(), session.last(), session.count())
}

#[test]
fn fresh_session_waits() {
    for enhanced in [false, true] {
        let session = Session::new(enhanced);
        assert_eq!(session.enhanced(), enhanced);
        assert_eq!(figures(&session), (Phase::Waiting, 0, 0, 0));
        assert!(!session.is_over());
        assert!(session.has_room());
        assert_eq!(session.tally(), None);
    }
}

#[test]
fn first_tap_starts_the_timer_and_is_not_counted() {
    let mut session = Session::new(false);
    session.hear(&press('a'), 7_000);
    assert_eq!(figures(&session), (Phase::Measuring, 7_000, 7_000, 0));
    assert!(!session.is_over());
    assert_eq!(session.tally(), None);
}

#[test]
fn later_taps_are_counted_and_move_last() {
    let mut session = Session::new(false);
    session.hear(&press('a'), 100);
    session.hear(&press('b'), 250);
    assert_eq!(figures(&session), (Phase::Measuring, 100, 250, 1));
    session.hear(&press('b'), 400);
    session.hear(&press(' '), 900);
    assert_eq!(figures(&session), (Phase::Measuring, 100, 900, 3));
}

#[test]
fn stop_while_waiting_cancels() {
    for stop in [escape(), control_c()] {
        let mut session = Session::new(false);
        session.hear(&stop, 5);
        assert_eq!(figures(&session), (Phase::Cancelled, 0, 0, 0));
        assert!(session.is_over());
        assert_eq!(session.tally(), None);
    }
}

#[test]
fn stop_while_measuring_finishes() {
    for stop in [escape(), control_c()] {
        let mut session = Session::new(false);
        session.hear(&press('a'), 1_000);
        session.hear(&press('a'), 2_000);
        session.hear(&stop, 9_999);
        assert_eq!(figures(&session), (Phase::Finished, 1_000, 2_000, 1));
        assert!(session.is_over());
        assert_eq!(session.tally(), Some(Tally { count: 1, micros: 1_000 }));
    }
}

#[test]
fn stop_right_after_the_first_tap_gives_an_empty_tally() {
    let mut session = Session::new(false);
    session.hear(&press('a'), 123_456);
    session.hear(&escape(), 200_000);
    assert_eq!(session.tally(), Some(Tally { count: 0, micros: 0 }));
}

#[test]
fn three_taps_half_a_second_apart() {
    let mut session = Session::new(false);
    session.hear(&press('a'), 0);
    session.hear(&press('b'), 500_000);
    session.hear(&press('c'), 1_000_000);
    session.hear(&escape(), 1_001_000);
    assert_eq!(figures(&session), (Phase::Finished, 0, 1_000_000, 2));
    let tally = session.tally().unwrap();
    assert_eq!(tally, Tally { count: 2, micros: 1_000_000 });
    assert_eq!(tally.tempo_line(), "120.00 BPM");
    assert_eq!(tally.presses_line(), "2 presses in 1.0s");
}

#[test]
fn ended_session_hears_nothing() {
    let mut finished = Session::new(false);
    finished.hear(&press('a'), 10);
    finished.hear(&press('a'), 20);
    finished.hear(&escape(), 30);
    let mut cancelled = Session::new(false);
    cancelled.hear(&escape(), 30);
    for session in [&mut finished, &mut cancelled] {
        let before = figures(session);
        session.hear(&press('a'), 40);
        session.hear(&escape(), 50);
        session.hear(&control_c(), 60);
        session.hear(&InputEvent::Other, 70);
        assert_eq!(figures(session), before);
    }
}

#[test]
fn ignored_events_change_nothing() {
    let shifted = InputEvent::Key(KeyEvent {
        code: KeyCode::Char('A'),
        modifiers: Modifiers { shift: true, ..Modifiers::none() },
        kind: KeyKind::Press,
    });
    let others = [shifted, key(KeyCode::Other, KeyKind::Press), InputEvent::Other];
    let mut session = Session::new(false);
    for event in &others {
        session.hear(event, 11);
    }
    assert_eq!(figures(&session), (Phase::Waiting, 0, 0, 0));
    session.hear(&press('a'), 20);
    for event in &others {
        session.hear(event, 30);
    }
    assert_eq!(figures(&session), (Phase::Measuring, 20, 20, 0));
}

#[test]
fn modified_character_never_starts_the_timer() {
    let none = Modifiers::none();
    let held = [
        Modifiers { shift: true, ..none },
        Modifiers { alt: true, ..none },
        Modifiers { logo: true, ..none },
        Modifiers { hyper: true, ..none },
        Modifiers { meta: true, ..none },
        Modifiers { control: true, ..none },
    ];
    for enhanced in [false, true] {
        for modifiers in held {
            for kind in [KeyKind::Press, KeyKind::Repeat, KeyKind::Release] {
                let mut session = Session::new(enhanced);
                let event = InputEvent::Key(KeyEvent { code: KeyCode::Char('a'), modifiers, kind });
                session.hear(&event, 99);
                assert_eq!(figures(&session), (Phase::Waiting, 0, 0, 0));
                session.hear(&key(KeyCode::Char('a'), KeyKind::Release), 100);
                session.hear(&event, 200);
                assert_eq!(figures(&session), (Phase::Measuring, 100, 100, 0));
            }
        }
    }
}

#[test]
fn enhanced_stroke_is_counted_once() {
    let mut session = Session::new(true);
    let mut now = 0;
    for letter in ['a', 'b', 'c', 'd'] {
        session.hear(&key(KeyCode::Char(letter), KeyKind::Press), now);
        session.hear(&key(KeyCode::Char(letter), KeyKind::Repeat), now + 10);
        session.hear(&key(KeyCode::Char(letter), KeyKind::Repeat), now + 20);
        session.hear(&key(KeyCode::Char(letter), KeyKind::Release), now + 30);
        now += 1_000;
    }
    assert_eq!(figures(&session), (Phase::Measuring, 30, 3_030, 3));
    session.hear(&key(KeyCode::Esc, KeyKind::Press), 5_000);
    assert_eq!(session.phase(), Phase::Measuring);
    session.hear(&key(KeyCode::Esc, KeyKind::Release), 5_050);
    assert_eq!(session.tally(), Some(Tally { count: 3, micros: 3_000 }));
}

#[test]
fn count_is_the_same_with_and_without_enhancement() {
    for strokes in 1..20u32 {
        let mut plain = Session::new(false);
        let mut enhanced = Session::new(true);
        for stroke in 0..strokes {
            let at = u128::from(stroke) * 250_000;
            plain.hear(&key(KeyCode::Char('x'), KeyKind::Press), at);
            enhanced.hear(&key(KeyCode::Char('x'), KeyKind::Press), at);
            for repeat in 0..(stroke % 3) {
                enhanced.hear(&key(KeyCode::Char('x'), KeyKind::Repeat), at + u128::from(repeat));
            }
            enhanced.hear(&key(KeyCode::Char('x'), KeyKind::Release), at + 100);
        }
        assert_eq!(plain.count(), strokes - 1);
        assert_eq!(enhanced.count(), strokes - 1);
        assert_eq!(plain.phase(), Phase::Measuring);
        assert_eq!(enhanced.phase(), Phase::Measuring);
        assert_eq!(plain.last() - plain.start(), enhanced.last() - enhanced.start());
    }
}

#[test]
fn clock_that_runs_backwards_gives_no_time() {
    let mut session = Session::new(false);
    session.hear(&press('a'), 5_000);
    session.hear(&press('a'), 4_000);
    session.hear(&escape(), 6_000);
    assert_eq!(figures(&session), (Phase::Finished, 5_000, 4_000, 1));
    assert_eq!(session.tally(), Some(Tally { count: 1, micros: 0 }));
}

#[test]
fn times_may_use_the_whole_range() {
    let mut session = Session::new(false);
    session.hear(&press('a'), 0);
    session.hear(&press('a'), u128::MAX);
    session.hear(&escape(), u128::MAX);
    assert_eq!(session.tally(), Some(Tally { count: 1, micros: u128::MAX }));
}
