use pomodoro::clock::{SessionClock, Snapshot};
use pomodoro::display::{format_clock_face, format_decimal};
use pomodoro::phase::Phase;

fn snap(remaining_seconds: u32, running: bool, completed_sessions: u32) -> Snapshot {
    Snapshot { phase: Phase::Focus, remaining_seconds, running, completed_sessions }
}

#[test]
fn phase_labels() {
    assert_eq!(Phase::Focus.label(), "Focus");
    assert_eq!(Phase::Break.label(), "Break");
}

#[test]
fn control_labels() {
    assert_eq!(snap(10, true, 0).control_label(), "Pause");
    assert_eq!(snap(10, false, 0).control_label(), "Start");
}

#[test]
fn minutes_and_seconds() {
    let s = snap(1499, true, 0);
    assert_eq!(s.minutes(), 24);
    assert_eq!(s.seconds(), 59);
    let s = snap(1500, true, 0);
    assert_eq!(s.minutes(), 25);
    assert_eq!(s.seconds(), 0);
    let s = snap(59, true, 0);
    assert_eq!(s.minutes(), 0);
    assert_eq!(s.seconds(), 59);
    let s = snap(0, true, 0);
    assert_eq!(s.minutes(), 0);
    assert_eq!(s.seconds(), 0);
}

#[test]
fn clock_face_of_periods() {
    assert_eq!(format_clock_face(1500), "25:00");
    assert_eq!(format_clock_face(300), "05:00");
    assert_eq!(format_clock_face(0), "00:00");
}

#[test]
fn clock_face_pads_with_zero() {
    assert_eq!(format_clock_face(9), "00:09");
    assert_eq!(format_clock_face(60), "01:00");
    assert_eq!(format_clock_face(61), "01:01");
    assert_eq!(format_clock_face(599), "09:59");
    assert_eq!(format_clock_face(600), "10:00");
    assert_eq!(format_clock_face(1499), "24:59");
}

#[test]
fn clock_face_beyond_two_digits_of_minutes() {
    assert_eq!(format_clock_face(5999), "99:59");
    assert_eq!(format_clock_face(6000), "100:00");
    assert_eq!(format_clock_face(u32::MAX), "71582788:15");
}

#[test]
fn clock_face_matches_padded_division() {
    for seconds in 0u32..=1500 {
        let expected = format!("{:02}:{:02}", seconds / 60, seconds % 60);
        assert_eq!(format_clock_face(seconds), expected);
        assert_eq!(snap(seconds, false, 0).time_text(), expected);
    }
}

#[test]
fn decimal_text_of_numbers() {
    assert_eq!(format_decimal(0), "0");
    assert_eq!(format_decimal(7), "7");
    assert_eq!(format_decimal(10), "10");
    assert_eq!(format_decimal(1234567890), "1234567890");
    assert_eq!(format_decimal(u32::MAX), "4294967295");
    for n in 0u32..2000 {
        assert_eq!(format_decimal(n), format!("{}", n));
    }
}

#[test]
fn sessions_text_is_plain_decimal() {
    assert_eq!(snap(0, false, 0).sessions_text(), "0");
    assert_eq!(snap(0, false, 12).sessions_text(), "12");
}

#[test]
fn rendering_a_fresh_clock() {
    let clock = SessionClock::new();
    let view = clock.snapshot();
    assert_eq!(view.phase.label(), "Focus");
    assert_eq!(view.time_text(), "25:00");
    assert_eq!(view.sessions_text(), "0");
    assert_eq!(view.control_label(), "Start");
}

#[test]
fn rendering_after_a_completed_session() {
    let mut clock = SessionClock::new();
    clock.toggle_run();
    for _ in 0..1501 {
        clock.tick();
    }
    clock.tick();
    let view = clock.snapshot();
    assert_eq!(view.phase.label(), "Break");
    assert_eq!(view.time_text(), "04:59");
    assert_eq!(view.sessions_text(), "1");
    assert_eq!(view.control_label(), "Pause");
}
