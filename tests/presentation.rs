use chimper::bridge::{classify, Classification, KeyCode, KeyState, NativeEvent};
use chimper::pacing::{pacing_delay, FRAME_BUDGET_NANOS};
use chimper::presentation::{latest_of, FullscreenChange, PresentationLoop};

fn key(k: KeyCode, s: KeyState) -> NativeEvent {
    NativeEvent::Keyboard { key: Some(k), state: s }
}

#[test]
fn escape_press_and_close_terminate() {
    let esc = classify(&key(KeyCode::Escape, KeyState::Pressed));
    assert_eq!(esc, Classification { terminate: true, toggle_fullscreen: false });
    let close = classify(&NativeEvent::CloseRequested);
    assert_eq!(close, Classification { terminate: true, toggle_fullscreen: false });
}

#[test]
fn escape_release_does_not_terminate() {
    let c = classify(&key(KeyCode::Escape, KeyState::Released));
    assert_eq!(c, Classification { terminate: false, toggle_fullscreen: false });
}

#[test]
fn only_f11_press_toggles_fullscreen() {
    let down = classify(&key(KeyCode::F11, KeyState::Pressed));
    assert_eq!(down, Classification { terminate: false, toggle_fullscreen: true });
    let up = classify(&key(KeyCode::F11, KeyState::Released));
    assert_eq!(up, Classification { terminate: false, toggle_fullscreen: false });
}

#[test]
fn other_events_are_not_classified() {
    let none = Classification { terminate: false, toggle_fullscreen: false };
    assert_eq!(classify(&NativeEvent::Other), none);
    assert_eq!(classify(&key(KeyCode::Other, KeyState::Pressed)), none);
    assert_eq!(classify(&NativeEvent::Keyboard { key: None, state: KeyState::Pressed }), none);
}

#[test]
fn pacing_waits_out_the_budget() {
    assert_eq!(pacing_delay(0, 16_000_000), 16_000_000);
    assert_eq!(pacing_delay(5_000_000, 16_000_000), 11_000_000);
    assert_eq!(pacing_delay(16_000_000, 16_000_000), 0);
    assert_eq!(pacing_delay(40_000_000, 16_000_000), 0);
    assert_eq!(pacing_delay(u64::MAX, 16_000_000), 0);
    assert_eq!(FRAME_BUDGET_NANOS, 16_000_000);
}

#[test]
fn loop_paces_with_its_budget() {
    let l = PresentationLoop::new(FRAME_BUDGET_NANOS);
    assert_eq!(l.pace(1_000_000), 15_000_000);
    assert_eq!(l.pace(20_000_000), 0);
}

#[test]
fn observe_closes_and_toggles() {
    let mut l = PresentationLoop::new(FRAME_BUDGET_NANOS);
    assert!(!l.is_closed());
    assert!(!l.is_fullscreen());
    assert_eq!(l.observe(&key(KeyCode::F11, KeyState::Pressed)), Some(FullscreenChange::Enter));
    assert!(l.is_fullscreen());
    assert_eq!(l.observe(&key(KeyCode::F11, KeyState::Released)), None);
    assert!(l.is_fullscreen());
    assert_eq!(l.observe(&key(KeyCode::F11, KeyState::Pressed)), Some(FullscreenChange::Leave));
    assert!(!l.is_fullscreen());
    assert_eq!(l.observe(&key(KeyCode::Escape, KeyState::Released)), None);
    assert!(!l.is_closed());
    assert_eq!(l.observe(&NativeEvent::CloseRequested), None);
    assert!(l.is_closed());
    assert_eq!(l.observe(&NativeEvent::Other), None);
    assert!(l.is_closed());
}

#[test]
fn drain_keeps_only_the_latest_snapshot() {
    assert_eq!(latest_of(vec![1, 2, 3]), Some(3));
    assert_eq!(latest_of(vec![7]), Some(7));
    assert_eq!(latest_of(Vec::<u32>::new()), None);
}
