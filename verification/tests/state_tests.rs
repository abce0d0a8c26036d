use contrasity::state::{ColorState, SharedColorState};

#[test]
fn test_default_state() {
    let state = ColorState::default();
    assert_eq!(state.fg, (0, 255, 255));
    assert_eq!(state.bg, (0, 0, 0));
    assert!(!state.shutdown);
}

#[test]
fn test_write_then_read() {
    let mut state = ColorState::default();
    state.write((10, 20, 30), (40, 50, 60));
    assert_eq!(state.read(), ((10, 20, 30), (40, 50, 60)));
    // a second write fully replaces the pair: no channel of the first
    // write survives
    state.write((1, 2, 3), (4, 5, 6));
    assert_eq!(state.read(), ((1, 2, 3), (4, 5, 6)));
    assert!(!state.shutdown);
}

#[test]
fn test_request_shutdown_keeps_pair() {
    let mut state = ColorState::default();
    state.write((9, 8, 7), (6, 5, 4));
    state.request_shutdown();
    assert!(state.is_shutdown_requested());
    assert_eq!(state.read(), ((9, 8, 7), (6, 5, 4)));
}

#[test]
fn test_shared_state_write_then_read() {
    let shared = SharedColorState::new(ColorState::default());
    assert_eq!(shared.read(), ((0, 255, 255), (0, 0, 0)));
    shared.write((10, 20, 30), (40, 50, 60));
    assert_eq!(shared.read(), ((10, 20, 30), (40, 50, 60)));
    shared.write((200, 0, 0), (0, 0, 200));
    assert_eq!(shared.read(), ((200, 0, 0), (0, 0, 200)));
}

#[test]
fn test_shared_state_shutdown() {
    let shared = SharedColorState::new(ColorState::default());
    assert!(!shared.is_shutdown_requested());
    shared.write((1, 1, 1), (2, 2, 2));
    shared.request_shutdown();
    assert!(shared.is_shutdown_requested());
    // the shutdown signal leaves the pair untouched
    assert_eq!(shared.read(), ((1, 1, 1), (2, 2, 2)));
}
