use demo_mod::state::ExtensionState;

#[test]
fn state_starts_hidden_at_frame_zero() {
    let state = ExtensionState::new();
    assert!(!state.overlay_visible);
    assert_eq!(state.frame_counter, 0);
    assert_eq!(ExtensionState::default(), state);
}

#[test]
fn toggle_overlay_returns_the_new_visibility() {
    let mut state = ExtensionState::new();
    assert!(state.toggle_overlay());
    assert!(state.overlay_visible);
    assert!(!state.toggle_overlay());
    assert!(!state.overlay_visible);
}

#[test]
fn toggle_overlay_twice_restores_the_state() {
    for visible in [false, true] {
        let before = ExtensionState { overlay_visible: visible, frame_counter: 17 };
        let mut state = before;
        state.toggle_overlay();
        assert_ne!(state, before);
        state.toggle_overlay();
        assert_eq!(state, before);
    }
}

#[test]
fn toggle_overlay_leaves_the_frame_counter() {
    let mut state = ExtensionState { overlay_visible: false, frame_counter: 99 };
    state.toggle_overlay();
    assert_eq!(state.frame_counter, 99);
}

#[test]
fn increment_frame_counts_by_one() {
    let mut state = ExtensionState::new();
    for expected in 1u32..=1000 {
        assert_eq!(state.increment_frame(), expected);
        assert_eq!(state.frame_counter, expected);
    }
    assert!(!state.overlay_visible);
}

#[test]
fn increment_frame_wraps_to_zero_after_the_maximum() {
    let mut state = ExtensionState { overlay_visible: true, frame_counter: u32::MAX - 1 };
    assert_eq!(state.increment_frame(), u32::MAX);
    assert_eq!(state.increment_frame(), 0);
    assert_eq!(state.increment_frame(), 1);
    assert!(state.overlay_visible);
}
