use demo_mod::callbacks::{
    amod_client_cmd, amod_exit, amod_frame, amod_gamestart, amod_init, amod_keydown, amod_keyup,
    amod_mouse_click, amod_mouse_move, amod_tick, amod_version,
};
use demo_mod::host::{
    FrameView, GameSnapshot, HostCall, MaxStats, Palette, ScreenPoint, StatsView, STAT_ROW_LEN,
};
use demo_mod::overlay::render_frame;
use demo_mod::state::ExtensionState;

fn snapshot() -> GameSnapshot {
    GameSnapshot {
        hp: 50,
        mana: 20,
        gold: 1000,
        experience: 500,
        max_stats: MaxStats {
            hp: 100,
            mana: 40,
            wisdom: 11,
            intelligence: 12,
            agility: 13,
            strength: 14,
        },
        username: Some(String::from("Ishtar")),
    }
}

fn palette() -> Palette {
    Palette { white: 0x7FFF, text: 0x6318, health: 0x7C00, mana: 0x001F }
}

fn stats() -> StatsView {
    StatsView { snapshot: snapshot(), level: 5 }
}

fn view() -> FrameView {
    FrameView { origin: ScreenPoint { x: 0, y: 0 }, snapshot: snapshot(), palette: palette() }
}

#[test]
fn version_identifies_the_extension() {
    assert_eq!(amod_version(), "Rust Demo Mod 1.0.0");
}

#[test]
fn init_logs_one_message() {
    assert_eq!(
        amod_init(),
        vec![HostCall::Note { message: String::from("Rust Demo Mod initializing...") }]
    );
}

#[test]
fn exit_logs_one_message() {
    assert_eq!(
        amod_exit(),
        vec![HostCall::Note { message: String::from("Rust Demo Mod shutting down.") }]
    );
}

#[test]
fn gamestart_welcomes_the_player_by_name() {
    assert_eq!(
        amod_gamestart(&snapshot()),
        vec![
            HostCall::Note {
                message: String::from("Rust Demo Mod: Game started! Welcome, Ishtar"),
            },
            HostCall::ConsoleLine {
                line: String::from("Rust Demo Mod loaded. Type #hello for commands."),
            },
        ]
    );
}

#[test]
fn gamestart_with_an_empty_name() {
    let mut snapshot = snapshot();
    snapshot.username = Some(String::new());
    let calls = amod_gamestart(&snapshot);
    assert_eq!(calls.len(), 2);
    assert_eq!(
        calls[0],
        HostCall::Note { message: String::from("Rust Demo Mod: Game started! Welcome, ") }
    );
}

#[test]
fn gamestart_without_a_name_skips_the_welcome() {
    let mut snapshot = snapshot();
    snapshot.username = None;
    assert_eq!(
        amod_gamestart(&snapshot),
        vec![HostCall::ConsoleLine {
            line: String::from("Rust Demo Mod loaded. Type #hello for commands."),
        }]
    );
}

#[test]
fn gamestart_with_a_malformed_name_in_the_hosts_buffer_skips_the_welcome() {
    let row = [0i32; STAT_ROW_LEN];
    let mut name = [0u8; 40];
    name[..3].copy_from_slice(&[b'A', 0xFF, b'B']);
    let calls = amod_gamestart(&GameSnapshot::from_host(1, 1, 1, 1, &row, &name));
    assert_eq!(
        calls,
        vec![HostCall::ConsoleLine {
            line: String::from("Rust Demo Mod loaded. Type #hello for commands."),
        }]
    );
    name[1] = b'-';
    let calls = amod_gamestart(&GameSnapshot::from_host(1, 1, 1, 1, &row, &name));
    assert_eq!(
        calls[0],
        HostCall::Note { message: String::from("Rust Demo Mod: Game started! Welcome, A-B") }
    );
    assert_eq!(calls.len(), 2);
}

#[test]
fn tick_and_mouse_move_do_nothing() {
    amod_tick();
    amod_mouse_move(10, 20);
}

#[test]
fn input_is_never_consumed() {
    for value in [i32::MIN, -1, 0, 1, 27, i32::MAX] {
        assert!(!amod_mouse_click(value, value, value));
        assert!(!amod_keydown(value));
        assert!(!amod_keyup(value));
    }
}

#[test]
fn frame_counts_while_hidden_and_draws_nothing() {
    let mut state = ExtensionState::new();
    for expected in 1u32..=5 {
        let calls = amod_frame(&mut state, Some(&view()));
        assert!(calls.is_empty());
        assert_eq!(state, ExtensionState { overlay_visible: false, frame_counter: expected });
    }
}

#[test]
fn frame_while_hidden_needs_nothing_from_the_host() {
    let mut state = ExtensionState { overlay_visible: false, frame_counter: 7 };
    assert!(amod_frame(&mut state, None).is_empty());
    assert_eq!(state, ExtensionState { overlay_visible: false, frame_counter: 8 });
}

#[test]
fn frame_without_host_data_is_counted_and_not_drawn() {
    let mut state = ExtensionState { overlay_visible: true, frame_counter: 7 };
    assert!(amod_frame(&mut state, None).is_empty());
    assert_eq!(state, ExtensionState { overlay_visible: true, frame_counter: 8 });
}

#[test]
fn frame_draws_what_the_renderer_draws() {
    let mut state = ExtensionState { overlay_visible: true, frame_counter: 7 };
    let view = view();
    let calls = amod_frame(&mut state, Some(&view));
    assert_eq!(calls, render_frame(&state, view.origin, &view.snapshot, &view.palette));
    assert_eq!(calls.len(), 10);
}

#[test]
fn frame_counter_wraps_to_zero() {
    let mut state = ExtensionState { overlay_visible: true, frame_counter: u32::MAX - 1 };
    let calls = amod_frame(&mut state, Some(&view()));
    assert_eq!(state.frame_counter, u32::MAX);
    assert_eq!(
        calls[9],
        HostCall::Text { x: 14, y: 72, color: 0x6318, flags: 0, text: String::from("Frame: 4294967295") }
    );
    let calls = amod_frame(&mut state, Some(&view()));
    assert_eq!(state.frame_counter, 0);
    assert_eq!(
        calls[9],
        HostCall::Text { x: 14, y: 72, color: 0x6318, flags: 0, text: String::from("Frame: 0") }
    );
    assert!(state.overlay_visible);
}

#[test]
fn frame_shows_the_count_that_includes_itself() {
    let mut state = ExtensionState { overlay_visible: true, frame_counter: 41 };
    let calls = amod_frame(&mut state, Some(&view()));
    assert_eq!(calls.len(), 10);
    assert_eq!(
        calls[9],
        HostCall::Text { x: 14, y: 72, color: 0x6318, flags: 0, text: String::from("Frame: 42") }
    );
}

#[test]
fn client_cmd_reports_what_the_dispatcher_decides() {
    let mut state = ExtensionState::new();
    assert!(amod_client_cmd(&mut state, Some(b"#hello\0"), None).consumed);
    assert!(!amod_client_cmd(&mut state, Some(b"#Hello\0"), None).consumed);
    assert!(!amod_client_cmd(&mut state, Some(b"\0"), Some(&stats())).consumed);
    assert!(!amod_client_cmd(&mut state, None, Some(&stats())).consumed);
    assert_eq!(state, ExtensionState::new());
}

#[test]
fn client_cmd_answers_stats_from_what_was_read() {
    let mut state = ExtensionState::new();
    let outcome = amod_client_cmd(&mut state, Some(b"#stats\0"), Some(&stats()));
    assert!(outcome.consumed);
    assert_eq!(outcome.calls.len(), 4);
    assert_eq!(
        outcome.calls[0],
        HostCall::ConsoleLine { line: String::from("Level: 5  Experience: 500") }
    );
    assert_eq!(
        outcome.calls[1],
        HostCall::ConsoleLine { line: String::from("HP: 50/100  Mana: 20/40") }
    );
}

#[test]
fn overlay_command_then_frame_draws_the_panel() {
    let mut state = ExtensionState::new();
    assert!(amod_frame(&mut state, Some(&view())).is_empty());

    let outcome = amod_client_cmd(&mut state, Some(b"#overlay\0"), None);
    assert!(outcome.consumed);
    assert_eq!(outcome.calls, vec![HostCall::ConsoleLine { line: String::from("Overlay: ON") }]);
    assert!(state.overlay_visible);

    let calls = amod_frame(&mut state, Some(&view()));
    assert_eq!(calls.len(), 10);
    assert!(matches!(calls[0], HostCall::Rect { .. }));
    assert!(calls[1..5].iter().all(|call| matches!(call, HostCall::Line { .. })));
    assert!(calls[5..].iter().all(|call| matches!(call, HostCall::Text { .. })));
    assert_eq!(state.frame_counter, 2);

    let outcome = amod_client_cmd(&mut state, Some(b"#overlay\0"), None);
    assert_eq!(outcome.calls, vec![HostCall::ConsoleLine { line: String::from("Overlay: OFF") }]);
    assert!(amod_frame(&mut state, Some(&view())).is_empty());
    assert_eq!(state.frame_counter, 3);
}
