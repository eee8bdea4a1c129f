//! The callbacks that the host invokes, one function for each.
//!
//! A callback gets the extension's state and what was read from the host for
//! this invocation, and returns the host calls to make, in order. None of them
//! blocks, loops without bound or fails.

use vstd::prelude::*;
use vstd::string::*;
use crate::boundary::raw_bytes;
use crate::command::{command_in, dispatch, dispatch_calls, dispatch_state, Dispatch};
use crate::host::{FrameView, GameSnapshot, HostCall, HostCallView, StatsView};
use crate::overlay::{overlay_calls, render_frame};
use crate::state::ExtensionState;

verus! {

/// The text by which the extension identifies itself.
pub open spec fn version_text() -> Seq<char> {
    "Rust Demo Mod 1.0.0"@
}

/// The log message at load time.
pub open spec fn init_note() -> Seq<char> {
    "Rust Demo Mod initializing..."@
}

/// The log message at unload time.
pub open spec fn exit_note() -> Seq<char> {
    "Rust Demo Mod shutting down."@
}

/// The log message that welcomes a player by name.
pub open spec fn welcome_note(username: Seq<char>) -> Seq<char> {
    "Rust Demo Mod: Game started! Welcome, "@ + username
}

/// The console line that introduces the extension to the player.
pub open spec fn intro_line() -> Seq<char> {
    "Rust Demo Mod loaded. Type #hello for commands."@
}

/// The host calls at game start: the welcome by name in the log, then the
/// introduction on the console. Without a name there is no welcome, only the
/// introduction.
pub open spec fn gamestart_calls(username: Option<Seq<char>>) -> Seq<HostCallView> {
    match username {
        Some(username) => seq![
            HostCallView::Note { message: welcome_note(username) },
            HostCallView::ConsoleLine { line: intro_line() },
        ],
        None => seq![HostCallView::ConsoleLine { line: intro_line() }],
    }
}

/// The host calls of one frame: those of the overlay, drawn with the frame
/// already counted and from what was read for this frame. Where nothing was
/// read, nothing is drawn.
pub open spec fn frame_calls(state: ExtensionState, view: Option<&FrameView>) -> Seq<
    HostCallView,
> {
    match view {
        Some(view) => overlay_calls(
            state.advanced(),
            view.origin,
            view.snapshot@,
            view.palette,
        ),
        None => Seq::empty(),
    }
}

/// Version query: the text by which the extension identifies itself. It
/// depends on nothing and may be asked at any time, also before `amod_init`.
pub fn amod_version() -> (version: &'static str)
    ensures
        version@ == version_text(),
{
    "Rust Demo Mod 1.0.0"
}

/// Load: one message for the log. The game's data is not looked at; it need
/// not exist yet.
pub fn amod_init() -> (calls: Vec<HostCall>)
    ensures
        calls.deep_view() == seq![HostCallView::Note { message: init_note() }],
{
    let mut calls: Vec<HostCall> = Vec::new();
    calls.push(HostCall::Note { message: "Rust Demo Mod initializing...".to_owned() });
    assert(calls.deep_view() =~= seq![HostCallView::Note { message: init_note() }]);
    calls
}

/// Unload: one message for the log. The game's data is not looked at; it may
/// be gone already.
pub fn amod_exit() -> (calls: Vec<HostCall>)
    ensures
        calls.deep_view() == seq![HostCallView::Note { message: exit_note() }],
{
    let mut calls: Vec<HostCall> = Vec::new();
    calls.push(HostCall::Note { message: "Rust Demo Mod shutting down.".to_owned() });
    assert(calls.deep_view() =~= seq![HostCallView::Note { message: exit_note() }]);
    calls
}

/// Game start, the first moment at which a snapshot can be taken: a welcome
/// by name for the log and an introduction for the console. Where the
/// player's name could not be read, the welcome is left out.
pub fn amod_gamestart(snapshot: &GameSnapshot) -> (calls: Vec<HostCall>)
    ensures
        calls.deep_view() == gamestart_calls(snapshot@.username),
{
    let mut calls: Vec<HostCall> = Vec::new();
    match &snapshot.username {
        Some(username) => {
            let mut message = "Rust Demo Mod: Game started! Welcome, ".to_owned();
            message.append(username.as_str());
            calls.push(HostCall::Note { message });
        },
        None => {},
    }
    calls.push(
        HostCall::ConsoleLine { line: "Rust Demo Mod loaded. Type #hello for commands.".to_owned() },
    );
    assert(calls.deep_view() =~= gamestart_calls(snapshot@.username));
    calls
}

/// Tick of the host's fixed-rate clock. Nothing is done on it.
pub fn amod_tick() {
}

/// Frame: counts the frame, then draws the overlay if it is visible. `view`
/// is what was read from the host for this frame. While the overlay is hidden
/// it is not looked at and may be `None`, so that a hidden overlay costs no
/// host call at all. While the overlay is visible, `None` says that the
/// host's data could not be read: the frame is counted and nothing is drawn.
pub fn amod_frame(state: &mut ExtensionState, view: Option<&FrameView>) -> (calls: Vec<HostCall>)
    ensures
        *final(state) == old(state).advanced(),
        calls.deep_view() == frame_calls(*old(state), view),
        !old(state).overlay_visible || view is None ==> calls@.len() == 0,
        old(state).overlay_visible && view is Some ==> calls@.len() == 10,
{
    state.increment_frame();
    match view {
        Some(view) => render_frame(state, view.origin, &view.snapshot, &view.palette),
        None => {
            let calls: Vec<HostCall> = Vec::new();
            assert(calls.deep_view() =~= Seq::<HostCallView>::empty());
            calls
        },
    }
}

/// Mouse movement. Nothing is done on it.
pub fn amod_mouse_move(x: i32, y: i32) {
}

/// Mouse click. It is never consumed.
pub fn amod_mouse_click(x: i32, y: i32, what: i32) -> (consumed: bool)
    ensures
        !consumed,
{
    false
}

/// Key press. It is never consumed.
pub fn amod_keydown(key: i32) -> (consumed: bool)
    ensures
        !consumed,
{
    false
}

/// Key release. It is never consumed.
pub fn amod_keyup(key: i32) -> (consumed: bool)
    ensures
        !consumed,
{
    false
}

/// Console command: whatever the dispatcher makes of the text. `raw` is the
/// buffer that the host handed over, `None` for a null pointer; `stats` is
/// what was read from the host for `#stats`, which no other text needs.
pub fn amod_client_cmd(
    state: &mut ExtensionState,
    raw: Option<&[u8]>,
    stats: Option<&StatsView>,
) -> (outcome: Dispatch)
    ensures
        outcome.consumed == command_in(raw_bytes(raw)) is Some,
        *final(state) == dispatch_state(raw_bytes(raw), *old(state)),
        outcome.calls.deep_view() == dispatch_calls(raw_bytes(raw), *old(state), stats),
        !outcome.consumed ==> outcome.calls@.len() == 0,
{
    dispatch(state, raw, stats)
}

} // verus!
