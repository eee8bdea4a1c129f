//! The command dispatcher: which console commands the extension answers, and
//! what each of them does.

use vstd::prelude::*;
use vstd::string::*;
use vstd::utf8::{decode_utf8, encode_utf8, valid_utf8};
use crate::boundary::{c_string_bytes, c_string_text, raw_bytes, read_c_string};
use crate::host::{GameSnapshot, HostCall, HostCallView, SnapshotView, StatsView};
use crate::state::ExtensionState;
use crate::text::{decimal_text, gold_line, gold_text, push_decimal, text_equals};

verus! {

/// A command of the extension. A command is its name and nothing else: none
/// takes arguments.
#[derive(Clone, Copy, Debug, PartialEq, Eq)]
pub enum Command {
    /// `#hello`: shows the list of commands.
    Hello,
    /// `#stats`: shows the player's current numbers.
    Stats,
    /// `#overlay`: switches the overlay on or off.
    Overlay,
}

impl Command {
    /// The text by which the command is called.
    pub open spec fn name(self) -> Seq<char> {
        match self {
            Command::Hello => "#hello"@,
            Command::Stats => "#stats"@,
            Command::Overlay => "#overlay"@,
        }
    }

    /// The bytes of the command's name, which is plain ASCII.
    pub open spec fn name_bytes(self) -> Seq<u8> {
        match self {
            Command::Hello => seq![0x23u8, 0x68u8, 0x65u8, 0x6cu8, 0x6cu8, 0x6fu8],
            Command::Stats => seq![0x23u8, 0x73u8, 0x74u8, 0x61u8, 0x74u8, 0x73u8],
            Command::Overlay => seq![
                0x23u8,
                0x6fu8,
                0x76u8,
                0x65u8,
                0x72u8,
                0x6cu8,
                0x61u8,
                0x79u8,
            ],
        }
    }

    /// The text by which the command is called.
    pub fn name_str(self) -> (name: &'static str)
        ensures
            name@ == self.name(),
    {
        match self {
            Command::Hello => "#hello",
            Command::Stats => "#stats",
            Command::Overlay => "#overlay",
        }
    }
}

/// The command that a text names. The match is exact and case-sensitive.
pub open spec fn command_named(text: Seq<char>) -> Option<Command> {
    if text == Command::Hello.name() {
        Some(Command::Hello)
    } else if text == Command::Stats.name() {
        Some(Command::Stats)
    } else if text == Command::Overlay.name() {
        Some(Command::Overlay)
    } else {
        None
    }
}

/// The command that a raw buffer from the host holds: the one named by its C
/// string, if that is readable text and names one.
pub open spec fn command_in(raw: Option<Seq<u8>>) -> Option<Command> {
    match c_string_text(raw) {
        Ok(text) => command_named(text),
        Err(_) => None,
    }
}

/// The four lines of the answer to `#hello`: a header and one line for each
/// command.
pub open spec fn hello_lines() -> Seq<Seq<char>> {
    seq![
        "=== Rust Demo Mod Commands ==="@,
        "#hello   - Show this help"@,
        "#stats   - Display current stats"@,
        "#overlay - Toggle HUD overlay"@,
    ]
}

/// The line of `#stats` that shows level and experience.
pub open spec fn level_line(level: int, experience: int) -> Seq<char> {
    "Level: "@ + decimal_text(level) + "  Experience: "@ + decimal_text(experience)
}

/// The line of `#stats` that shows hit points and mana, each as current value
/// and maximum.
pub open spec fn vitals_line(snapshot: SnapshotView) -> Seq<char> {
    "HP: "@ + decimal_text(snapshot.hp) + "/"@ + decimal_text(snapshot.max_hp) + "  Mana: "@
        + decimal_text(snapshot.mana) + "/"@ + decimal_text(snapshot.max_mana)
}

/// The line of `#stats` that shows the four core attributes.
pub open spec fn attributes_line(snapshot: SnapshotView) -> Seq<char> {
    "STR: "@ + decimal_text(snapshot.strength) + "  AGI: "@ + decimal_text(snapshot.agility)
        + "  INT: "@ + decimal_text(snapshot.intelligence) + "  WIS: "@ + decimal_text(
        snapshot.wisdom,
    )
}

/// The four lines of the answer to `#stats`.
pub open spec fn stats_lines(snapshot: SnapshotView, level: int) -> Seq<Seq<char>> {
    seq![
        level_line(level, snapshot.experience),
        vitals_line(snapshot),
        attributes_line(snapshot),
        gold_line(snapshot.gold),
    ]
}

/// The line that confirms the overlay's new visibility.
pub open spec fn overlay_line(visible: bool) -> Seq<char> {
    if visible {
        "Overlay: ON"@
    } else {
        "Overlay: OFF"@
    }
}

/// The state after a command has run: `#overlay` flips the visibility, the
/// other commands change nothing.
pub open spec fn state_after(command: Command, state: ExtensionState) -> ExtensionState {
    match command {
        Command::Overlay => state.toggled(),
        _ => state,
    }
}

/// The console lines that a command emits when it runs in `state`. Only
/// `#stats` looks at what was read from the host; where nothing was read, it
/// emits nothing.
pub open spec fn command_lines(
    command: Command,
    state: ExtensionState,
    stats: Option<&StatsView>,
) -> Seq<Seq<char>> {
    match command {
        Command::Hello => hello_lines(),
        Command::Stats => match stats {
            Some(stats) => stats_lines(stats.snapshot@, stats.level as int),
            None => Seq::empty(),
        },
        Command::Overlay => seq![overlay_line(!state.overlay_visible)],
    }
}

/// The host calls that put the given lines on the console, one call per line
/// and in their order.
pub open spec fn console_calls(lines: Seq<Seq<char>>) -> Seq<HostCallView> {
    Seq::new(lines.len(), |i: int| HostCallView::ConsoleLine { line: lines[i] })
}

/// What the dispatcher made of one command text.
#[derive(Clone, Debug, PartialEq, Eq)]
pub struct Dispatch {
    /// Whether the text was a command of this extension. If not, the host is
    /// free to offer it to other handlers.
    pub consumed: bool,
    /// The host calls to make, in order.
    pub calls: Vec<HostCall>,
}

/// What `dispatch` does to the state, for a raw buffer.
pub open spec fn dispatch_state(raw: Option<Seq<u8>>, state: ExtensionState) -> ExtensionState {
    match command_in(raw) {
        Some(command) => state_after(command, state),
        None => state,
    }
}

/// The host calls that `dispatch` returns, for a raw buffer.
pub open spec fn dispatch_calls(
    raw: Option<Seq<u8>>,
    state: ExtensionState,
    stats: Option<&StatsView>,
) -> Seq<HostCallView> {
    match command_in(raw) {
        Some(command) => console_calls(command_lines(command, state, stats)),
        None => Seq::empty(),
    }
}

/// Finds the command in a raw buffer from the host. `None` as the buffer
/// stands for a null pointer. The result is `None` for a null pointer, for a
/// text that is not valid UTF-8, and for every text that is not exactly the
/// name of a command.
pub fn parse_command(raw: Option<&[u8]>) -> (command: Option<Command>)
    ensures
        command == command_in(raw_bytes(raw)),
{
    match read_c_string(raw) {
        Ok(text) => {
            let text = text.as_str();
            if text_equals(text, Command::Hello.name_str()) {
                Some(Command::Hello)
            } else if text_equals(text, Command::Stats.name_str()) {
                Some(Command::Stats)
            } else if text_equals(text, Command::Overlay.name_str()) {
                Some(Command::Overlay)
            } else {
                None
            }
        },
        Err(_) => None,
    }
}

/// A console line with the given text.
fn console_line(text: &str) -> (call: HostCall)
    ensures
        call@ == (HostCallView::ConsoleLine { line: text@ }),
{
    HostCall::ConsoleLine { line: text.to_owned() }
}

/// The text of the line that shows level and experience.
fn level_text(level: i32, experience: i32) -> (line: String)
    ensures
        line@ == level_line(level as int, experience as int),
{
    let mut line = "Level: ".to_owned();
    push_decimal(&mut line, level as i64);
    line.append("  Experience: ");
    push_decimal(&mut line, experience as i64);
    line
}

/// The text of the line that shows hit points and mana.
fn vitals_text(snapshot: &GameSnapshot) -> (line: String)
    ensures
        line@ == vitals_line(snapshot@),
{
    let mut line = "HP: ".to_owned();
    push_decimal(&mut line, snapshot.hp as i64);
    line.append("/");
    push_decimal(&mut line, snapshot.max_stats.hp as i64);
    line.append("  Mana: ");
    push_decimal(&mut line, snapshot.mana as i64);
    line.append("/");
    push_decimal(&mut line, snapshot.max_stats.mana as i64);
    line
}

/// The text of the line that shows the four core attributes.
fn attributes_text(snapshot: &GameSnapshot) -> (line: String)
    ensures
        line@ == attributes_line(snapshot@),
{
    let mut line = "STR: ".to_owned();
    push_decimal(&mut line, snapshot.max_stats.strength as i64);
    line.append("  AGI: ");
    push_decimal(&mut line, snapshot.max_stats.agility as i64);
    line.append("  INT: ");
    push_decimal(&mut line, snapshot.max_stats.intelligence as i64);
    line.append("  WIS: ");
    push_decimal(&mut line, snapshot.max_stats.wisdom as i64);
    line
}

/// Runs a command: changes the state as the command asks and returns the
/// console lines it emits, as host calls in order. `stats` is what was read
/// from the host for `#stats`; no other command looks at it. `#stats` without
/// it emits no line: what cannot be shown is skipped.
pub fn run_command(command: Command, state: &mut ExtensionState, stats: Option<&StatsView>) -> (calls:
    Vec<HostCall>)
    ensures
        *final(state) == state_after(command, *old(state)),
        calls.deep_view() == console_calls(command_lines(command, *old(state), stats)),
{
    let mut calls: Vec<HostCall> = Vec::new();
    match command {
        Command::Hello => {
            calls.push(console_line("=== Rust Demo Mod Commands ==="));
            calls.push(console_line("#hello   - Show this help"));
            calls.push(console_line("#stats   - Display current stats"));
            calls.push(console_line("#overlay - Toggle HUD overlay"));
        },
        Command::Stats => {
            if let Some(stats) = stats {
                let snapshot = &stats.snapshot;
                calls.push(
                    HostCall::ConsoleLine { line: level_text(stats.level, snapshot.experience) },
                );
                calls.push(HostCall::ConsoleLine { line: vitals_text(snapshot) });
                calls.push(HostCall::ConsoleLine { line: attributes_text(snapshot) });
                calls.push(HostCall::ConsoleLine { line: gold_text(snapshot.gold) });
            }
        },
        Command::Overlay => {
            if state.toggle_overlay() {
                calls.push(console_line("Overlay: ON"));
            } else {
                calls.push(console_line("Overlay: OFF"));
            }
        },
    }
    assert(calls.deep_view() =~= console_calls(command_lines(command, *old(state), stats)));
    calls
}

/// Handles one command text from the host. The text is consumed exactly when
/// its C string is readable and names a command; the command then runs. Any
/// other input, a null pointer and malformed text included, is left to the
/// host: nothing changes and no call is made. `stats` is what was read from
/// the host for `#stats`; it need only be there when `parse_command` finds
/// that command.
pub fn dispatch(state: &mut ExtensionState, raw: Option<&[u8]>, stats: Option<&StatsView>) -> (outcome:
    Dispatch)
    ensures
        outcome.consumed == command_in(raw_bytes(raw)) is Some,
        *final(state) == dispatch_state(raw_bytes(raw), *old(state)),
        outcome.calls.deep_view() == dispatch_calls(raw_bytes(raw), *old(state), stats),
        !outcome.consumed ==> outcome.calls@.len() == 0,
{
    match parse_command(raw) {
        Some(command) => {
            let calls = run_command(command, state, stats);
            Dispatch { consumed: true, calls }
        },
        None => {
            let calls: Vec<HostCall> = Vec::new();
            assert(calls.deep_view() =~= Seq::<HostCallView>::empty());
            Dispatch { consumed: false, calls }
        },
    }
}

/// A command's name and its bytes stand for each other: the bytes are the
/// UTF-8 encoding of the name, and they decode to it.
pub proof fn lemma_name_bytes(command: Command)
    ensures
        encode_utf8(command.name()) == command.name_bytes(),
        valid_utf8(command.name_bytes()),
        decode_utf8(command.name_bytes()) == command.name(),
        command_named(command.name()) == Some(command),
{
    reveal_strlit("#hello");
    reveal_strlit("#stats");
    reveal_strlit("#overlay");
    let name = command.name();
    vstd::utf8::is_ascii_chars_encode_utf8(name);
    assert(encode_utf8(name) =~= command.name_bytes());
    vstd::utf8::encode_utf8_valid_utf8(name);
    vstd::utf8::encode_utf8_decode_utf8(name);
    assert(Command::Hello.name()[1] != Command::Stats.name()[1]);
    assert(Command::Hello.name().len() != Command::Overlay.name().len());
    assert(Command::Stats.name().len() != Command::Overlay.name().len());
}

/// A raw buffer holds a given command exactly when its C string is, byte for
/// byte, the name of that command.
pub proof fn lemma_command_in(raw: Option<Seq<u8>>, command: Command)
    ensures
        command_in(raw) == Some(command) <==> (raw matches Some(buf) && c_string_bytes(buf)
            == command.name_bytes()),
{
    lemma_name_bytes(command);
    match raw {
        None => {},
        Some(buf) => {
            let text = c_string_bytes(buf);
            if valid_utf8(text) {
                vstd::utf8::decode_utf8_encode_utf8(text);
            }
        },
    }
}

/// The dispatcher consumes a command text exactly when its C string is one of
/// the three names, byte for byte. So a null pointer, an empty text, a text
/// that is not valid UTF-8 and a name in other letter case are all left to
/// the host.
pub proof fn lemma_consumed_texts(raw: Option<Seq<u8>>)
    ensures
        command_in(raw) is Some <==> (raw matches Some(buf) && (c_string_bytes(buf)
            == Command::Hello.name_bytes() || c_string_bytes(buf) == Command::Stats.name_bytes()
            || c_string_bytes(buf) == Command::Overlay.name_bytes())),
        raw is None ==> command_in(raw) is None,
        raw matches Some(buf) && !valid_utf8(c_string_bytes(buf)) ==> command_in(raw) is None,
        raw matches Some(buf) && c_string_bytes(buf).len() == 0 ==> command_in(raw) is None,
{
    lemma_command_in(raw, Command::Hello);
    lemma_command_in(raw, Command::Stats);
    lemma_command_in(raw, Command::Overlay);
}

/// What was read from the host matters to `#stats` alone: every other text
/// is answered in the same way with it, without it, or with other values.
pub proof fn lemma_stats_alone_reads_the_game(
    raw: Option<Seq<u8>>,
    state: ExtensionState,
    stats_1: Option<&StatsView>,
    stats_2: Option<&StatsView>,
)
    requires
        command_in(raw) != Some(Command::Stats),
    ensures
        dispatch_calls(raw, state, stats_1) == dispatch_calls(raw, state, stats_2),
{
}

/// Sending `#overlay` twice brings the state back to where it was, and each
/// of the two emits exactly one line: `ON` then `OFF` if the overlay was
/// hidden, `OFF` then `ON` if it was visible.
pub proof fn lemma_overlay_twice(
    raw: Option<Seq<u8>>,
    state: ExtensionState,
    stats_1: Option<&StatsView>,
    stats_2: Option<&StatsView>,
)
    requires
        command_in(raw) == Some(Command::Overlay),
    ensures
        dispatch_state(raw, dispatch_state(raw, state)) == state,
        dispatch_calls(raw, state, stats_1) == seq![
            HostCallView::ConsoleLine { line: overlay_line(!state.overlay_visible) },
        ],
        dispatch_calls(raw, dispatch_state(raw, state), stats_2) == seq![
            HostCallView::ConsoleLine { line: overlay_line(state.overlay_visible) },
        ],
        overlay_line(true) == "Overlay: ON"@,
        overlay_line(false) == "Overlay: OFF"@,
        overlay_line(true) != overlay_line(false),
{
    reveal_strlit("Overlay: ON");
    reveal_strlit("Overlay: OFF");
    assert(overlay_line(true).len() != overlay_line(false).len());
    assert(dispatch_calls(raw, state, stats_1) =~= seq![
        HostCallView::ConsoleLine { line: overlay_line(!state.overlay_visible) },
    ]);
    assert(dispatch_calls(raw, dispatch_state(raw, state), stats_2) =~= seq![
        HostCallView::ConsoleLine { line: overlay_line(state.overlay_visible) },
    ]);
}

} // verus!
