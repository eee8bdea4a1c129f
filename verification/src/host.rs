//! The host as the extension sees it: the values read from it during one
//! callback, and the calls the extension asks it to make.

use vstd::prelude::*;
use crate::boundary::{raw_bytes, read_text, readable_text};

verus! {

/// A player attribute that the host keeps in its stat table.
#[derive(Clone, Copy, Debug, PartialEq, Eq)]
pub enum StatKind {
    Hp,
    Mana,
    Wisdom,
    Intelligence,
    Agility,
    Strength,
}

/// Number of entries in one row of the host's stat table.
pub const STAT_ROW_LEN: usize = 200;

impl StatKind {
    /// Position of this attribute in a row of the host's stat table. The
    /// positions are fixed by the host and cannot be derived.
    pub open spec fn host_index_spec(self) -> usize {
        match self {
            StatKind::Hp => 0,
            StatKind::Mana => 2,
            StatKind::Wisdom => 3,
            StatKind::Intelligence => 4,
            StatKind::Agility => 5,
            StatKind::Strength => 6,
        }
    }

    /// Position of this attribute in a row of the host's stat table.
    #[verifier::when_used_as_spec(host_index_spec)]
    pub fn host_index(self) -> (index: usize)
        ensures
            index == self.host_index_spec(),
            index < STAT_ROW_LEN,
    {
        match self {
            StatKind::Hp => 0,
            StatKind::Mana => 2,
            StatKind::Wisdom => 3,
            StatKind::Intelligence => 4,
            StatKind::Agility => 5,
            StatKind::Strength => 6,
        }
    }
}

/// The local player's maximum value of each attribute.
#[derive(Clone, Copy, Debug, PartialEq, Eq)]
pub struct MaxStats {
    pub hp: i32,
    pub mana: i32,
    pub wisdom: i32,
    pub intelligence: i32,
    pub agility: i32,
    pub strength: i32,
}

impl MaxStats {
    /// The maximum of one attribute.
    pub open spec fn get_spec(self, kind: StatKind) -> i32 {
        match kind {
            StatKind::Hp => self.hp,
            StatKind::Mana => self.mana,
            StatKind::Wisdom => self.wisdom,
            StatKind::Intelligence => self.intelligence,
            StatKind::Agility => self.agility,
            StatKind::Strength => self.strength,
        }
    }

    /// The maximum of one attribute.
    #[verifier::when_used_as_spec(get_spec)]
    pub fn get(self, kind: StatKind) -> (value: i32)
        ensures
            value == self.get_spec(kind),
    {
        match kind {
            StatKind::Hp => self.hp,
            StatKind::Mana => self.mana,
            StatKind::Wisdom => self.wisdom,
            StatKind::Intelligence => self.intelligence,
            StatKind::Agility => self.agility,
            StatKind::Strength => self.strength,
        }
    }

    /// Reads the attributes out of the local player's row of the host's stat
    /// table.
    pub fn from_host_row(row: &[i32; STAT_ROW_LEN]) -> (stats: MaxStats)
        ensures
            forall|kind: StatKind|
                #[trigger] stats.get_spec(kind) == row@[kind.host_index_spec() as int],
    {
        MaxStats {
            hp: row[StatKind::Hp.host_index()],
            mana: row[StatKind::Mana.host_index()],
            wisdom: row[StatKind::Wisdom.host_index()],
            intelligence: row[StatKind::Intelligence.host_index()],
            agility: row[StatKind::Agility.host_index()],
            strength: row[StatKind::Strength.host_index()],
        }
    }
}

/// What the extension reads of the game during one callback. The host may
/// change the memory behind it at any time outside a callback, so a snapshot
/// is taken afresh in each callback and not kept.
#[derive(Clone, Debug, PartialEq, Eq)]
pub struct GameSnapshot {
    pub hp: i32,
    pub mana: i32,
    pub gold: i32,
    pub experience: i32,
    pub max_stats: MaxStats,
    /// The player's name, or `None` where the host's text could not be read.
    pub username: Option<String>,
}

/// A snapshot as plain mathematical values.
pub ghost struct SnapshotView {
    pub hp: int,
    pub mana: int,
    pub gold: int,
    pub experience: int,
    pub max_hp: int,
    pub max_mana: int,
    pub wisdom: int,
    pub intelligence: int,
    pub agility: int,
    pub strength: int,
    pub username: Option<Seq<char>>,
}

impl View for GameSnapshot {
    type V = SnapshotView;

    open spec fn view(&self) -> SnapshotView {
        SnapshotView {
            hp: self.hp as int,
            mana: self.mana as int,
            gold: self.gold as int,
            experience: self.experience as int,
            max_hp: self.max_stats.hp as int,
            max_mana: self.max_stats.mana as int,
            wisdom: self.max_stats.wisdom as int,
            intelligence: self.max_stats.intelligence as int,
            agility: self.max_stats.agility as int,
            strength: self.max_stats.strength as int,
            username: self.username.deep_view(),
        }
    }
}

impl GameSnapshot {
    /// Takes a snapshot of the host's memory: the four counters as they are,
    /// the maxima from the local player's row of the stat table, and the name
    /// from the host's name buffer. The name is the C string in that buffer;
    /// where it is not valid UTF-8 the snapshot has no name.
    pub fn from_host(
        hp: i32,
        mana: i32,
        gold: i32,
        experience: i32,
        stat_row: &[i32; STAT_ROW_LEN],
        name: &[u8],
    ) -> (snapshot: GameSnapshot)
        ensures
            snapshot.hp == hp,
            snapshot.mana == mana,
            snapshot.gold == gold,
            snapshot.experience == experience,
            forall|kind: StatKind| #[trigger]
                snapshot.max_stats.get_spec(kind) == stat_row@[kind.host_index_spec() as int],
            snapshot@.username == readable_text(Some(name@)),
    {
        GameSnapshot {
            hp,
            mana,
            gold,
            experience,
            max_stats: MaxStats::from_host_row(stat_row),
            username: read_text(Some(name)),
        }
    }
}

/// The host's named colours, read afresh each frame.
#[derive(Clone, Copy, Debug, PartialEq, Eq)]
pub struct Palette {
    pub white: u16,
    pub text: u16,
    pub health: u16,
    pub mana: u16,
}

/// A named reference point on the screen. The host resolves it to pixel
/// coordinates; the answer may change between frames and is not kept.
#[derive(Clone, Copy, Debug, PartialEq, Eq)]
pub enum ScreenAnchor {
    TopLeft,
}

impl ScreenAnchor {
    /// The number by which the host knows this anchor.
    pub fn host_id(self) -> (id: i32)
        ensures
            id == 0,
    {
        match self {
            ScreenAnchor::TopLeft => 0,
        }
    }
}

/// A position on the screen, in pixels.
#[derive(Clone, Copy, Debug, PartialEq, Eq)]
pub struct ScreenPoint {
    pub x: i32,
    pub y: i32,
}

/// What is read from the host to answer `#stats`.
#[derive(Clone, Debug, PartialEq, Eq)]
pub struct StatsView {
    pub snapshot: GameSnapshot,
    /// The level that the host derives from the snapshot's experience.
    pub level: i32,
}

/// What is read from the host to draw one frame of the overlay.
#[derive(Clone, Debug, PartialEq, Eq)]
pub struct FrameView {
    /// The top-left anchor, as the host resolves it in this frame.
    pub origin: ScreenPoint,
    pub snapshot: GameSnapshot,
    pub palette: Palette,
}

/// One call into the host. A callback returns the calls it wants made, in
/// order; whoever drives the extension makes them.
#[derive(Clone, Debug, PartialEq, Eq)]
pub enum HostCall {
    /// A message for the host's log.
    Note { message: String },
    /// A line for the in-game console.
    ConsoleLine { line: String },
    /// A filled rectangle between two corners.
    Rect { x1: i32, y1: i32, x2: i32, y2: i32, color: u16 },
    /// A line between two points.
    Line { x1: i32, y1: i32, x2: i32, y2: i32, color: u16 },
    /// A text at a position.
    Text { x: i32, y: i32, color: u16, flags: i32, text: String },
}

/// A host call as plain mathematical values.
pub ghost enum HostCallView {
    Note { message: Seq<char> },
    ConsoleLine { line: Seq<char> },
    Rect { x1: int, y1: int, x2: int, y2: int, color: u16 },
    Line { x1: int, y1: int, x2: int, y2: int, color: u16 },
    Text { x: int, y: int, color: u16, flags: int, text: Seq<char> },
}

impl View for HostCall {
    type V = HostCallView;

    open spec fn view(&self) -> HostCallView {
        match *self {
            HostCall::Note { message } => HostCallView::Note { message: message@ },
            HostCall::ConsoleLine { line } => HostCallView::ConsoleLine { line: line@ },
            HostCall::Rect { x1, y1, x2, y2, color } => HostCallView::Rect {
                x1: x1 as int,
                y1: y1 as int,
                x2: x2 as int,
                y2: y2 as int,
                color,
            },
            HostCall::Line { x1, y1, x2, y2, color } => HostCallView::Line {
                x1: x1 as int,
                y1: y1 as int,
                x2: x2 as int,
                y2: y2 as int,
                color,
            },
            HostCall::Text { x, y, color, flags, text } => HostCallView::Text {
                x: x as int,
                y: y as int,
                color,
                flags: flags as int,
                text: text@,
            },
        }
    }
}

impl DeepView for HostCall {
    type V = HostCallView;

    open spec fn deep_view(&self) -> HostCallView {
        self@
    }
}

} // verus!
