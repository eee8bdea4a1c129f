//! The overlay renderer: a small panel with the player's numbers, drawn anew
//! each frame while the overlay is visible.

use vstd::prelude::*;
use vstd::string::*;
use vstd::wrapping::i32_specs::wrapping_add;
use crate::color::{irgb, packed};
use crate::host::{GameSnapshot, HostCall, HostCallView, Palette, ScreenPoint, SnapshotView};
use crate::state::ExtensionState;
use crate::text::{decimal_text, gold_line, gold_text, push_decimal};

verus! {

/// Distance of the panel from the anchor, to the right and downwards.
pub const PANEL_MARGIN: i32 = 10;

/// Width of the panel.
pub const PANEL_WIDTH: i32 = 180;

/// Height of the panel.
pub const PANEL_HEIGHT: i32 = 80;

/// Distance of every text from the panel's left edge, and of the title from
/// its top edge.
pub const TEXT_INSET: i32 = 4;

/// Distance of the first stat line from the panel's top edge.
pub const FIRST_ROW_OFFSET: i32 = 20;

/// Distance from one stat line to the next.
pub const ROW_STEP: i32 = 14;

/// Number of stat lines.
pub const ROW_COUNT: i32 = 4;

/// The panel's rectangle and the column of its texts. All coordinates are
/// 32-bit values computed with wrap-around, so a panel exists for every
/// origin; `lemma_panel_geometry` gives the plain sums for origins away from
/// the ends of the range.
#[derive(Clone, Copy, Debug, PartialEq, Eq)]
pub struct Panel {
    pub left: i32,
    pub top: i32,
    pub right: i32,
    pub bottom: i32,
    pub text_left: i32,
}

impl Panel {
    /// The panel for an anchor resolved to `origin`.
    pub open spec fn at(origin: ScreenPoint) -> Panel {
        let left = wrapping_add(origin.x, PANEL_MARGIN);
        let top = wrapping_add(origin.y, PANEL_MARGIN);
        Panel {
            left,
            top,
            right: wrapping_add(left, PANEL_WIDTH),
            bottom: wrapping_add(top, PANEL_HEIGHT),
            text_left: wrapping_add(left, TEXT_INSET),
        }
    }

    /// The vertical position of the title.
    pub open spec fn title_y(self) -> i32 {
        wrapping_add(self.top, TEXT_INSET)
    }

    /// The vertical position of stat line number `row`, counted from zero.
    pub open spec fn row_y(self, row: int) -> i32 {
        wrapping_add(self.top, (FIRST_ROW_OFFSET + ROW_STEP * row) as i32)
    }

    /// The panel for an anchor resolved to `origin`.
    pub fn new(origin: ScreenPoint) -> (panel: Panel)
        ensures
            panel == Panel::at(origin),
    {
        let left = origin.x.wrapping_add(PANEL_MARGIN);
        let top = origin.y.wrapping_add(PANEL_MARGIN);
        Panel {
            left,
            top,
            right: left.wrapping_add(PANEL_WIDTH),
            bottom: top.wrapping_add(PANEL_HEIGHT),
            text_left: left.wrapping_add(TEXT_INSET),
        }
    }

    /// The vertical position of stat line number `row`, counted from zero.
    fn row(&self, row: i32) -> (y: i32)
        requires
            0 <= row < ROW_COUNT,
        ensures
            y == self.row_y(row as int),
    {
        self.top.wrapping_add(FIRST_ROW_OFFSET + ROW_STEP * row)
    }
}

/// Colour of the panel's background.
pub open spec fn background_color() -> u16 {
    packed(4, 4, 6)
}

/// Colour of the panel's border.
pub open spec fn border_color() -> u16 {
    packed(12, 12, 16)
}

/// Colour of the gold line.
pub open spec fn gold_color() -> u16 {
    packed(31, 31, 0)
}

/// The panel's title.
pub open spec fn title_line() -> Seq<char> {
    "Rust Demo Mod"@
}

/// The stat line for hit points: current value and maximum.
pub open spec fn hp_line(snapshot: SnapshotView) -> Seq<char> {
    "HP: "@ + decimal_text(snapshot.hp) + " / "@ + decimal_text(snapshot.max_hp)
}

/// The stat line for mana: current value and maximum.
pub open spec fn mana_line(snapshot: SnapshotView) -> Seq<char> {
    "Mana: "@ + decimal_text(snapshot.mana) + " / "@ + decimal_text(snapshot.max_mana)
}

/// The stat line for the frame counter.
pub open spec fn frame_line(frame_counter: u32) -> Seq<char> {
    "Frame: "@ + decimal_text(frame_counter as int)
}

/// A filled rectangle over the whole panel.
pub open spec fn panel_fill(panel: Panel) -> HostCallView {
    HostCallView::Rect {
        x1: panel.left as int,
        y1: panel.top as int,
        x2: panel.right as int,
        y2: panel.bottom as int,
        color: background_color(),
    }
}

/// A border line between two points.
pub open spec fn border_line(x1: i32, y1: i32, x2: i32, y2: i32) -> HostCallView {
    HostCallView::Line {
        x1: x1 as int,
        y1: y1 as int,
        x2: x2 as int,
        y2: y2 as int,
        color: border_color(),
    }
}

/// A text in the panel's text column.
pub open spec fn panel_text(panel: Panel, y: i32, color: u16, text: Seq<char>) -> HostCallView {
    HostCallView::Text { x: panel.text_left as int, y: y as int, color, flags: 0, text }
}

/// The ten calls that draw the panel: the background; the border as four
/// separate lines, top, bottom, left and right; the title; and the stat lines
/// for hit points, mana, gold and the frame counter, each in its own colour.
pub open spec fn panel_calls(
    frame_counter: u32,
    origin: ScreenPoint,
    snapshot: SnapshotView,
    palette: Palette,
) -> Seq<HostCallView> {
    let panel = Panel::at(origin);
    seq![
        panel_fill(panel),
        border_line(panel.left, panel.top, panel.right, panel.top),
        border_line(panel.left, panel.bottom, panel.right, panel.bottom),
        border_line(panel.left, panel.top, panel.left, panel.bottom),
        border_line(panel.right, panel.top, panel.right, panel.bottom),
        panel_text(panel, panel.title_y(), palette.white, title_line()),
        panel_text(panel, panel.row_y(0), palette.health, hp_line(snapshot)),
        panel_text(panel, panel.row_y(1), palette.mana, mana_line(snapshot)),
        panel_text(panel, panel.row_y(2), gold_color(), gold_line(snapshot.gold)),
        panel_text(panel, panel.row_y(3), palette.text, frame_line(frame_counter)),
    ]
}

/// The calls that draw one frame of the overlay: none while it is hidden, the
/// panel while it is visible.
pub open spec fn overlay_calls(
    state: ExtensionState,
    origin: ScreenPoint,
    snapshot: SnapshotView,
    palette: Palette,
) -> Seq<HostCallView> {
    if state.overlay_visible {
        panel_calls(state.frame_counter, origin, snapshot, palette)
    } else {
        Seq::empty()
    }
}

/// A border line between two points.
fn line_call(x1: i32, y1: i32, x2: i32, y2: i32) -> (call: HostCall)
    ensures
        call@ == border_line(x1, y1, x2, y2),
{
    HostCall::Line { x1, y1, x2, y2, color: irgb(12, 12, 16) }
}

/// A text in the panel's text column.
fn text_call(panel: &Panel, y: i32, color: u16, text: String) -> (call: HostCall)
    ensures
        call@ == panel_text(*panel, y, color, text@),
{
    HostCall::Text { x: panel.text_left, y, color, flags: 0, text }
}

/// The text of a stat line that shows a current value and its maximum.
fn gauge_text(label: &str, current: i32, maximum: i32) -> (line: String)
    ensures
        line@ == label@ + decimal_text(current as int) + " / "@ + decimal_text(maximum as int),
{
    let mut line = label.to_owned();
    push_decimal(&mut line, current as i64);
    line.append(" / ");
    push_decimal(&mut line, maximum as i64);
    line
}

/// The text of the stat line for the frame counter.
fn frame_text(frame_counter: u32) -> (line: String)
    ensures
        line@ == frame_line(frame_counter),
{
    let mut line = "Frame: ".to_owned();
    push_decimal(&mut line, frame_counter as i64);
    line
}

/// Draws one frame of the overlay. `origin` is the top-left anchor as the host
/// resolves it in this frame; snapshot, palette and frame counter are shown as
/// they are now. While the overlay is hidden the result is empty, so that no
/// host call is made at all.
pub fn render_frame(
    state: &ExtensionState,
    origin: ScreenPoint,
    snapshot: &GameSnapshot,
    palette: &Palette,
) -> (calls: Vec<HostCall>)
    ensures
        calls.deep_view() == overlay_calls(*state, origin, snapshot@, *palette),
        !state.overlay_visible ==> calls@.len() == 0,
        state.overlay_visible ==> calls@.len() == 10,
{
    let mut calls: Vec<HostCall> = Vec::new();
    if !state.overlay_visible {
        assert(calls.deep_view() =~= Seq::<HostCallView>::empty());
        return calls;
    }
    let panel = Panel::new(origin);
    calls.push(
        HostCall::Rect {
            x1: panel.left,
            y1: panel.top,
            x2: panel.right,
            y2: panel.bottom,
            color: irgb(4, 4, 6),
        },
    );
    calls.push(line_call(panel.left, panel.top, panel.right, panel.top));
    calls.push(line_call(panel.left, panel.bottom, panel.right, panel.bottom));
    calls.push(line_call(panel.left, panel.top, panel.left, panel.bottom));
    calls.push(line_call(panel.right, panel.top, panel.right, panel.bottom));
    let title_y = panel.top.wrapping_add(TEXT_INSET);
    calls.push(text_call(&panel, title_y, palette.white, "Rust Demo Mod".to_owned()));
    calls.push(
        text_call(
            &panel,
            panel.row(0),
            palette.health,
            gauge_text("HP: ", snapshot.hp, snapshot.max_stats.hp),
        ),
    );
    calls.push(
        text_call(
            &panel,
            panel.row(1),
            palette.mana,
            gauge_text("Mana: ", snapshot.mana, snapshot.max_stats.mana),
        ),
    );
    calls.push(text_call(&panel, panel.row(2), irgb(31, 31, 0), gold_text(snapshot.gold)));
    calls.push(text_call(&panel, panel.row(3), palette.text, frame_text(state.frame_counter)));
    assert(calls.deep_view() =~= overlay_calls(*state, origin, snapshot@, *palette));
    calls
}

/// While the overlay is hidden, a frame draws nothing.
pub proof fn lemma_hidden_draws_nothing(
    state: ExtensionState,
    origin: ScreenPoint,
    snapshot: SnapshotView,
    palette: Palette,
)
    requires
        !state.overlay_visible,
    ensures
        overlay_calls(state, origin, snapshot, palette).len() == 0,
{
}

/// Whether four calls are the border of a filled rectangle: lines in the
/// border colour along its top, bottom, left and right edge, in this order.
/// Each corner of the rectangle then ends two of the lines, so the outline is
/// closed.
pub open spec fn outlines(
    fill: HostCallView,
    top: HostCallView,
    bottom: HostCallView,
    left: HostCallView,
    right: HostCallView,
) -> bool {
    &&& fill matches HostCallView::Rect { x1, y1, x2, y2, .. }
    &&& top == (HostCallView::Line { x1, y1, x2, y2: y1, color: border_color() })
    &&& bottom == (HostCallView::Line { x1, y1: y2, x2, y2, color: border_color() })
    &&& left == (HostCallView::Line { x1, y1, x2: x1, y2, color: border_color() })
    &&& right == (HostCallView::Line { x1: x2, y1, x2, y2, color: border_color() })
}

/// While the overlay is visible, a frame makes exactly ten calls, whatever the
/// snapshot: one filled rectangle, then four lines, then five texts. The four
/// lines close the outline of that rectangle.
pub proof fn lemma_visible_draws_panel(
    state: ExtensionState,
    origin: ScreenPoint,
    snapshot: SnapshotView,
    palette: Palette,
)
    requires
        state.overlay_visible,
    ensures
        overlay_calls(state, origin, snapshot, palette).len() == 10,
        overlay_calls(state, origin, snapshot, palette)[0] is Rect,
        forall|i: int|
            1 <= i < 5 ==> #[trigger] overlay_calls(state, origin, snapshot, palette)[i] is Line,
        forall|i: int|
            5 <= i < 10 ==> #[trigger] overlay_calls(state, origin, snapshot, palette)[i] is Text,
        outlines(
            overlay_calls(state, origin, snapshot, palette)[0],
            overlay_calls(state, origin, snapshot, palette)[1],
            overlay_calls(state, origin, snapshot, palette)[2],
            overlay_calls(state, origin, snapshot, palette)[3],
            overlay_calls(state, origin, snapshot, palette)[4],
        ),
{
}

/// For an origin at least 190 pixels from the right end and 90 pixels from
/// the lower end of the coordinate range, nothing wraps: the panel starts 10
/// pixels right of and below the origin and is 180 wide and 80 high, texts
/// start 4 pixels inside it, the title 4 pixels below its top, and the stat
/// lines 20, 34, 48 and 62 pixels below its top.
pub proof fn lemma_panel_geometry(origin: ScreenPoint)
    requires
        origin.x <= i32::MAX - 190,
        origin.y <= i32::MAX - 90,
    ensures
        Panel::at(origin).left == origin.x + 10,
        Panel::at(origin).top == origin.y + 10,
        Panel::at(origin).right == origin.x + 190,
        Panel::at(origin).bottom == origin.y + 90,
        Panel::at(origin).text_left == origin.x + 14,
        Panel::at(origin).title_y() == origin.y + 14,
        Panel::at(origin).row_y(0) == origin.y + 30,
        Panel::at(origin).row_y(1) == origin.y + 44,
        Panel::at(origin).row_y(2) == origin.y + 58,
        Panel::at(origin).row_y(3) == origin.y + 72,
{
}

} // verus!
