//! The extension's own state, which outlives every single callback.

use vstd::prelude::*;

verus! {

/// The state the extension keeps from load to unload. There is one instance,
/// handed to each callback that needs it; the host never runs two callbacks
/// at once, so no lock guards it.
#[derive(Clone, Copy, Debug, PartialEq, Eq)]
pub struct ExtensionState {
    /// Whether the overlay is drawn. Only the `#overlay` command changes it.
    pub overlay_visible: bool,
    /// Number of frames seen so far, modulo 2^32. Only the frame callback
    /// changes it.
    pub frame_counter: u32,
}

/// The frame counter after one more frame: one higher, and zero after the
/// highest value.
pub open spec fn next_frame(counter: u32) -> u32 {
    if counter == u32::MAX {
        0
    } else {
        (counter + 1) as u32
    }
}

impl ExtensionState {
    /// The state at load time: overlay hidden, no frame counted.
    pub open spec fn initial() -> ExtensionState {
        ExtensionState { overlay_visible: false, frame_counter: 0 }
    }

    /// This state with the overlay's visibility flipped.
    pub open spec fn toggled(self) -> ExtensionState {
        ExtensionState { overlay_visible: !self.overlay_visible, ..self }
    }

    /// This state with one more frame counted.
    pub open spec fn advanced(self) -> ExtensionState {
        ExtensionState { frame_counter: next_frame(self.frame_counter), ..self }
    }

    /// The state at load time.
    pub fn new() -> (state: ExtensionState)
        ensures
            state == Self::initial(),
    {
        ExtensionState { overlay_visible: false, frame_counter: 0 }
    }

    /// Flips the overlay's visibility and returns the new value.
    pub fn toggle_overlay(&mut self) -> (visible: bool)
        ensures
            *final(self) == old(self).toggled(),
            visible == final(self).overlay_visible,
    {
        self.overlay_visible = !self.overlay_visible;
        self.overlay_visible
    }

    /// Counts one frame and returns the new count. After `u32::MAX` the count
    /// starts again at zero.
    pub fn increment_frame(&mut self) -> (count: u32)
        ensures
            *final(self) == old(self).advanced(),
            count == final(self).frame_counter,
    {
        self.frame_counter = self.frame_counter.wrapping_add(1);
        self.frame_counter
    }
}

impl Default for ExtensionState {
    fn default() -> (state: ExtensionState)
        ensures
            state == ExtensionState::initial(),
    {
        ExtensionState::new()
    }
}

/// Toggling the overlay twice leaves the state as it was.
pub proof fn lemma_double_toggle(state: ExtensionState)
    ensures
        state.toggled().toggled() == state,
        state.toggled().overlay_visible != state.overlay_visible,
{
}

/// Each frame raises the counter by exactly one, except that the highest
/// value is followed by zero; in both cases the new count is the old count
/// plus one, modulo 2^32. The overlay's visibility is not touched.
pub proof fn lemma_frame_counter_step(state: ExtensionState)
    ensures
        state.frame_counter < u32::MAX ==> state.advanced().frame_counter == state.frame_counter
            + 1,
        state.frame_counter == u32::MAX ==> state.advanced().frame_counter == 0,
        state.advanced().frame_counter == (state.frame_counter + 1) % 0x1_0000_0000,
        state.advanced().overlay_visible == state.overlay_visible,
{
}

} // verus!
