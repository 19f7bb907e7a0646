//! Process-wide state, as one explicitly constructed context object.
//!
//! The process-wide singletons — the cached selection, the foreground-handle
//! store, the lazily created stream accumulator — live in a single context
//! object, created once at startup and passed by reference to every
//! component, with no implicit teardown. Capture gestures are serialized by
//! user interaction, so the single-value stores are last-write-wins.

use vstd::prelude::*;

use crate::foreground::ForegroundTracker;
use crate::stream::{emission_of, StreamState};
use crate::window::{FocusGuardedWindow, WindowCommand, WindowState};

verus! {

/// Everything the core keeps for the process lifetime.
#[derive(Debug)]
pub struct AppState {
    /// The selection text most recently captured, for the cached-read path.
    pub selected_content: Vec<u8>,
    /// The window that held focus before the last capture gesture.
    pub foreground: ForegroundTracker,
    /// The streamer accumulator; created lazily on first use and never torn
    /// down.
    pub auto_input: Option<StreamState>,
    /// Whether selection capture is enabled at all (a configuration value).
    pub enable_select: bool,
}

/// The text the stream worker has emitted so far: nothing at all before the
/// worker is first used.
pub open spec fn stream_content(s: AppState) -> Seq<u8> {
    match s.auto_input {
        Some(st) => st@,
        None => Seq::empty(),
    }
}

impl AppState {
    /// The context as built at startup: no cached selection, no known
    /// foreground window, no stream worker yet.
    pub fn new(enable_select: bool) -> (s: AppState)
        ensures
            s.selected_content@ == Seq::<u8>::empty(),
            s.foreground.handle == 0,
            s.auto_input is None,
            s.enable_select == enable_select,
    {
        AppState {
            selected_content: Vec::new(),
            foreground: ForegroundTracker::new(),
            auto_input: None,
            enable_select,
        }
    }

    /// Remember a captured selection for the cached-read path
    /// (last-write-wins).
    pub fn cache_selected_content(&mut self, text: Vec<u8>)
        ensures
            final(self).selected_content@ == text@,
            final(self).foreground == old(self).foreground,
            final(self).auto_input == old(self).auto_input,
            final(self).enable_select == old(self).enable_select,
    {
        self.selected_content = text;
    }

    /// Make sure the stream worker state exists, creating it empty on first
    /// use; an existing accumulator is left exactly as it is.
    pub fn get_or_init_auto_input(&mut self)
        ensures
            final(self).auto_input matches Some(st) && st@ == stream_content(*old(self)),
            final(self).selected_content == old(self).selected_content,
            final(self).foreground == old(self).foreground,
            final(self).enable_select == old(self).enable_select,
    {
        if self.auto_input.is_none() {
            self.auto_input = Some(StreamState::new());
        }
    }

    /// Enqueue one full-response value: lazily start the worker, decide the
    /// emission (the new suffix of `value` on the incremental path, all of
    /// `value` after a reset) and replace the accumulator with `value`.
    pub fn send_auto_input_value(&mut self, value: Vec<u8>) -> (emission: Vec<u8>)
        ensures
            final(self).auto_input matches Some(st) && st@ == value@,
            emission@ == emission_of(stream_content(*old(self)), value@),
            final(self).selected_content == old(self).selected_content,
            final(self).foreground == old(self).foreground,
            final(self).enable_select == old(self).enable_select,
    {
        self.get_or_init_auto_input();
        match &mut self.auto_input {
            Some(st) => st.next_emission(value),
            None => Vec::new(),
        }
    }
}

/// Whether selection capture is enabled: the configured value, or enabled
/// when the configuration holds none.
pub fn enable_select_or_default(setting: Option<bool>) -> (r: bool)
    ensures
        setting matches Some(b) ==> r == b,
        setting is None ==> r,
{
    match setting {
        Some(b) => b,
        None => true,
    }
}

/// Handle a capture gesture on the select popup: remember which window held
/// focus (zero, the "unknown" sentinel, never overwrites the last real
/// handle), then re-position, show and focus the popup at the requested
/// coordinates.
pub fn build_select_windows(
    state: &mut AppState,
    window: &mut FocusGuardedWindow,
    foreground_handle: isize,
    x: i64,
    y: i64,
) -> (cmds: Vec<WindowCommand>)
    ensures
        foreground_handle != 0 ==> final(state).foreground.handle == foreground_handle,
        foreground_handle == 0 ==> final(state).foreground.handle == old(state).foreground.handle,
        final(state).selected_content == old(state).selected_content,
        final(state).auto_input == old(state).auto_input,
        final(state).enable_select == old(state).enable_select,
        final(window).state == (WindowState::Shown { x, y }),
        cmds@ == seq![
            (WindowCommand::SetPosition { x, y }),
            WindowCommand::Show,
            WindowCommand::Focus,
        ],
{
    state.foreground.record(foreground_handle);
    window.request_show(x, y)
}

} // verus!
