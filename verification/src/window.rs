//! The focus-guarded popup window state machine.
//!
//! The popup has exactly two states. `Hidden` is the initial one. A show
//! request always re-positions the window to the latest requested
//! coordinates, shows it and focuses it. The window returns to `Hidden` on an
//! explicit hide request or immediately on an OS focus-lost event, so a stray
//! click-away hides the popup within one focus-change event. There is no
//! terminal state: the instance is reused for the process lifetime.
//!
//! Transitions return the ordered window-manager commands the driver must
//! marshal onto the thread that owns the UI.

use vstd::prelude::*;

verus! {

/// Visibility of the popup; `Shown` records the caller's position request.
#[derive(Clone, Copy, Debug, PartialEq, Eq, Structural)]
pub enum WindowState {
    Hidden,
    Shown { x: i64, y: i64 },
}

/// One call the driver must make against the window manager.
#[derive(Clone, Copy, Debug, PartialEq, Eq, Structural)]
pub enum WindowCommand {
    SetPosition { x: i64, y: i64 },
    Show,
    Focus,
    Hide,
}

/// A reusable popup window driven by explicit requests and OS focus events.
#[derive(Clone, Copy, Debug, PartialEq, Eq, Structural)]
pub struct FocusGuardedWindow {
    pub state: WindowState,
}

impl FocusGuardedWindow {
    /// Windows start hidden and unfocused.
    pub fn new() -> (w: FocusGuardedWindow)
        ensures
            w.state == WindowState::Hidden,
    {
        FocusGuardedWindow { state: WindowState::Hidden }
    }

    /// Explicit show request: re-position to the latest requested
    /// coordinates, then show, then focus.
    pub fn request_show(&mut self, x: i64, y: i64) -> (cmds: Vec<WindowCommand>)
        ensures
            final(self).state == (WindowState::Shown { x, y }),
            cmds@ == seq![
                (WindowCommand::SetPosition { x, y }),
                WindowCommand::Show,
                WindowCommand::Focus,
            ],
    {
        self.state = WindowState::Shown { x, y };
        let mut cmds: Vec<WindowCommand> = Vec::new();
        cmds.push(WindowCommand::SetPosition { x, y });
        cmds.push(WindowCommand::Show);
        cmds.push(WindowCommand::Focus);
        proof {
            assert(cmds@ =~= seq![
                (WindowCommand::SetPosition { x, y }),
                WindowCommand::Show,
                WindowCommand::Focus,
            ]);
        }
        cmds
    }

    /// Explicit hide request, also used by sibling "hide" triggers.
    pub fn request_hide(&mut self) -> (cmds: Vec<WindowCommand>)
        ensures
            final(self).state == WindowState::Hidden,
            cmds@ == seq![WindowCommand::Hide],
    {
        self.state = WindowState::Hidden;
        let mut cmds: Vec<WindowCommand> = Vec::new();
        cmds.push(WindowCommand::Hide);
        proof {
            assert(cmds@ =~= seq![WindowCommand::Hide]);
        }
        cmds
    }

    /// An OS focus-changed event for this window. Losing focus hides the
    /// window at once, before any further focus query can observe it shown;
    /// gaining focus changes nothing.
    pub fn on_focus_event(&mut self, focused: bool) -> (cmds: Vec<WindowCommand>)
        ensures
            !focused ==> final(self).state == WindowState::Hidden
                && cmds@ == seq![WindowCommand::Hide],
            focused ==> *final(self) == *old(self) && cmds@ == Seq::<WindowCommand>::empty(),
    {
        if !focused {
            self.request_hide()
        } else {
            Vec::new()
        }
    }
}

/// Hide the select popup. This is the handler behind both the explicit hide
/// command and the focus-loss path.
pub fn hide_select_window(window: &mut FocusGuardedWindow) -> (cmds: Vec<WindowCommand>)
    ensures
        final(window).state == WindowState::Hidden,
        cmds@ == seq![WindowCommand::Hide],
{
    window.request_hide()
}

} // verus!
