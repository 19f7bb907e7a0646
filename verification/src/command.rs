//! The decisions behind the inbound command surface.
//!
//! Commands arrive from an external dispatch collaborator with opaque text
//! payloads. Everything a command decides or computes — emptiness checks,
//! trimming, prompt combination, the mode default — lives here; the driver
//! binary does the dispatch plumbing around these functions.

use vstd::prelude::*;

use crate::capture::{baseline_text, get_selected_text, CaptureError, Clipboard};
use crate::input::{platform_modifier, Chord, InputSimulator, Key};
use crate::state::{stream_content, AppState};
use crate::stream::emission_of;
use crate::text::{trim, trimmed};
use crate::window::{FocusGuardedWindow, WindowCommand, WindowState};

verus! {

/// A window resize request.
#[derive(Clone, Copy, Debug, PartialEq, Eq, Structural)]
pub struct SetSizePayload {
    pub width: u32,
    pub height: u32,
}

/// One full-response value for the auto-input streamer.
#[derive(Debug)]
pub struct AutoInput {
    pub response: Vec<u8>,
}

/// A question forwarded to the answer-display collaborators.
#[derive(Debug)]
pub struct QuestionPayload {
    pub question: Vec<u8>,
}

/// What a click on the select popup carries: a UI label, a prompt template
/// and the captured selection text. Immutable once constructed.
#[derive(Debug)]
pub struct SelectPayload {
    pub label: Vec<u8>,
    pub prompt: Vec<u8>,
    pub selected: Vec<u8>,
}

/// Direct synchronous capture: the full diffing clipboard round-trip, with
/// one more rejection on top — a capture that is nothing but whitespace is no
/// selection either, since emptiness after trimming is the failure signal.
/// The clipboard is restored on every branch.
pub fn get_selected_content(clip: &mut Clipboard, selection: Option<Vec<u8>>) -> (r: Result<
    Vec<u8>,
    CaptureError,
>)
    ensures
        final(clip)@ == Some(baseline_text(old(clip)@)),
        old(clip)@ matches Some(_) ==> final(clip)@ == old(clip)@,
        match selection {
            Some(s) => if trimmed(s@) != trimmed(baseline_text(old(clip)@)) && trimmed(
                s@,
            ).len() > 0 {
                r matches Ok(t) && t@ == s@
            } else {
                r matches Err(e) && e == CaptureError::NoSelectionFound
            },
            None => r matches Err(e) && e == CaptureError::NoSelectionFound,
        },
{
    let got = match get_selected_text(clip, selection) {
        Ok(v) => v,
        Err(e) => {
            return Err(e);
        },
    };
    let t = trim(&got);
    if t.len() == 0 {
        Err(CaptureError::NoSelectionFound)
    } else {
        Ok(got)
    }
}

/// Return the previously cached selection, trimmed; fails if nothing but
/// whitespace is cached.
pub fn get_selected_content_from_cache(state: &AppState) -> (r: Result<Vec<u8>, CaptureError>)
    ensures
        trimmed(state.selected_content@).len() == 0 ==> (r matches Err(e) && e
            == CaptureError::NoSelectionFound),
        trimmed(state.selected_content@).len() > 0 ==> (r matches Ok(t) && t@ == trimmed(
            state.selected_content@,
        )),
{
    let t = trim(&state.selected_content);
    if t.len() == 0 {
        Err(CaptureError::NoSelectionFound)
    } else {
        Ok(t)
    }
}

/// An empty question is no question: the quick-answer and chat commands pass
/// `None` on instead.
pub fn nonempty_question(payload: &QuestionPayload) -> (q: Option<Vec<u8>>)
    ensures
        payload.question@.len() == 0 ==> q is None,
        payload.question@.len() > 0 ==> (q matches Some(t) && t@ == payload.question@),
{
    if payload.question.len() == 0 {
        None
    } else {
        Some(crate::text::copy_bytes(&payload.question))
    }
}

/// The prompt template and the captured selection, joined by a single space.
pub fn combine_prompt(prompt: &Vec<u8>, selected: &Vec<u8>) -> (r: Vec<u8>)
    ensures
        r@ == prompt@ + seq![32u8] + selected@,
{
    let mut r = crate::text::copy_bytes(prompt);
    r.push(32);
    let mut k: usize = 0;
    proof {
        assert(r@ =~= prompt@ + seq![32u8] + selected@.subrange(0, 0));
    }
    while k < selected.len()
        invariant
            k <= selected@.len(),
            r@ == prompt@ + seq![32u8] + selected@.subrange(0, k as int),
        decreases selected@.len() - k,
    {
        r.push(selected[k]);
        proof {
            assert(prompt@ + seq![32u8] + selected@.subrange(0, k as int + 1) =~= (prompt@
                + seq![32u8] + selected@.subrange(0, k as int)).push(selected@[k as int]));
        }
        k = k + 1;
    }
    proof {
        assert(selected@.subrange(0, selected@.len() as int) =~= selected@);
    }
    r
}

/// The configured mode string, a read-only input of the click-handling path.
pub open spec fn default_mode() -> Seq<u8> {
    // "quick-question"
    seq![113u8, 117u8, 105u8, 99u8, 107u8, 45u8, 113u8, 117u8, 101u8, 115u8, 116u8, 105u8, 111u8,
        110u8]
}

/// The mode the click handler works in: the configured one, or the default
/// when the configuration holds none.
pub fn mode_or_default(mode: Option<Vec<u8>>) -> (r: Vec<u8>)
    ensures
        mode matches Some(m) ==> r@ == m@,
        mode is None ==> r@ == default_mode(),
{
    match mode {
        Some(m) => m,
        None => {
            let mut v: Vec<u8> = Vec::new();
            v.push(113);
            v.push(117);
            v.push(105);
            v.push(99);
            v.push(107);
            v.push(45);
            v.push(113);
            v.push(117);
            v.push(101);
            v.push(115);
            v.push(116);
            v.push(105);
            v.push(111);
            v.push(110);
            proof {
                assert(v@ =~= default_mode());
            }
            v
        },
    }
}

/// Accept one full-response value from the response window: hide that window,
/// then enqueue the value for the streamer, which emits only what is new.
pub fn run_auto_input(
    state: &mut AppState,
    window: &mut FocusGuardedWindow,
    payload: AutoInput,
) -> (out: (Vec<WindowCommand>, Vec<u8>))
    ensures
        final(window).state == WindowState::Hidden,
        out.0@ == seq![WindowCommand::Hide],
        out.1@ == emission_of(stream_content(*old(state)), payload.response@),
        final(state).auto_input matches Some(st) && st@ == payload.response@,
        final(state).selected_content == old(state).selected_content,
        final(state).foreground == old(state).foreground,
        final(state).enable_select == old(state).enable_select,
{
    let cmds = window.request_hide();
    let emission = state.send_auto_input_value(payload.response);
    (cmds, emission)
}

/// One step of the click playback, in the order it must run.
#[derive(Clone, Copy, Debug, PartialEq, Eq, Structural)]
pub enum PlaybackStep {
    /// An operation on the target window.
    Window(WindowCommand),
    /// A key chord synthesized into the focused target.
    Chord(Chord),
}

/// What the click handler computed: the effective mode, the text it places on
/// the clipboard, and the ordered playback against the target window.
#[derive(Debug)]
pub struct ClickPlan {
    pub mode: Vec<u8>,
    pub combined: Vec<u8>,
    pub playback: Vec<PlaybackStep>,
}

/// The playback a click requires, in order: bring the target window forward
/// (show it, then focus it), then the paste chord that plays the clipboard
/// into it, then enter to send.
pub open spec fn click_playback(sim: InputSimulator) -> Seq<PlaybackStep> {
    seq![
        PlaybackStep::Window(WindowCommand::Show),
        PlaybackStep::Window(WindowCommand::Focus),
        PlaybackStep::Chord(
            (Chord { modifier: Some(platform_modifier(sim.platform)), key: Key::Char(118u8) }),
        ),
        PlaybackStep::Chord((Chord { modifier: None, key: Key::Return })),
    ]
}

/// Decide everything a click on the select popup requires: the effective
/// mode, the prompt template combined with the captured selection (`None`
/// counts as the empty selection), and the ordered playback — target window
/// forward and focused first, only then paste and send.
pub fn click_plan(
    payload: &SelectPayload,
    captured: Option<Vec<u8>>,
    mode: Option<Vec<u8>>,
    sim: &InputSimulator,
) -> (plan: ClickPlan)
    ensures
        mode matches Some(m) ==> plan.mode@ == m@,
        mode is None ==> plan.mode@ == default_mode(),
        plan.combined@ == payload.prompt@ + seq![32u8] + baseline_text(
            match captured {
                Some(s) => Some(s@),
                None => None,
            },
        ),
        plan.playback@ == click_playback(*sim),
{
    let mode = mode_or_default(mode);
    let selected: Vec<u8> = match captured {
        Some(s) => s,
        None => Vec::new(),
    };
    let combined = combine_prompt(&payload.prompt, &selected);
    let mut playback: Vec<PlaybackStep> = Vec::new();
    playback.push(PlaybackStep::Window(WindowCommand::Show));
    playback.push(PlaybackStep::Window(WindowCommand::Focus));
    playback.push(PlaybackStep::Chord(sim.paste()));
    playback.push(PlaybackStep::Chord(sim.press_enter()));
    proof {
        assert(playback@ =~= click_playback(*sim));
    }
    ClickPlan { mode, combined, playback }
}

/// Handle a click on the select popup: compute the plan and write the
/// combination to the clipboard, ready for the driver to run the playback in
/// order against the window the foreground tracker identified.
pub fn click_select(
    clip: &mut Clipboard,
    payload: &SelectPayload,
    captured: Option<Vec<u8>>,
    mode: Option<Vec<u8>>,
    sim: &InputSimulator,
) -> (plan: ClickPlan)
    ensures
        mode matches Some(m) ==> plan.mode@ == m@,
        mode is None ==> plan.mode@ == default_mode(),
        plan.combined@ == payload.prompt@ + seq![32u8] + baseline_text(
            match captured {
                Some(s) => Some(s@),
                None => None,
            },
        ),
        plan.playback@ == click_playback(*sim),
        final(clip)@ == Some(plan.combined@),
{
    let plan = click_plan(payload, captured, mode, sim);
    clip.write(crate::text::copy_bytes(&plan.combined));
    plan
}

} // verus!
