//! The clipboard snapshot/mutate/restore protocol and selection capture.
//!
//! The OS clipboard is a single global resource shared with every other
//! application, so every operation here follows a strict discipline: snapshot
//! the current content, mutate, and write the snapshot back on every exit
//! path. The clipboard is modelled as the text it holds (`None` when it holds
//! no text at all); the driver binary performs the real OS reads and writes
//! and mirrors these functions step for step, handing the read outcomes to
//! [`capture_outcome`] for the one decision the protocol makes.
//!
//! Capture itself works by synthesizing a copy keystroke and diffing the
//! clipboard around it: if the post-copy content equals the pre-copy baseline
//! after trimming, the user had nothing selected.

use vstd::prelude::*;

use crate::text::{bytes_eq, copy_bytes, trim, trimmed};

verus! {

/// Why a clipboard read produced no text.
#[derive(Clone, Copy, Debug, PartialEq, Eq, Structural)]
pub enum ReadError {
    /// The OS clipboard could not be opened or locked; typically transient
    /// contention, surfaced immediately and never retried.
    ClipboardUnavailable,
    /// The clipboard was opened but holds no text.
    NotText,
}

/// Why a capture attempt returned no selection.
#[derive(Clone, Copy, Debug, PartialEq, Eq, Structural)]
pub enum CaptureError {
    /// The post-copy clipboard content equals the pre-copy baseline after
    /// trimming: the user had nothing selected. Distinct from a hard failure.
    NoSelectionFound,
    /// The clipboard could not be opened; the operation aborted before any
    /// mutation and the clipboard is untouched.
    ClipboardUnavailable,
}

/// The system clipboard as this core sees it: the text it holds, or `None`
/// when it holds none.
#[derive(Debug)]
pub struct Clipboard {
    pub content: Option<Vec<u8>>,
}

impl View for Clipboard {
    type V = Option<Seq<u8>>;

    open spec fn view(&self) -> Option<Seq<u8>> {
        match self.content {
            Some(t) => Some(t@),
            None => None,
        }
    }
}

/// The baseline a capture works against: the clipboard text, or the empty
/// string when the clipboard held no text (a first-ever capture must still
/// succeed).
pub open spec fn baseline_text(content: Option<Seq<u8>>) -> Seq<u8> {
    match content {
        Some(t) => t,
        None => Seq::empty(),
    }
}

impl Clipboard {
    /// A clipboard holding the given text.
    pub fn holding(text: Vec<u8>) -> (c: Clipboard)
        ensures
            c@ == Some(text@),
    {
        Clipboard { content: Some(text) }
    }

    /// A clipboard holding no text.
    pub fn holding_no_text() -> (c: Clipboard)
        ensures
            c@ is None,
    {
        Clipboard { content: None }
    }

    /// Read the clipboard text.
    pub fn read(&self) -> (r: Result<Vec<u8>, ReadError>)
        ensures
            match self@ {
                Some(t) => r matches Ok(v) && v@ == t,
                None => r matches Err(e) && e == ReadError::NotText,
            },
    {
        match &self.content {
            Some(v) => Ok(copy_bytes(v)),
            None => Err(ReadError::NotText),
        }
    }

    /// Write text to the clipboard, replacing whatever it held.
    pub fn write(&mut self, text: Vec<u8>)
        ensures
            final(self)@ == Some(text@),
    {
        self.content = Some(text);
    }

    /// The effect a synthesized copy keystroke has once the OS delivers it:
    /// the selected text replaces the clipboard content, or nothing changes
    /// when the focused application had nothing to copy.
    pub fn apply_copy(&mut self, selection: Option<Vec<u8>>)
        ensures
            match selection {
                Some(s) => final(self)@ == Some(s@),
                None => final(self)@ == old(self)@,
            },
    {
        match selection {
            Some(s) => {
                self.content = Some(s);
            },
            None => {},
        }
    }
}

/// What a read outcome contributes to the capture baseline.
pub open spec fn read_text(r: Result<Vec<u8>, ReadError>) -> Seq<u8> {
    match r {
        Ok(v) => v@,
        Err(_) => Seq::empty(),
    }
}

/// The one decision the capture protocol makes, from the two clipboard reads
/// alone: the first component is the capture result, the second the baseline
/// text that must be written back before returning (`None` only when the
/// operation aborted before touching the clipboard).
///
/// An unavailable clipboard on the first read aborts at once. A first read
/// that found no text contributes the empty baseline instead of failing. A
/// candidate that equals the baseline after trimming means nothing was
/// selected; so does a failed second read.
pub fn capture_outcome(baseline: Result<Vec<u8>, ReadError>, candidate: Result<Vec<u8>, ReadError>)
    -> (out: (Result<Vec<u8>, CaptureError>, Option<Vec<u8>>))
    ensures
        baseline matches Err(ReadError::ClipboardUnavailable) ==> out == (
            Err::<Vec<u8>, CaptureError>(CaptureError::ClipboardUnavailable),
            None::<Vec<u8>>,
        ),
        !(baseline matches Err(ReadError::ClipboardUnavailable)) ==> {
            &&& out.1 matches Some(b) && b@ == read_text(baseline)
            &&& match candidate {
                Ok(c) => if trimmed(c@) != trimmed(read_text(baseline)) {
                    out.0 matches Ok(t) && t@ == c@
                } else {
                    out.0 matches Err(e) && e == CaptureError::NoSelectionFound
                },
                Err(_) => out.0 matches Err(e) && e == CaptureError::NoSelectionFound,
            }
        },
{
    let base: Vec<u8> = match baseline {
        Ok(v) => v,
        Err(ReadError::NotText) => Vec::new(),
        Err(ReadError::ClipboardUnavailable) => {
            return (Err(CaptureError::ClipboardUnavailable), None);
        },
    };
    let result: Result<Vec<u8>, CaptureError> = match candidate {
        Ok(c) => {
            let trimmed_base = trim(&base);
            let trimmed_candidate = trim(&c);
            if !bytes_eq(&trimmed_candidate, &trimmed_base) {
                Ok(c)
            } else {
                Err(CaptureError::NoSelectionFound)
            }
        },
        Err(_) => Err(CaptureError::NoSelectionFound),
    };
    (result, Some(base))
}

/// Capture the selection of the foreground application: read the baseline,
/// let the synthesized copy reach the clipboard (`selection` is the text the
/// focused application copies, `None` when it has nothing selected), read the
/// candidate, decide, and unconditionally restore the baseline.
///
/// The clipboard ends exactly as it started whether the capture succeeds or
/// not; a clipboard that held no text ends holding the empty string, since
/// the empty baseline is what was snapshotted.
pub fn get_selected_text(clip: &mut Clipboard, selection: Option<Vec<u8>>) -> (r: Result<
    Vec<u8>,
    CaptureError,
>)
    ensures
        final(clip)@ == Some(baseline_text(old(clip)@)),
        old(clip)@ matches Some(_) ==> final(clip)@ == old(clip)@,
        match selection {
            Some(s) => if trimmed(s@) != trimmed(baseline_text(old(clip)@)) {
                r matches Ok(t) && t@ == s@
            } else {
                r matches Err(e) && e == CaptureError::NoSelectionFound
            },
            None => r matches Err(e) && e == CaptureError::NoSelectionFound,
        },
{
    let baseline = clip.read();
    clip.apply_copy(selection);
    let candidate = clip.read();
    let (result, restore) = capture_outcome(baseline, candidate);
    match restore {
        Some(b) => clip.write(b),
        None => {},
    }
    result
}

/// Place outgoing text on the clipboard, let the paste chord deliver it, and
/// restore the snapshot. Returns the text the paste delivered. A clipboard
/// with no text to snapshot aborts untouched.
pub fn copy_and_paste(clip: &mut Clipboard, text: Vec<u8>) -> (r: Result<Vec<u8>, CaptureError>)
    ensures
        match old(clip)@ {
            Some(base) => {
                &&& final(clip)@ == Some(base)
                &&& r matches Ok(p) && p@ == text@
            },
            None => {
                &&& final(clip)@ == old(clip)@
                &&& r matches Err(e) && e == CaptureError::ClipboardUnavailable
            },
        },
{
    let base: Vec<u8> = match clip.read() {
        Ok(v) => v,
        Err(_) => {
            return Err(CaptureError::ClipboardUnavailable);
        },
    };
    let pasted = copy_bytes(&text);
    clip.write(text);
    // The paste chord is synthesized here by the driver; what it delivers is
    // the clipboard content of this moment, `pasted`.
    clip.write(base);
    Ok(pasted)
}

/// Overwrite the clipboard with caller-supplied content, with no snapshot:
/// this is the deliberate "copy to clipboard" command, not a round-trip.
pub fn copy_content(clip: &mut Clipboard, content: Vec<u8>)
    ensures
        final(clip)@ == Some(content@),
{
    clip.write(content);
}

} // verus!
