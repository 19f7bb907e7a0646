use select_stream::capture::{
    capture_outcome, copy_and_paste, copy_content, get_selected_text, CaptureError, Clipboard,
    ReadError,
};

#[test]
fn capture_of_new_selection_succeeds_and_restores() {
    // Baseline clipboard "", synthesized copy sets "Hello world".
    let mut clip = Clipboard::holding(Vec::new());
    let r = get_selected_text(&mut clip, Some(b"Hello world".to_vec()));
    assert_eq!(r, Ok(b"Hello world".to_vec()));
    assert_eq!(clip.content, Some(Vec::new()));
}

#[test]
fn capture_with_unchanged_clipboard_finds_no_selection() {
    // Baseline and post-copy content both "same text".
    let mut clip = Clipboard::holding(b"same text".to_vec());
    let r = get_selected_text(&mut clip, Some(b"same text".to_vec()));
    assert_eq!(r, Err(CaptureError::NoSelectionFound));
    assert_eq!(clip.content, Some(b"same text".to_vec()));
}

#[test]
fn capture_without_copy_effect_finds_no_selection() {
    let mut clip = Clipboard::holding(b"kept".to_vec());
    let r = get_selected_text(&mut clip, None);
    assert_eq!(r, Err(CaptureError::NoSelectionFound));
    assert_eq!(clip.content, Some(b"kept".to_vec()));
}

#[test]
fn capture_compares_after_trimming() {
    // The candidate differs from the baseline only by whitespace, so nothing
    // was selected; the exact baseline is still restored.
    let mut clip = Clipboard::holding(b"  padded  ".to_vec());
    let r = get_selected_text(&mut clip, Some(b"padded".to_vec()));
    assert_eq!(r, Err(CaptureError::NoSelectionFound));
    assert_eq!(clip.content, Some(b"  padded  ".to_vec()));
}

#[test]
fn first_capture_on_textless_clipboard_succeeds() {
    let mut clip = Clipboard::holding_no_text();
    let r = get_selected_text(&mut clip, Some(b"fresh".to_vec()));
    assert_eq!(r, Ok(b"fresh".to_vec()));
    // The empty baseline that was snapshotted is what gets restored.
    assert_eq!(clip.content, Some(Vec::new()));
}

#[test]
fn whitespace_only_selection_is_no_selection() {
    let mut clip = Clipboard::holding(Vec::new());
    let r = get_selected_text(&mut clip, Some(b"   ".to_vec()));
    assert_eq!(r, Err(CaptureError::NoSelectionFound));
    assert_eq!(clip.content, Some(Vec::new()));
}

#[test]
fn outcome_of_unavailable_clipboard_aborts_without_restore() {
    let (result, restore) = capture_outcome(
        Err(ReadError::ClipboardUnavailable),
        Ok(b"anything".to_vec()),
    );
    assert_eq!(result, Err(CaptureError::ClipboardUnavailable));
    assert_eq!(restore, None);
}

#[test]
fn outcome_of_failed_second_read_restores_baseline() {
    let (result, restore) = capture_outcome(
        Ok(b"base".to_vec()),
        Err(ReadError::ClipboardUnavailable),
    );
    assert_eq!(result, Err(CaptureError::NoSelectionFound));
    assert_eq!(restore, Some(b"base".to_vec()));
}

#[test]
fn outcome_treats_textless_baseline_as_empty() {
    let (result, restore) = capture_outcome(Err(ReadError::NotText), Ok(b"picked".to_vec()));
    assert_eq!(result, Ok(b"picked".to_vec()));
    assert_eq!(restore, Some(Vec::new()));
}

#[test]
fn paste_round_trip_delivers_text_and_restores() {
    let mut clip = Clipboard::holding(b"keep me".to_vec());
    let r = copy_and_paste(&mut clip, b"outgoing".to_vec());
    assert_eq!(r, Ok(b"outgoing".to_vec()));
    assert_eq!(clip.content, Some(b"keep me".to_vec()));
}

#[test]
fn paste_round_trip_aborts_on_textless_clipboard() {
    let mut clip = Clipboard::holding_no_text();
    let r = copy_and_paste(&mut clip, b"outgoing".to_vec());
    assert_eq!(r, Err(CaptureError::ClipboardUnavailable));
    assert_eq!(clip.content, None);
}

#[test]
fn copy_content_overwrites_clipboard() {
    let mut clip = Clipboard::holding(b"before".to_vec());
    copy_content(&mut clip, b"after".to_vec());
    assert_eq!(clip.content, Some(b"after".to_vec()));
}

#[test]
fn clipboard_read_reports_no_text() {
    let clip = Clipboard::holding_no_text();
    assert_eq!(clip.read(), Err(ReadError::NotText));
    let clip = Clipboard::holding(b"text".to_vec());
    assert_eq!(clip.read(), Ok(b"text".to_vec()));
}
