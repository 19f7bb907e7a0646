//! Selection capture and auto-input streaming core.
//!
//! The library extracts "what the user selected" from the foreground
//! application by diffing the system clipboard around a synthesized copy
//! keystroke, and routes generated response text back into that application
//! as a stream of incremental paste emissions. Everything with an invariant
//! lives here: the clipboard snapshot/restore protocol, the per-platform key
//! chord mapping, the foreground-window tracker, the incremental-diff
//! streamer, and the focus-guarded popup state machine. The driver binary
//! performs the actual OS calls and hands their outcomes to these functions.

pub mod capture;
pub mod command;
pub mod foreground;
pub mod input;
pub mod state;
pub mod stream;
pub mod text;
pub mod window;
