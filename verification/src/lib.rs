//! Verified core of an editor: its debugger client, its model of `git
//! status`, and the text of its mode indicator.
//!
//! * [`dap`] is a debug-adapter protocol client without I/O: starting an
//!   adapter, framing, message decoding, request/response correlation, the
//!   commands, and the per-thread state cache.
//! * [`git`] models the status codes of files and reads the output of
//!   `git status`.
//! * [`vim`] composes the text of the mode indicator.
//! * [`json`] gives `serde_json` values a mathematical model and wraps the
//!   calls that the rest of the crate makes into that crate.
//! * [`text`] builds strings.
//!
//! Nothing here reads a stream, spawns a process or waits: the caller does
//! that, and asks this crate what to do next.
//!
//! Two parts of the editor are not in this crate, nor in the code around it:
//! its view handles (`AnyView`, `AnyWeakModel`, `EmptyView`) and its update
//! notification (`UpdateNotification`). They are made of the UI framework's
//! own entities, windows and elements, and of lengths in pixels, and decide
//! nothing that could be told apart from those.
pub mod json;
pub mod text;
pub mod dap;
pub mod git;
pub mod vim;
