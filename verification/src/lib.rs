//! A process-control backend for a debugger: it lists processes, attaches to
//! them, resumes them, waits for them and resolves their task ports.
//!
//! The operating system's primitives are called by the embedding code; this
//! library decides what is handed to them and what their answers mean. Each
//! operation is a function of what the primitive reported: its response
//! code, the `errno` it left, the kernel's return code. Error codes are told
//! apart by a table that the caller hands in; [`errno::ErrnoCodes::platform`]
//! gives the one of the platform. The answers come in two layers: typed
//! results with an error taxonomy, and tagged outcomes that carry a
//! human-readable message on failure.
//!
//! - [`enumerator`]: the process list, with placeholder names.
//! - [`attacher`]: attach and detach.
//! - [`controller`]: continue and wait.
//! - [`task`]: task-port resolution.
//! - [`trace`]: the classification that attach, detach and continue share.
//! - [`probe`]: an attach together with a task-port lookup, as text.
//! - [`errno`]: the platform's error codes.
//! - [`text`]: decimal rendering for the messages.

pub mod attacher;
pub mod controller;
pub mod enumerator;
pub mod errno;
pub mod probe;
pub mod task;
pub mod text;
pub mod trace;
