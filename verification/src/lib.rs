//! Guest-side runtime model for a sandboxed process that manipulates
//! host-resident resources: a shared text display, RAM-backed filesystems,
//! subprocesses, and spawned work items.
//!
//! The host only speaks in integers, fixed-width identifier buffers and
//! status codes.  This crate holds the verified guest logic: the identifier
//! codec, the filesystem-label grammar, the mapping from raw status codes to
//! typed errors, and state-machine models of the host protocols (display
//! arbitration, the RAM filesystem, and the run-exactly-once task handoff).
//! The thin layer that actually crosses the process boundary lives outside
//! this crate and hands plain values in and out.

pub mod display;
pub mod fs;
pub mod ident;
pub mod network;
pub mod process;
pub mod task;
