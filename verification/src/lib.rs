//! Decision logic for macOS privacy-permission (TCC) checks and requests.
//!
//! Six permission categories — accessibility, camera, microphone, screen
//! recording, input monitoring and full disk access — each expose a
//! non-mutating status check and a fire-and-forget request. The operating
//! system is the source of truth for every status; this crate holds the
//! portable part of each operation: which native action the target platform
//! calls for, how a raw native status collapses to a granted/not-granted
//! boolean, and the always-granted default that every operation keeps on
//! platforms other than the target one.
//!
//! The unverified shell around this crate performs the native calls and hands
//! their results in as plain values (a raw status code, a directory-probe
//! outcome, a process-launch result). Every function here is a pure function
//! of its arguments: no operation holds state, so any two may run
//! concurrently without interference.

pub mod platform;
pub mod media;
pub mod hid;
pub mod settings;
pub mod accessibility;
pub mod camera;
pub mod microphone;
pub mod screen_recording;
pub mod input_monitoring;
pub mod full_disk_access;
pub mod laws;
