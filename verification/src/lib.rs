//! Decision core of a desktop installer for a command-line binary.
//!
//! The library decides where an artifact is placed on each supported
//! platform, how elevated rights are requested, how the installer degrades
//! to a per-user location when elevation is refused, how the user's PATH is
//! extended, and how a missing container runtime is installed by trying an
//! ordered list of package managers.  Every decision is a verified function
//! over plain values; the thin shell that actually spawns processes and
//! touches the filesystem interprets the plans and events defined here.

pub mod cascade;
pub mod elevation;
pub mod env;
pub mod fsmodel;
pub mod installer;
pub mod orchestrator;
pub mod placement;
pub mod platform;
pub mod registrar;
pub mod strutil;

use vstd::prelude::*;

verus! {

/// The operating systems the installer knows how to target.
#[derive(Clone, Copy, PartialEq, Eq, Structural, Debug)]
pub enum Platform {
    MacOs,
    Windows,
    Linux,
}

} // verus!
