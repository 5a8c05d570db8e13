//! The build target a permission operation runs on.

use vstd::prelude::*;

verus! {

/// The platform an operation executes on. Every permission category behaves
/// natively on macOS, the target platform, and degrades to an always-granted,
/// always-succeeding default elsewhere, so that a host shell can invoke the
/// operations unconditionally without branching on platform.
#[derive(Clone, Copy, Debug, PartialEq, Eq, Structural)]
pub enum Platform {
    /// The target platform: checks and requests consult the native
    /// privacy subsystem.
    MacOs,
    /// Any other platform: checks report granted and requests succeed
    /// trivially, performing no native action.
    Other,
}

} // verus!
