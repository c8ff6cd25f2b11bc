//! The editor's modal states.

use vstd::prelude::*;

verus! {

/// The editor's mode: which command surface is active.
#[derive(Clone, Copy, Debug, PartialEq, Eq, Structural)]
pub enum Mode {
    /// Move cursor, use general commands
    Cursor,
    /// Write content
    Insert,
    /// Adjust time
    Time,
    /// Go to something (transient)
    GoTo,
    /// Delete something (transient)
    Delete,
}

impl Mode {
    /// A transient mode auto-reverts to its parent mode at the start of the
    /// next key's handling.
    pub open spec fn spec_is_transient(self) -> bool {
        match self {
            Mode::Cursor => false,
            Mode::Insert => false,
            Mode::Time => false,
            Mode::GoTo => true,
            Mode::Delete => true,
        }
    }

    /// Whether this mode auto-reverts after the next key.
    pub fn is_transient(&self) -> (r: bool)
        ensures
            r == self.spec_is_transient(),
    {
        match self {
            Mode::Cursor => false,
            Mode::Insert => false,
            Mode::Time => false,
            Mode::GoTo => true,
            Mode::Delete => true,
        }
    }
}

/// Whether time adjustments cascade to later boxes (relative) or touch only
/// the box under the cursor (absolute).
#[derive(Clone, Copy, Debug, PartialEq, Eq, Structural)]
pub enum TimeMode {
    Relative,
    Absolute,
}

} // verus!
