//! The failures that a command can end with.

use vstd::prelude::*;

verus! {

/// Why a command did not complete.
///
/// "Already running" and "not running" are outcomes of a command, not errors,
/// and have no variant here.
#[derive(Clone, Copy, Debug, PartialEq, Eq, Structural)]
pub enum ControlError {
    /// The configuration file could not be read.
    ConfigIO,
    /// The configuration file is not text, not a document, or holds a value of
    /// the wrong shape under a known key.
    ConfigDecode,
    /// The caller lacks the privilege that daemon control demands.
    PermissionDenied,
    /// The pid file holds something other than a non-negative decimal integer.
    PidCorrupt,
    /// A signal could not be sent. No command of this crate ends with it: a
    /// stop takes a signal that reached no process as "not running".
    ProcessSignalFailed,
    /// The detach from the controlling terminal failed.
    DaemonizeFailed,
    /// A support file could not be created or a required file not opened.
    FileSystemError,
    /// The template target names a directory.
    TargetIsDirectory,
    /// The platform has no process fork or POSIX signals.
    UnsupportedPlatform,
}

} // verus!
