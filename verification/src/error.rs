//! Error kinds for device discovery, capability filtering and per-device
//! command handling.

use vstd::prelude::*;

verus! {

/// Every failure a command can meet, per device or before any device is
/// touched.
///
/// All kinds are recoverable for the invocation as a whole except that the
/// dispatcher turns any recorded failure into a non-zero exit status.
#[derive(Clone, PartialEq, Eq, Debug)]
pub enum CmdError {
    /// No bus object implements the requested capability interface.
    NoDeviceFound,
    /// The device's declared capability set does not cover the requested
    /// operation; the device is skipped with a notice.
    Unsupported,
    /// The device reported a current mode that is not in its own supported
    /// list: a capability/state desync, reported and skipped.
    ModeNotInSupportedSet,
    /// The user asked for two mutually exclusive things at once; rejected
    /// before any device is touched.
    AmbiguousUserInput,
    /// The transport or the remote service failed; carries the remote
    /// message.
    RemoteError(String),
}

} // verus!
