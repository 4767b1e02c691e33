//! Which way the payload of a transfer travels.

use vstd::prelude::*;

verus! {

/// The direction of the data phase of a command.
#[derive(Clone, Copy, Debug, PartialEq, Eq, Structural)]
pub enum DataDirection {
    /// The command has no data phase.
    NoData,
    /// The payload is sent to the device.
    ToDevice,
    /// The payload is received from the device.
    FromDevice,
    /// The payload travels both ways.
    ToFromDevice,
    /// The direction is left for the transport to work out.
    Unknown,
}

} // verus!
