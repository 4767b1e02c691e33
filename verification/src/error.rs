//! What can go wrong: a bad argument before anything is sent, a transport
//! that refuses the call, or a device that reports a failure.

use vstd::prelude::*;
use std::path::PathBuf;
use crate::result_data::Status;
use crate::command::sense::SenseData;

verus! {

/// A value that does not fit the field it was meant for.
#[derive(Clone, Copy, Debug)]
pub struct BoundCheckError {
    /// The name of the field.
    pub name: &'static str,
    /// The largest value the field can hold.
    pub max: u64,
    /// The value that was offered.
    pub given: u64,
}

/// The errors of this library.
#[derive(Debug)]
pub enum Error {
    /// A value exceeds the width of the field it is meant for. Nothing was
    /// sent.
    ArgumentOutOfBounds(BoundCheckError),
    /// A combination of options that the chosen command form cannot express.
    /// Nothing was sent.
    BadArgument(&'static str),
    /// A combination of options that the chosen command form cannot express:
    /// a description that ends in a number, and the number. Nothing was sent.
    BadArgumentValue {
        /// The description.
        message: &'static str,
        /// The number that the description ends in.
        value: u64,
    },
    /// The path that was opened is no block device.
    NotBlockDevice(PathBuf),
    /// The path that was opened is a block device that does not answer as a
    /// SCSI device.
    NotScsiDevice(PathBuf),
    /// The platform call failed; the platform's error code.
    Io(i32),
    /// The platform call went through and the device reported a failure.
    Sense {
        /// The status byte of the device.
        status: Status,
        /// The sense record, if the device wrote one.
        sense: SenseData,
    },
}

} // verus!
