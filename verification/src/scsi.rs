//! A SCSI device as the commands see it: where it was opened, the handle it
//! was opened with, and how long a command may take.

use vstd::prelude::*;
use std::path::PathBuf;
use std::time::Duration;
use crate::command::Command;
use crate::error::Error;
use crate::os::linux::{self, SgIoRequest};
use crate::os::windows::{self, PassThroughRequest, MAX_COMMAND_LENGTH};

verus! {

/// `std::path::PathBuf`, made known to the verifier as a type whose values
/// are carried along and never looked into.
#[verifier::external_type_specification]
#[verifier::external_body]
pub struct ExPathBuf(PathBuf);

/// The whole milliseconds of a `std::time::Duration`: what
/// `Duration::as_millis` returns.
pub uninterp spec fn duration_millis(duration: Duration) -> u128;

/// The whole seconds of a `std::time::Duration`: what `Duration::as_secs`
/// returns.
pub uninterp spec fn duration_secs(duration: Duration) -> u64;

/// `Duration::as_millis`: the total number of whole milliseconds that the
/// duration holds. It depends on the duration alone. This is taken from the
/// documentation of the standard library, not proved.
pub assume_specification[ Duration::as_millis ](duration: &Duration) -> (r: u128)
    ensures
        r == duration_millis(*duration),
;

/// `Duration::as_secs`: the number of whole seconds that the duration
/// holds. It depends on the duration alone. This is taken from the
/// documentation of the standard library, not proved.
pub assume_specification[ Duration::as_secs ](duration: &Duration) -> (r: u64)
    ensures
        r == duration_secs(*duration),
;

/// `Duration::from_millis`: the duration of that many milliseconds, which
/// holds that many whole milliseconds and a thousandth of them in whole
/// seconds. This is taken from the documentation of the standard library,
/// not proved.
pub assume_specification[ Duration::from_millis ](millis: u64) -> (r: Duration)
    ensures
        duration_millis(r) == millis,
        duration_secs(r) == millis / 1000,
;

/// The time a command may take where nothing else was asked for, in
/// milliseconds.
pub const SG_DEFAULT_TIMEOUT: u64 = 60_000;

/// An open SCSI device. `H` is the handle the platform gave for it; the
/// library carries it and never looks into it.
#[derive(Debug)]
pub struct Scsi<H> {
    path: PathBuf,
    file_descriptor: H,
    timeout: Duration,
}

impl<H> Scsi<H> {
    /// The path the device was opened at.
    pub closed spec fn path_spec(&self) -> PathBuf {
        self.path
    }

    /// The handle of the device.
    pub closed spec fn file_descriptor_spec(&self) -> H {
        self.file_descriptor
    }

    /// The time a command may take.
    pub closed spec fn timeout_spec(&self) -> Duration {
        self.timeout
    }

    /// Takes over a freshly opened handle, given what the two probes of it
    /// said: whether it is a block device, and whether it answers as a SCSI
    /// device. A handle that is no block device is refused as such whatever
    /// the second probe said; one that is a block device and no SCSI device
    /// is refused as that. The device starts with the default timeout.
    pub fn from_descriptor(path: PathBuf, file_descriptor: H, is_block: bool, is_scsi: bool) -> (r:
        Result<Scsi<H>, Error>)
        ensures
            !is_block ==> (r matches Err(Error::NotBlockDevice(p)) && p == path),
            is_block && !is_scsi ==> (r matches Err(Error::NotScsiDevice(p)) && p == path),
            is_block && is_scsi ==> (r matches Ok(scsi) && scsi.path_spec() == path
                && scsi.file_descriptor_spec() == file_descriptor && duration_millis(
                scsi.timeout_spec(),
            ) == SG_DEFAULT_TIMEOUT && duration_secs(scsi.timeout_spec()) == SG_DEFAULT_TIMEOUT
                / 1000),
    {
        if !is_block {
            return Err(Error::NotBlockDevice(path));
        }
        if !is_scsi {
            return Err(Error::NotScsiDevice(path));
        }
        Ok(Scsi { path, file_descriptor, timeout: Duration::from_millis(SG_DEFAULT_TIMEOUT) })
    }

    /// The path the device was opened at.
    pub fn path(&self) -> (r: &PathBuf)
        ensures
            *r == self.path_spec(),
    {
        &self.path
    }

    /// The handle of the device.
    pub fn file_descriptor(&self) -> (r: &H)
        ensures
            *r == self.file_descriptor_spec(),
    {
        &self.file_descriptor
    }

    /// Sets the time a command may take; nothing else changes.
    pub fn set_timeout(&mut self, timeout: Duration)
        ensures
            final(self).timeout_spec() == timeout,
            final(self).path_spec() == old(self).path_spec(),
            final(self).file_descriptor_spec() == old(self).file_descriptor_spec(),
    {
        self.timeout = timeout;
    }

    /// The time a command may take.
    pub fn timeout(&self) -> (r: Duration)
        ensures
            r == self.timeout_spec(),
    {
        self.timeout
    }

    /// The passthrough header of Linux for `command` on this device: the
    /// command's length, direction and byte count, and this device's timeout
    /// in milliseconds, cut to the header's field.
    pub fn sg_io_request<T: Command>(&self, command: &T) -> (r: SgIoRequest)
        ensures
            r == linux::request_spec(
                command.command_spec().len(),
                command.direction_spec(),
                command.data_size_spec(),
                duration_millis(self.timeout_spec()),
            ),
    {
        let command_buffer = command.command();
        linux::request(
            command_buffer.len(),
            command.direction(),
            command.data_size(),
            self.timeout.as_millis(),
        )
    }

    /// The passthrough header of Windows for `command` on this device: the
    /// command itself, its direction and byte count, and this device's
    /// timeout in whole seconds, at least one, cut to the header's field.
    /// The header has room for sixteen bytes of command.
    pub fn pass_through_request<T: Command>(&self, command: &T) -> (r: PassThroughRequest)
        requires
            command.command_spec().len() <= MAX_COMMAND_LENGTH,
        ensures
            r.cdb_length == command.command_spec().len(),
            r.sense_info_length == crate::command::sense::MAX_SENSE_BUFFER_LENGTH,
            r.data_in == windows::direction_code_spec(command.direction_spec()),
            r.data_transfer_length == command.data_size_spec(),
            r.time_out_value == windows::clamp_seconds_spec(duration_secs(self.timeout_spec())),
            r.with_data == (command.data_size_spec() != 0),
            r.cdb@ == windows::padded_command(command.command_spec()),
    {
        let command_buffer = command.command();
        windows::request(
            command_buffer.as_slice(),
            command.direction(),
            command.data_size(),
            self.timeout.as_secs(),
        )
    }
}

} // verus!
