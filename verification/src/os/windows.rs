//! The direct SCSI passthrough of Windows (`IOCTL_SCSI_PASS_THROUGH_DIRECT`).

use vstd::prelude::*;
use crate::data_direction::DataDirection;
use crate::result_data::{ResultData, Status};
use crate::command::sense::{SenseData, MAX_SENSE_BUFFER_LENGTH};

verus! {

/// The longest command that the passthrough header has room for.
pub const MAX_COMMAND_LENGTH: usize = 16;

/// The control code of the passthrough call.
pub const IOCTL_SCSI_PASS_THROUGH_DIRECT: u32 = 0x4D014;

/// The control code that asks a device for its SCSI address.
pub const IOCTL_SCSI_GET_ADDRESS: u32 = 0x41018;

/// Judges the answer to `IOCTL_SCSI_GET_ADDRESS`: a device that returned an
/// address, of however many bytes, is a SCSI device; one that returned no
/// byte is not.
pub fn is_scsi_address(bytes_returned: u32) -> (r: bool)
    ensures
        r == (bytes_returned != 0),
{
    bytes_returned != 0
}

/// What goes into the passthrough header before the call. The length of
/// the header, the address of the payload and the offset of the sense buffer
/// depend on where the header lies in memory and are not here.
#[derive(Clone, Copy, Debug)]
pub struct PassThroughRequest {
    pub cdb_length: u8,
    pub sense_info_length: u8,
    pub data_in: u8,
    pub data_transfer_length: u32,
    /// Whole seconds.
    pub time_out_value: u32,
    /// Whether the payload pointer is set.
    pub with_data: bool,
    /// The command, filled up with zeros.
    pub cdb: [u8; 16],
}

/// What the call wrote into the passthrough header, with what it returned.
#[derive(Clone, Copy, Debug, PartialEq, Eq, Structural)]
pub struct PassThroughReply {
    /// Whether the call went through.
    pub success: bool,
    /// The platform's error code, read right after a call that failed.
    pub os_error: i32,
    pub scsi_status: u8,
    pub sense_info_length: u8,
    pub data_transfer_length: u32,
}

/// The direction flag of the passthrough header.
pub open spec fn direction_code_spec(direction: DataDirection) -> u8 {
    match direction {
        DataDirection::NoData => 2,
        DataDirection::ToDevice => 0,
        DataDirection::FromDevice => 1,
        DataDirection::ToFromDevice => 3,
        DataDirection::Unknown => 2,
    }
}

/// The direction flag of the passthrough header.
pub fn direction_code(direction: DataDirection) -> (r: u8)
    ensures
        r == direction_code_spec(direction),
{
    match direction {
        DataDirection::NoData => 2,
        DataDirection::ToDevice => 0,
        DataDirection::FromDevice => 1,
        DataDirection::ToFromDevice => 3,
        DataDirection::Unknown => 2,
    }
}

/// A timeout in whole seconds, at least one, cut to what the header's field
/// can hold.
pub open spec fn clamp_seconds_spec(seconds: u64) -> u32 {
    if seconds == 0 {
        1
    } else if seconds > u32::MAX {
        u32::MAX
    } else {
        seconds as u32
    }
}

/// A timeout in whole seconds, at least one, cut to what the header's field
/// can hold.
pub fn clamp_seconds(seconds: u64) -> (r: u32)
    ensures
        r == clamp_seconds_spec(seconds),
        r >= 1,
{
    if seconds == 0 {
        1
    } else if seconds > u32::MAX as u64 {
        u32::MAX
    } else {
        seconds as u32
    }
}

/// The command in the sixteen bytes of the header, zeros after its end.
pub open spec fn padded_command(command: Seq<u8>) -> Seq<u8> {
    Seq::new(16, |i: int| if i < command.len() { command[i] } else { 0u8 })
}

/// Fills the header for `command`, which moves `data_size` bytes in
/// `direction`. No payload pointer is handed over where no byte is to move,
/// and the timeout is cut to the field, not wrapped.
pub fn request(
    command: &[u8],
    direction: DataDirection,
    data_size: u32,
    timeout_seconds: u64,
) -> (r:
    PassThroughRequest)
    requires
        command@.len() <= MAX_COMMAND_LENGTH,
    ensures
        r.cdb_length == command@.len(),
        r.sense_info_length == MAX_SENSE_BUFFER_LENGTH,
        r.data_in == direction_code_spec(direction),
        r.data_transfer_length == data_size,
        r.time_out_value == clamp_seconds_spec(timeout_seconds),
        r.with_data == (data_size != 0),
        r.cdb@ == padded_command(command@),
{
    let (cdb, rest) = crate::command::get_array::<16>(command);
    assert(cdb@ =~= padded_command(command@));
    PassThroughRequest {
        cdb_length: command.len() as u8,
        sense_info_length: MAX_SENSE_BUFFER_LENGTH as u8,
        data_in: direction_code(direction),
        data_transfer_length: data_size,
        time_out_value: clamp_seconds(timeout_seconds),
        with_data: data_size != 0,
        cdb,
    }
}

/// Reads the outcome of a call out of the header. A call that went through
/// counts as result zero, one that did not as minus one.
pub fn result(reply: &PassThroughReply, sense_buffer: &[u8], data: Vec<u8>) -> (r: ResultData)
    ensures
        r.ioctl_result == (if reply.success { 0i32 } else { -1i32 }),
        r.os_error == reply.os_error,
        r.transfered_data_length == reply.data_transfer_length,
        r.data == data,
        r.transfered_sense_length == reply.sense_info_length,
        r.sense_buffer.bytes() == SenseData::parsed(sense_buffer@, reply.sense_info_length as nat),
        reply.sense_info_length == 0 ==> r.transfered_sense_length == 0
            && r.sense_buffer.bytes() is None,
        r.status == Status::from_code_spec(reply.scsi_status),
        r.host_status == 0,
        r.driver_status == 0,
{
    let written = reply.sense_info_length as usize;
    ResultData {
        ioctl_result: if reply.success { 0 } else { -1 },
        os_error: reply.os_error,
        transfered_data_length: reply.data_transfer_length as usize,
        data,
        transfered_sense_length: written,
        sense_buffer: SenseData::parse(sense_buffer, written),
        status: Status::from_code(reply.scsi_status),
        host_status: 0,
        driver_status: 0,
    }
}

} // verus!
