//! The generic SCSI passthrough of Linux (`SG_IO`).

use vstd::prelude::*;
use crate::data_direction::DataDirection;
use crate::result_data::{ResultData, Status};
use crate::command::sense::{SenseData, MAX_SENSE_BUFFER_LENGTH};

verus! {

/// The request code of the passthrough call.
pub const SG_IO: u32 = 0x2285;

/// The request code that asks a device for the version of its SCSI generic
/// driver.
pub const SG_GET_VERSION_NUM: u32 = 0x2282;

/// The lowest driver version that understands the passthrough call.
pub const SG_MINIMUM_VERSION: i32 = 30000;

/// The interface tag of the passthrough header: the letter `S`.
pub const SG_INTERFACE_ID: i32 = 0x53;

/// The flags of a plain request.
pub const SG_FLAGS_DEFAULT: u32 = 0;

/// What goes into the passthrough header before the call. The three
/// pointers of the header are not here: the command and the sense buffer
/// are always handed over, the payload only where `with_data` says so.
#[derive(Clone, Copy, Debug, PartialEq, Eq, Structural)]
pub struct SgIoRequest {
    pub interface_id: i32,
    pub data_direction: i32,
    pub command_length: u8,
    pub max_sense_buffer_length: u8,
    pub iovec_count: u16,
    pub data_length: u32,
    /// Whether the payload pointer is set.
    pub with_data: bool,
    /// Milliseconds.
    pub timeout: u32,
    pub flags: u32,
    pub pack_id: i32,
}

/// What the call wrote into the passthrough header, with what it returned.
#[derive(Clone, Copy, Debug, PartialEq, Eq, Structural)]
pub struct SgIoReply {
    /// What the call returned.
    pub ioctl_result: i32,
    /// The platform's error code, read right after a call that failed.
    pub os_error: i32,
    pub status: u8,
    pub masked_status: u8,
    pub message_status: u8,
    pub sense_buffer_written: u8,
    pub host_status: u16,
    pub driver_status: u16,
    /// The bytes asked for that did not travel.
    pub residual_count: i32,
    pub duration: u32,
    pub info: u32,
}

/// The direction flag of the passthrough header.
pub open spec fn direction_code_spec(direction: DataDirection) -> i32 {
    match direction {
        DataDirection::NoData => -1i32,
        DataDirection::ToDevice => -2i32,
        DataDirection::FromDevice => -3i32,
        DataDirection::ToFromDevice => -4i32,
        DataDirection::Unknown => -5i32,
    }
}

/// The direction flag of the passthrough header.
pub fn direction_code(direction: DataDirection) -> (r: i32)
    ensures
        r == direction_code_spec(direction),
{
    match direction {
        DataDirection::NoData => -1,
        DataDirection::ToDevice => -2,
        DataDirection::FromDevice => -3,
        DataDirection::ToFromDevice => -4,
        DataDirection::Unknown => -5,
    }
}

/// A timeout in milliseconds, cut to what the header's field can hold.
pub open spec fn clamp_millis_spec(millis: u128) -> u32 {
    if millis > u32::MAX {
        u32::MAX
    } else {
        millis as u32
    }
}

/// A timeout in milliseconds, cut to what the header's field can hold.
pub fn clamp_millis(millis: u128) -> (r: u32)
    ensures
        r == clamp_millis_spec(millis),
{
    if millis > u32::MAX as u128 {
        u32::MAX
    } else {
        millis as u32
    }
}

/// The header of a request: see `request`.
pub open spec fn request_spec(
    command_length: nat,
    direction: DataDirection,
    data_size: u32,
    timeout_millis: u128,
) -> SgIoRequest {
    SgIoRequest {
        interface_id: SG_INTERFACE_ID,
        data_direction: direction_code_spec(direction),
        command_length: (command_length % 256) as u8,
        max_sense_buffer_length: MAX_SENSE_BUFFER_LENGTH as u8,
        iovec_count: 0,
        data_length: data_size,
        with_data: data_size != 0,
        timeout: clamp_millis_spec(timeout_millis),
        flags: SG_FLAGS_DEFAULT,
        pack_id: 0,
    }
}

/// Fills the header for a command of `command_length` bytes that moves
/// `data_size` bytes in `direction`. No payload pointer is handed over where
/// no byte is to move, and the timeout is cut to the field, not wrapped. The
/// length of the command is stored in one byte, as the header has it.
pub fn request(
    command_length: usize,
    direction: DataDirection,
    data_size: u32,
    timeout_millis: u128,
) -> (r: SgIoRequest)
    ensures
        r == request_spec(command_length as nat, direction, data_size, timeout_millis),
{
    SgIoRequest {
        interface_id: SG_INTERFACE_ID,
        data_direction: direction_code(direction),
        command_length: (command_length % 256) as u8,
        max_sense_buffer_length: MAX_SENSE_BUFFER_LENGTH as u8,
        iovec_count: 0,
        data_length: data_size,
        with_data: data_size != 0,
        timeout: clamp_millis(timeout_millis),
        flags: SG_FLAGS_DEFAULT,
        pack_id: 0,
    }
}

/// Whether a driver of this version understands the passthrough call.
pub fn is_scsi_version(version: i32) -> (r: bool)
    ensures
        r == (version >= SG_MINIMUM_VERSION),
{
    version >= SG_MINIMUM_VERSION
}

/// Reads the outcome of a call out of the header: the bytes that travelled
/// are those asked for less the residual, the sense record is what the
/// device wrote, if it wrote any, and the statuses are the header's.
pub fn result(request: &SgIoRequest, reply: &SgIoReply, sense_buffer: &[u8], data: Vec<u8>) -> (r:
    ResultData)
    requires
        0 <= reply.residual_count <= request.data_length,
    ensures
        r.ioctl_result == reply.ioctl_result,
        r.os_error == reply.os_error,
        r.transfered_data_length == request.data_length - reply.residual_count,
        r.data == data,
        r.transfered_sense_length == reply.sense_buffer_written,
        r.sense_buffer.bytes() == SenseData::parsed(
            sense_buffer@,
            reply.sense_buffer_written as nat,
        ),
        reply.sense_buffer_written == 0 ==> r.transfered_sense_length == 0
            && r.sense_buffer.bytes() is None,
        r.status == Status::from_code_spec(reply.status),
        r.host_status == reply.host_status,
        r.driver_status == reply.driver_status,
{
    let written = reply.sense_buffer_written as usize;
    ResultData {
        ioctl_result: reply.ioctl_result,
        os_error: reply.os_error,
        transfered_data_length: (request.data_length - reply.residual_count as u32) as usize,
        data,
        transfered_sense_length: written,
        sense_buffer: SenseData::parse(sense_buffer, written),
        status: Status::from_code(reply.status),
        host_status: reply.host_status,
        driver_status: reply.driver_status,
    }
}

} // verus!
