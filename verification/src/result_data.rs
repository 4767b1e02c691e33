//! What a dispatched transfer brought back, and the two checks that every
//! command makes on it before it looks at the payload.

use vstd::prelude::*;
use crate::error::Error;
use crate::command::sense::SenseData;

verus! {

/// The status byte with which a device completes a command.
#[derive(Clone, Copy, Debug, PartialEq, Eq, Structural)]
pub enum Status {
    Good,
    CheckCondition,
    ConditionMet,
    Busy,
    Intermediate,
    IntermediateConditionMet,
    ReservationConflict,
    CommandTerminated,
    TaskSetFull,
    AcaActive,
    TaskAborted,
    /// A status byte that the standard does not name.
    Other(u8),
}

impl Status {
    /// The status byte that stands for a status.
    pub open spec fn code_spec(self) -> u8 {
        match self {
            Status::Good => 0x00,
            Status::CheckCondition => 0x02,
            Status::ConditionMet => 0x04,
            Status::Busy => 0x08,
            Status::Intermediate => 0x10,
            Status::IntermediateConditionMet => 0x14,
            Status::ReservationConflict => 0x18,
            Status::CommandTerminated => 0x22,
            Status::TaskSetFull => 0x28,
            Status::AcaActive => 0x30,
            Status::TaskAborted => 0x40,
            Status::Other(code) => code,
        }
    }

    /// The status that a status byte stands for.
    pub open spec fn from_code_spec(code: u8) -> Status {
        if code == 0x00 {
            Status::Good
        } else if code == 0x02 {
            Status::CheckCondition
        } else if code == 0x04 {
            Status::ConditionMet
        } else if code == 0x08 {
            Status::Busy
        } else if code == 0x10 {
            Status::Intermediate
        } else if code == 0x14 {
            Status::IntermediateConditionMet
        } else if code == 0x18 {
            Status::ReservationConflict
        } else if code == 0x22 {
            Status::CommandTerminated
        } else if code == 0x28 {
            Status::TaskSetFull
        } else if code == 0x30 {
            Status::AcaActive
        } else if code == 0x40 {
            Status::TaskAborted
        } else {
            Status::Other(code)
        }
    }

    /// Names a status byte.
    pub fn from_code(code: u8) -> (r: Status)
        ensures
            r == Self::from_code_spec(code),
            r.code_spec() == code,
    {
        match code {
            0x00 => Status::Good,
            0x02 => Status::CheckCondition,
            0x04 => Status::ConditionMet,
            0x08 => Status::Busy,
            0x10 => Status::Intermediate,
            0x14 => Status::IntermediateConditionMet,
            0x18 => Status::ReservationConflict,
            0x22 => Status::CommandTerminated,
            0x28 => Status::TaskSetFull,
            0x30 => Status::AcaActive,
            0x40 => Status::TaskAborted,
            _ => Status::Other(code),
        }
    }

    /// The status byte of a status.
    pub fn code(self) -> (r: u8)
        ensures
            r == self.code_spec(),
    {
        match self {
            Status::Good => 0x00,
            Status::CheckCondition => 0x02,
            Status::ConditionMet => 0x04,
            Status::Busy => 0x08,
            Status::Intermediate => 0x10,
            Status::IntermediateConditionMet => 0x14,
            Status::ReservationConflict => 0x18,
            Status::CommandTerminated => 0x22,
            Status::TaskSetFull => 0x28,
            Status::AcaActive => 0x30,
            Status::TaskAborted => 0x40,
            Status::Other(code) => code,
        }
    }
}

/// What one dispatched transfer brought back.
#[derive(Debug)]
pub struct ResultData {
    /// What the platform call returned: zero where it went through.
    pub ioctl_result: i32,
    /// The platform's error code for a call that did not go through.
    pub os_error: i32,
    /// The number of payload bytes that travelled.
    pub transfered_data_length: usize,
    /// The payload buffer after the call.
    pub data: Vec<u8>,
    /// The number of sense bytes the device wrote.
    pub transfered_sense_length: usize,
    /// The sense record, if the device wrote one.
    pub sense_buffer: SenseData,
    /// The status byte of the device.
    pub status: Status,
    /// The status of the host adapter.
    pub host_status: u16,
    /// The status of the driver.
    pub driver_status: u16,
}

impl ResultData {
    /// Whether the platform call itself failed.
    pub open spec fn transport_failed(&self) -> bool {
        self.ioctl_result != 0
    }

    /// Whether the device reported a failure: a status other than good, or
    /// sense data.
    pub open spec fn device_failed(&self) -> bool {
        self.status != Status::Good || self.transfered_sense_length != 0
    }

    /// Whether neither the transport nor the device reported a failure.
    pub open spec fn passes(&self) -> bool {
        !self.transport_failed() && !self.device_failed()
    }

    /// Whether `r` is what the two checks, made in their order, say of this
    /// result: a failed call is a transport error, whatever the device fields
    /// hold; a call that went through to a device that reports a failure is a
    /// device error with the device's status and sense record; anything else
    /// is no error.
    pub open spec fn checked(&self, r: Result<(), Error>) -> bool {
        if self.transport_failed() {
            r == Err::<(), Error>(Error::Io(self.os_error))
        } else if self.device_failed() {
            r matches Err(Error::Sense { status, sense }) && status == self.status && sense.bytes()
                == self.sense_buffer.bytes()
        } else {
            r is Ok
        }
    }

    /// The transport-level check: fails where the platform call failed, with
    /// the platform's error code, and only there.
    pub fn check_ioctl_error(&self) -> (r: Result<(), Error>)
        ensures
            self.transport_failed() ==> r == Err::<(), Error>(Error::Io(self.os_error)),
            !self.transport_failed() ==> r is Ok,
    {
        if self.ioctl_result != 0 {
            Err(Error::Io(self.os_error))
        } else {
            Ok(())
        }
    }

    /// The device-level check: fails where the device reported a status other
    /// than good or wrote sense data, with that status and that sense record,
    /// and only there.
    pub fn check_common_error(&self) -> (r: Result<(), Error>)
        ensures
            self.device_failed() ==> (r matches Err(Error::Sense { status, sense }) && status
                == self.status && sense.bytes() == self.sense_buffer.bytes()),
            !self.device_failed() ==> r is Ok,
    {
        let good = match self.status {
            Status::Good => true,
            _ => false,
        };
        if !good || self.transfered_sense_length != 0 {
            Err(Error::Sense { status: self.status, sense: self.sense_buffer.duplicate() })
        } else {
            Ok(())
        }
    }

    /// Both checks in their order: the transport first, and the device only
    /// where the transport call went through.
    pub fn check_errors(&self) -> (r: Result<(), Error>)
        ensures
            self.checked(r),
    {
        match self.check_ioctl_error() {
            Err(e) => Err(e),
            Ok(()) => self.check_common_error(),
        }
    }

    /// The payload buffer.
    pub fn data(&self) -> (r: &Vec<u8>)
        ensures
            r == &self.data,
    {
        &self.data
    }
}

/// A transport failure is never reported as a device error, whatever the
/// device fields of the result hold.
pub proof fn lemma_transport_failure_first(result: ResultData, r: Result<(), Error>)
    requires
        result.transport_failed(),
        result.checked(r),
    ensures
        r == Err::<(), Error>(Error::Io(result.os_error)),
        !(r matches Err(Error::Sense { .. })),
{
}

/// A device failure behind a transport call that went through is always
/// reported, with the device's status and its sense record.
pub proof fn lemma_device_failure_reported(result: ResultData, r: Result<(), Error>)
    requires
        !result.transport_failed(),
        result.device_failed(),
        result.checked(r),
    ensures
        r matches Err(Error::Sense { status, sense }) && status == result.status && sense.bytes()
            == result.sense_buffer.bytes(),
{
}

} // verus!
