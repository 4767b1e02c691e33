//! REPORT TIMESTAMP: read the clock of the device.

use vstd::prelude::*;
use crate::bitfield::{field_value, get_field, get_u8, pack_vec, packed, width_upto, zeros, Field};
use crate::command::{chunk, get_array, zeroed, Command};
use crate::data_direction::DataDirection;
use crate::error::Error;
use crate::result_data::ResultData;
use crate::scsi::Scsi;

verus! {

pub const OPERATION_CODE: u8 = 0xA3;

pub const SERVICE_ACTION: u8 = 0x0F;

pub const PARAMETER_DATA_LENGTH: u32 = 12;

/// The options of a report timestamp.
#[derive(Clone, Copy, Debug)]
pub struct ReportTimestampCommand {
    pub control: u8,
}

impl ReportTimestampCommand {
    /// A report timestamp with a control byte of zero.
    pub fn new() -> (r: Self)
        ensures
            r.control == 0,
    {
        ReportTimestampCommand {
            control: 0,
        }
    }

    /// Sets the control byte.
    pub fn control(&mut self, value: u8) -> (r: &mut Self)
        ensures
            *r == (ReportTimestampCommand { control: value, ..*old(self) }),
            *final(self) == *final(r),
    {
        self.control = value;
        self
    }

    /// The descriptor block of REPORT TIMESTAMP: twelve bytes. It asks for the
    /// twelve bytes of the timestamp parameter data.
    pub open spec fn layout(&self) -> Seq<Field> {
        seq![
            Field { width: 8, value: OPERATION_CODE as u64 },
            Field { width: 3, value: 0 },
            Field { width: 5, value: SERVICE_ACTION as u64 },
            Field { width: 32, value: 0 },
            Field { width: 32, value: PARAMETER_DATA_LENGTH as u64 },
            Field { width: 8, value: 0 },
            Field { width: 8, value: self.control as u64 },
        ]
    }

    /// Packs the descriptor block. There is nothing to check.
    pub fn issue(&self) -> (r: Result<ThisCommand, Error>)
        ensures
            r matches Ok(c) && c.command_buffer@ == packed(self.layout()),
    {
        reveal_with_fuel(width_upto, 8);
        let command_buffer = pack_vec::<12>(
            &[
                Field { width: 8, value: OPERATION_CODE as u64 },
                Field { width: 3, value: 0 },
                Field { width: 5, value: SERVICE_ACTION as u64 },
                Field { width: 32, value: 0 },
                Field { width: 32, value: PARAMETER_DATA_LENGTH as u64 },
                Field { width: 8, value: 0 },
                Field { width: 8, value: self.control as u64 },
            ],
        );
        Ok(ThisCommand { command_buffer })
    }
}

impl<H> Scsi<H> {
    /// A report timestamp with its options at their defaults.
    pub fn report_timestamp(&self) -> (r: ReportTimestampCommand)
        ensures
            r.control == 0,
    {
        ReportTimestampCommand::new()
    }
}

/// The clock of the device.
#[derive(Clone, Copy, Debug)]
pub struct CommandResult {
    /// Where the device has its time from: three bits.
    pub timestamp_origin: u8,
    /// The time: forty-eight bits.
    pub timestamp: u64,
}

impl CommandResult {
    /// What the twelve bytes of timestamp parameter data say: two bytes of
    /// length, five reserved bits, three bits of origin, a reserved byte, six
    /// bytes of timestamp and two reserved bytes.
    pub open spec fn parsed(data: Seq<u8>) -> CommandResult {
        CommandResult {
            timestamp_origin: field_value(data, 21, 3) as u8,
            timestamp: field_value(data, 32, 48) as u64,
        }
    }
}

/// A report timestamp, packed.
#[derive(Debug)]
pub struct ThisCommand {
    pub command_buffer: Vec<u8>,
}

impl Command for ThisCommand {
    type ReturnType = Result<CommandResult, Error>;

    open spec fn direction_spec(&self) -> DataDirection {
        DataDirection::FromDevice
    }

    open spec fn command_spec(&self) -> Seq<u8> {
        self.command_buffer@
    }

    open spec fn data_spec(&self) -> Seq<u8> {
        zeros(PARAMETER_DATA_LENGTH as nat)
    }

    open spec fn data_size_spec(&self) -> u32 {
        PARAMETER_DATA_LENGTH
    }

    fn direction(&self) -> (r: DataDirection) {
        DataDirection::FromDevice
    }

    fn command(&self) -> (r: Vec<u8>) {
        crate::command::duplicate(self.command_buffer.as_slice())
    }

    fn data(&self) -> (r: Vec<u8>) {
        zeroed(PARAMETER_DATA_LENGTH as usize)
    }

    fn data_size(&self) -> (r: u32) {
        PARAMETER_DATA_LENGTH
    }

    /// The clock, read out of the first twelve bytes that came back (missing
    /// bytes count as zero), unless the transport or the device reported a
    /// failure.
    fn process_result(&self, result: ResultData) -> (r: Result<CommandResult, Error>)
        ensures
            match r {
                Ok(clock) => result.passes() && clock == CommandResult::parsed(
                    chunk(result.data@, 12, 0),
                ),
                Err(e) => result.checked(Err(e)),
            },
    {
        result.check_errors()?;
        let (data, rest) = get_array::<12>(result.data.as_slice());
        Ok(
            CommandResult {
                timestamp_origin: get_u8(data.as_slice(), 21, 3),
                timestamp: get_field(data.as_slice(), 32, 48),
            },
        )
    }
}

} // verus!
