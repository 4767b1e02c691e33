//! REQUEST SENSE: fetch the sense data that the device holds.

use vstd::prelude::*;
use crate::bitfield::{pack_vec, packed, width_upto, zeros, Field};
use crate::command::{zeroed, Command};
use crate::data_direction::DataDirection;
use crate::error::Error;
use crate::result_data::ResultData;
use crate::scsi::Scsi;
use crate::command::sense::{SenseData, MAX_SENSE_BUFFER_LENGTH};

verus! {

pub const OPERATION_CODE: u8 = 0x03;

/// The options of a request sense.
#[derive(Clone, Copy, Debug)]
pub struct RequestSenseCommand {
    pub descriptor_format: bool,
    pub control: u8,
}

impl RequestSenseCommand {
    /// A request sense for sense data in fixed format.
    pub fn new() -> (r: Self)
        ensures
            r.descriptor_format == false,
            r.control == 0,
    {
        RequestSenseCommand {
            descriptor_format: false,
            control: 0,
        }
    }

    /// Says whether the sense data is wanted in descriptor format.
    pub fn descriptor_format(&mut self, value: bool) -> (r: &mut Self)
        ensures
            *r == (RequestSenseCommand { descriptor_format: value, ..*old(self) }),
            *final(self) == *final(r),
    {
        self.descriptor_format = value;
        self
    }

    /// Sets the control byte.
    pub fn control(&mut self, value: u8) -> (r: &mut Self)
        ensures
            *r == (RequestSenseCommand { control: value, ..*old(self) }),
            *final(self) == *final(r),
    {
        self.control = value;
        self
    }

    /// The descriptor block of REQUEST SENSE: six bytes. It asks for as many
    /// bytes as the sense buffer takes.
    pub open spec fn layout(&self) -> Seq<Field> {
        seq![
            Field { width: 8, value: OPERATION_CODE as u64 },
            Field { width: 7, value: 0 },
            Field { width: 1, value: self.descriptor_format as u64 },
            Field { width: 16, value: 0 },
            Field { width: 8, value: MAX_SENSE_BUFFER_LENGTH as u64 },
            Field { width: 8, value: self.control as u64 },
        ]
    }

    /// Packs the descriptor block. There is nothing to check.
    pub fn issue(&self) -> (r: Result<ThisCommand, Error>)
        ensures
            r matches Ok(c) && c.command_buffer@ == packed(self.layout()),
    {
        reveal_with_fuel(width_upto, 7);
        let command_buffer = pack_vec::<6>(
            &[
                Field { width: 8, value: OPERATION_CODE as u64 },
                Field { width: 7, value: 0 },
                Field { width: 1, value: self.descriptor_format as u64 },
                Field { width: 16, value: 0 },
                Field { width: 8, value: MAX_SENSE_BUFFER_LENGTH as u64 },
                Field { width: 8, value: self.control as u64 },
            ],
        );
        Ok(ThisCommand { command_buffer })
    }
}

impl<H> Scsi<H> {
    /// A request sense with its options at their defaults.
    pub fn request_sense(&self) -> (r: RequestSenseCommand)
        ensures
            r.descriptor_format == false,
            r.control == 0,
    {
        RequestSenseCommand::new()
    }
}

/// A request sense, packed.
#[derive(Debug)]
pub struct ThisCommand {
    pub command_buffer: Vec<u8>,
}

impl Command for ThisCommand {
    type ReturnType = Result<SenseData, Error>;

    open spec fn direction_spec(&self) -> DataDirection {
        DataDirection::FromDevice
    }

    open spec fn command_spec(&self) -> Seq<u8> {
        self.command_buffer@
    }

    open spec fn data_spec(&self) -> Seq<u8> {
        zeros(MAX_SENSE_BUFFER_LENGTH as nat)
    }

    open spec fn data_size_spec(&self) -> u32 {
        MAX_SENSE_BUFFER_LENGTH as u32
    }

    fn direction(&self) -> (r: DataDirection) {
        DataDirection::FromDevice
    }

    fn command(&self) -> (r: Vec<u8>) {
        crate::command::duplicate(self.command_buffer.as_slice())
    }

    fn data(&self) -> (r: Vec<u8>) {
        zeroed(MAX_SENSE_BUFFER_LENGTH)
    }

    fn data_size(&self) -> (r: u32) {
        MAX_SENSE_BUFFER_LENGTH as u32
    }

    /// The sense data: the bytes that travelled, of those that came back,
    /// unless the transport or the device reported a failure.
    fn process_result(&self, result: ResultData) -> (r: Result<SenseData, Error>)
        ensures
            match r {
                Ok(sense) => result.passes() && sense.bytes() == SenseData::parsed(
                    result.data@,
                    result.transfered_data_length as nat,
                ),
                Err(e) => result.checked(Err(e)),
            },
    {
        result.check_errors()?;
        Ok(SenseData::parse(result.data.as_slice(), result.transfered_data_length))
    }
}

} // verus!
