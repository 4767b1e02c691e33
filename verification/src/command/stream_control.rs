//! STREAM CONTROL: open or close a stream of the device.

use vstd::prelude::*;
use crate::bitfield::{pack, pack_vec, packed, width_upto, Field};
use crate::command::{check_bounds, first_failure, Bound, Command};
use crate::data_direction::DataDirection;
use crate::error::Error;
use crate::result_data::ResultData;
use crate::scsi::Scsi;

verus! {

pub const OPERATION_CODE: u8 = 0x9E;

pub const SERVICE_ACTION: u8 = 0x14;

/// The parameter length that a parameter builder declares: the seven bytes
/// that follow the length byte.
pub const PARAMETER_LENGTH: u8 = 0x07;

/// The number of bytes of the parameter data.
pub const DATA_LENGTH: u32 = 8;

/// The parameter data of STREAM CONTROL.
#[derive(Clone, Copy, Debug)]
pub struct DataBuffer {
    /// The number of bytes that follow this one.
    pub parameter_length: u8,
    pub assigned_stream_identifier: u16,
}

impl DataBuffer {
    /// The fields of the record in the order they travel: 8 bytes.
    pub open spec fn layout(&self) -> Seq<Field> {
        seq![
            Field { width: 8, value: self.parameter_length as u64 },
            Field { width: 24, value: 0 },
            Field { width: 16, value: self.assigned_stream_identifier as u64 },
            Field { width: 16, value: 0 },
        ]
    }

    /// Packs the record into its 8 bytes.
    pub fn to_bytes(&self) -> (r: [u8; 8])
        ensures
            r@ == packed(self.layout()),
    {
        reveal_with_fuel(width_upto, 5);
        pack(
            &[
                Field { width: 8, value: self.parameter_length as u64 },
                Field { width: 24, value: 0 },
                Field { width: 16, value: self.assigned_stream_identifier as u64 },
                Field { width: 16, value: 0 },
            ],
        )
    }

    /// The parameter data with every field zero.
    pub open spec fn zero() -> Self {
        DataBuffer { parameter_length: 0, assigned_stream_identifier: 0 }
    }

    /// The parameter data with every field zero.
    pub fn new() -> (r: Self)
        ensures
            r == Self::zero(),
    {
        DataBuffer { parameter_length: 0, assigned_stream_identifier: 0 }
    }
}

/// The options and the parameter data of a stream control. They are checked
/// when the command is issued, not when they are set.
#[derive(Clone, Copy, Debug)]
pub struct StreamControlCommand {
    /// Must fit two bits.
    pub stream_control: u8,
    pub stream_identifier: u16,
    pub control: u8,
    /// The parameter data; zero until a parameter builder is done.
    pub data_buffer: DataBuffer,
}

impl StreamControlCommand {
    /// A stream control with every option zero and parameter data of zeros.
    pub fn new() -> (r: Self)
        ensures
            r.stream_control == 0,
            r.stream_identifier == 0,
            r.control == 0,
            r.data_buffer == DataBuffer::zero(),
    {
        StreamControlCommand {
            stream_control: 0,
            stream_identifier: 0,
            control: 0,
            data_buffer: DataBuffer::new(),
        }
    }

    /// Sets the stream control field: below 0x04.
    pub fn stream_control(&mut self, value: u8) -> (r: &mut Self)
        ensures
            *r == (StreamControlCommand { stream_control: value, ..*old(self) }),
            *final(self) == *final(r),
    {
        self.stream_control = value;
        self
    }

    /// Sets the identifier of the stream.
    pub fn stream_identifier(&mut self, value: u16) -> (r: &mut Self)
        ensures
            *r == (StreamControlCommand { stream_identifier: value, ..*old(self) }),
            *final(self) == *final(r),
    {
        self.stream_identifier = value;
        self
    }

    /// Sets the control byte.
    pub fn control(&mut self, value: u8) -> (r: &mut Self)
        ensures
            *r == (StreamControlCommand { control: value, ..*old(self) }),
            *final(self) == *final(r),
    {
        self.control = value;
        self
    }

    /// Starts the parameter data for this command. Nothing of the command
    /// changes before the builder is done.
    pub fn parameter<'a>(&'a mut self) -> (r: ParameterBuilder<'a>)
        ensures
            *r.parent == *old(self),
            *final(r.parent) == *final(self),
            r.data_buffer == (DataBuffer {
                parameter_length: PARAMETER_LENGTH,
                assigned_stream_identifier: 0,
            }),
    {
        ParameterBuilder {
            parent: self,
            data_buffer: DataBuffer {
                parameter_length: PARAMETER_LENGTH,
                assigned_stream_identifier: 0,
            },
        }
    }

    /// The descriptor block of STREAM CONTROL: sixteen bytes.
    pub open spec fn layout(&self) -> Seq<Field> {
        seq![
            Field { width: 8, value: OPERATION_CODE as u64 },
            Field { width: 1, value: 0 },
            Field { width: 2, value: self.stream_control as u64 },
            Field { width: 5, value: SERVICE_ACTION as u64 },
            Field { width: 16, value: 0 },
            Field { width: 16, value: self.stream_identifier as u64 },
            Field { width: 72, value: 0 },
            Field { width: 8, value: self.control as u64 },
        ]
    }

    /// The bound checks that `issue` makes, in their order.
    pub open spec fn issue_bounds(&self) -> Seq<Bound> {
        seq![
            Bound { value: self.stream_control as u64, bits: 2, name: "stream control" },
        ]
    }

    /// What `issue` finds wrong with the options, if anything: the first
    /// bound that fails.
    pub open spec fn issue_check(&self) -> Option<Error> {
        match first_failure(self.issue_bounds()) {
            Some(e) => Some(e),
            None => {
                None
            },
        }
    }

    /// Checks the stream control field and packs the descriptor block and the
    /// parameter data.
    pub fn issue(&self) -> (r: Result<ThisCommand, Error>)
        ensures
            match self.issue_check() {
                Some(e) => r == Err::<ThisCommand, Error>(e),
                None => r matches Ok(c) && c.command_buffer@ == packed(self.layout())
                    && c.data_buffer@ == packed(self.data_buffer.layout()),
            },
    {
        let bounds = [Bound { value: self.stream_control as u64, bits: 2, name: "stream control" }];
        assert(bounds@ =~= seq![
            Bound { value: self.stream_control as u64, bits: 2, name: "stream control" },
        ]);
        check_bounds(&bounds)?;
        reveal_with_fuel(width_upto, 9);
        let command_buffer = pack_vec::<16>(
            &[
                Field { width: 8, value: OPERATION_CODE as u64 },
                Field { width: 1, value: 0 },
                Field { width: 2, value: self.stream_control as u64 },
                Field { width: 5, value: SERVICE_ACTION as u64 },
                Field { width: 16, value: 0 },
                Field { width: 16, value: self.stream_identifier as u64 },
                Field { width: 72, value: 0 },
                Field { width: 8, value: self.control as u64 },
            ],
        );
        let data = self.data_buffer.to_bytes();
        Ok(
            ThisCommand {
                command_buffer,
                data_buffer: crate::command::duplicate(data.as_slice()),
            },
        )
    }
}

/// The parameter data of a stream control, while it is put together.
#[derive(Debug)]
pub struct ParameterBuilder<'a> {
    pub parent: &'a mut StreamControlCommand,
    pub data_buffer: DataBuffer,
}

impl<'a> ParameterBuilder<'a> {
    /// Sets the assigned stream identifier.
    pub fn assigned_stream_identifier(&mut self, value: u16) -> (r: &mut Self)
        ensures
            *r == (ParameterBuilder {
                data_buffer: DataBuffer {
                    assigned_stream_identifier: value,
                    ..old(self).data_buffer
                },
                ..*old(self)
            }),
            *final(self) == *final(r),
    {
        self.data_buffer.assigned_stream_identifier = value;
        self
    }

    /// Hands the parameter data to the command; the options of the command
    /// stay.
    pub fn done(self) -> (r: Result<&'a mut StreamControlCommand, Error>)
        ensures
            r matches Ok(command) && *command == (StreamControlCommand {
                data_buffer: self.data_buffer,
                ..*old(self.parent)
            }) && *final(command) == *final(self.parent),
    {
        self.parent.data_buffer = self.data_buffer;
        Ok(self.parent)
    }
}

impl<H> Scsi<H> {
    /// A stream control with its options at their defaults.
    pub fn stream_control(&self) -> (r: StreamControlCommand)
        ensures
            r.stream_control == 0,
            r.stream_identifier == 0,
            r.control == 0,
            r.data_buffer == DataBuffer::zero(),
    {
        StreamControlCommand::new()
    }
}

/// A stream control that passed its check: the packed descriptor block and
/// the eight bytes of the parameter data, which are sent to the device.
#[derive(Debug)]
pub struct ThisCommand {
    pub command_buffer: Vec<u8>,
    pub data_buffer: Vec<u8>,
}

impl Command for ThisCommand {
    type ReturnType = Result<(), Error>;

    open spec fn direction_spec(&self) -> DataDirection {
        DataDirection::ToDevice
    }

    open spec fn command_spec(&self) -> Seq<u8> {
        self.command_buffer@
    }

    open spec fn data_spec(&self) -> Seq<u8> {
        self.data_buffer@
    }

    open spec fn data_size_spec(&self) -> u32 {
        DATA_LENGTH
    }

    fn direction(&self) -> (r: DataDirection) {
        DataDirection::ToDevice
    }

    fn command(&self) -> (r: Vec<u8>) {
        crate::command::duplicate(self.command_buffer.as_slice())
    }

    fn data(&self) -> (r: Vec<u8>) {
        crate::command::duplicate(self.data_buffer.as_slice())
    }

    fn data_size(&self) -> (r: u32) {
        DATA_LENGTH
    }

    /// Nothing, unless the transport or the device reported a failure.
    fn process_result(&self, result: ResultData) -> (r: Result<(), Error>)
        ensures
            match r {
                Ok(()) => result.passes(),
                Err(e) => result.checked(Err(e)),
            },
    {
        result.check_errors()
    }
}

} // verus!
