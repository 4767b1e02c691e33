//! WRITE BUFFER: write to a buffer of the device, or send it microcode.

use vstd::prelude::*;
use crate::bitfield::{pack_vec, packed, width_upto, Field};
use crate::command::{check_bounds, first_failure, Bound, Command};
use crate::data_direction::DataDirection;
use crate::error::Error;
use crate::result_data::ResultData;
use crate::scsi::Scsi;

verus! {

pub const OPERATION_CODE: u8 = 0x3B;

/// The options and the data of a write buffer. They are checked when the
/// command is issued, not when they are set.
#[derive(Debug)]
pub struct ReadBufferCommand {
    /// Must fit three bits.
    pub mode_specific: u8,
    /// Must fit five bits.
    pub mode: u8,
    pub buffer_id: u8,
    /// Must fit twenty-four bits.
    pub buffer_offset: u32,
    pub control: u8,
    /// The data to write: fewer than 0x100_0000 bytes.
    pub data_buffer: Vec<u8>,
}

impl Clone for ReadBufferCommand {
    /// A copy with the same options and the same bytes.
    fn clone(&self) -> (r: Self)
        ensures
            r.mode_specific == self.mode_specific,
            r.mode == self.mode,
            r.buffer_id == self.buffer_id,
            r.buffer_offset == self.buffer_offset,
            r.control == self.control,
            r.data_buffer@ == self.data_buffer@,
    {
        ReadBufferCommand {
            mode_specific: self.mode_specific,
            mode: self.mode,
            buffer_id: self.buffer_id,
            buffer_offset: self.buffer_offset,
            control: self.control,
            data_buffer: crate::command::duplicate(self.data_buffer.as_slice()),
        }
    }
}

impl ReadBufferCommand {
    /// A write buffer with every option zero and no data.
    pub fn new() -> (r: Self)
        ensures
            r.mode_specific == 0,
            r.mode == 0,
            r.buffer_id == 0,
            r.buffer_offset == 0,
            r.control == 0,
            r.data_buffer@ == Seq::<u8>::empty(),
    {
        ReadBufferCommand {
            mode_specific: 0,
            mode: 0,
            buffer_id: 0,
            buffer_offset: 0,
            control: 0,
            data_buffer: Vec::new(),
        }
    }

    /// Sets the mode specific field: below 0x08.
    pub fn mode_specific(&mut self, value: u8) -> (r: &mut Self)
        ensures
            *r == (ReadBufferCommand { mode_specific: value, ..*old(self) }),
            *final(self) == *final(r),
    {
        self.mode_specific = value;
        self
    }

    /// Sets the mode: below 0x20.
    pub fn mode(&mut self, value: u8) -> (r: &mut Self)
        ensures
            *r == (ReadBufferCommand { mode: value, ..*old(self) }),
            *final(self) == *final(r),
    {
        self.mode = value;
        self
    }

    /// Sets the buffer id.
    pub fn buffer_id(&mut self, value: u8) -> (r: &mut Self)
        ensures
            *r == (ReadBufferCommand { buffer_id: value, ..*old(self) }),
            *final(self) == *final(r),
    {
        self.buffer_id = value;
        self
    }

    /// Sets the offset into the buffer: below 0x100_0000.
    pub fn buffer_offset(&mut self, value: u32) -> (r: &mut Self)
        ensures
            *r == (ReadBufferCommand { buffer_offset: value, ..*old(self) }),
            *final(self) == *final(r),
    {
        self.buffer_offset = value;
        self
    }

    /// Sets the control byte.
    pub fn control(&mut self, value: u8) -> (r: &mut Self)
        ensures
            *r == (ReadBufferCommand { control: value, ..*old(self) }),
            *final(self) == *final(r),
    {
        self.control = value;
        self
    }

    /// Sets the data to write: fewer than 0x100_0000 bytes.
    pub fn parameter(&mut self, value: &[u8]) -> (r: &mut Self)
        ensures
            r.data_buffer@ == value@,
            r.mode_specific == old(self).mode_specific,
            r.mode == old(self).mode,
            r.buffer_id == old(self).buffer_id,
            r.buffer_offset == old(self).buffer_offset,
            r.control == old(self).control,
            *final(self) == *final(r),
    {
        self.data_buffer = crate::command::duplicate(value);
        self
    }

    /// The descriptor block of WRITE BUFFER: ten bytes.
    pub open spec fn layout(&self) -> Seq<Field> {
        seq![
            Field { width: 8, value: OPERATION_CODE as u64 },
            Field { width: 3, value: self.mode_specific as u64 },
            Field { width: 5, value: self.mode as u64 },
            Field { width: 8, value: self.buffer_id as u64 },
            Field { width: 24, value: self.buffer_offset as u64 },
            Field { width: 24, value: self.data_buffer.len() as u64 },
            Field { width: 8, value: self.control as u64 },
        ]
    }

    /// The bound checks that `issue` makes, in their order.
    pub open spec fn issue_bounds(&self) -> Seq<Bound> {
        seq![
            Bound { value: self.mode_specific as u64, bits: 3, name: "mode specific" },
            Bound { value: self.mode as u64, bits: 5, name: "mode" },
            Bound { value: self.buffer_offset as u64, bits: 24, name: "buffer offset" },
            Bound { value: self.data_buffer.len() as u64, bits: 24, name: "parameter length" },
        ]
    }

    /// What `issue` finds wrong with the options, if anything: the first
    /// bound that fails.
    pub open spec fn issue_check(&self) -> Option<Error> {
        match first_failure(self.issue_bounds()) {
            Some(e) => Some(e),
            None => {
                None
            },
        }
    }

    /// Checks the options and the length of the data, and packs the descriptor
    /// block.
    pub fn issue(&self) -> (r: Result<ThisCommand, Error>)
        ensures
            match self.issue_check() {
                Some(e) => r == Err::<ThisCommand, Error>(e),
                None => r matches Ok(c) && c.command_buffer@ == packed(self.layout())
                    && c.data_buffer@ == self.data_buffer@,
            },
    {
        check_bounds(
            &[
                Bound { value: self.mode_specific as u64, bits: 3, name: "mode specific" },
                Bound { value: self.mode as u64, bits: 5, name: "mode" },
                Bound { value: self.buffer_offset as u64, bits: 24, name: "buffer offset" },
                Bound { value: self.data_buffer.len() as u64, bits: 24, name: "parameter length" },
            ],
        )?;
        reveal_with_fuel(width_upto, 8);
        let command_buffer = pack_vec::<10>(
            &[
                Field { width: 8, value: OPERATION_CODE as u64 },
                Field { width: 3, value: self.mode_specific as u64 },
                Field { width: 5, value: self.mode as u64 },
                Field { width: 8, value: self.buffer_id as u64 },
                Field { width: 24, value: self.buffer_offset as u64 },
                Field { width: 24, value: self.data_buffer.len() as u64 },
                Field { width: 8, value: self.control as u64 },
            ],
        );
        Ok(
            ThisCommand {
                command_buffer,
                data_buffer: crate::command::duplicate(self.data_buffer.as_slice()),
            },
        )
    }
}

impl<H> Scsi<H> {
    /// A write buffer with its options at their defaults.
    pub fn write_buffer(&self) -> (r: ReadBufferCommand)
        ensures
            r.mode_specific == 0,
            r.mode == 0,
            r.buffer_id == 0,
            r.buffer_offset == 0,
            r.control == 0,
            r.data_buffer@ == Seq::<u8>::empty(),
    {
        ReadBufferCommand::new()
    }
}

/// A write buffer that passed its checks: the packed descriptor block and the
/// data.
#[derive(Debug)]
pub struct ThisCommand {
    pub command_buffer: Vec<u8>,
    pub data_buffer: Vec<u8>,
}

impl Command for ThisCommand {
    type ReturnType = Result<(), Error>;

    open spec fn direction_spec(&self) -> DataDirection {
        DataDirection::ToDevice
    }

    open spec fn command_spec(&self) -> Seq<u8> {
        self.command_buffer@
    }

    open spec fn data_spec(&self) -> Seq<u8> {
        self.data_buffer@
    }

    open spec fn data_size_spec(&self) -> u32 {
        (self.data_buffer@.len() % 0x1_0000_0000) as u32
    }

    fn direction(&self) -> (r: DataDirection) {
        DataDirection::ToDevice
    }

    fn command(&self) -> (r: Vec<u8>) {
        let r = self.command_buffer.clone();
        assert(r@ =~= self.command_buffer@);
        r
    }

    fn data(&self) -> (r: Vec<u8>) {
        let r = self.data_buffer.clone();
        assert(r@ =~= self.data_buffer@);
        r
    }

    fn data_size(&self) -> (r: u32) {
        (self.data_buffer.len() as u64 % 0x1_0000_0000) as u32
    }

    /// Nothing, unless the transport or the device reported a failure.
    fn process_result(&self, result: ResultData) -> (r: Result<(), Error>)
        ensures
            match r {
                Ok(()) => result.passes(),
                Err(e) => result.checked(Err(e)),
            },
    {
        result.check_errors()
    }
}

} // verus!
