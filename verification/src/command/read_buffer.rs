//! READ BUFFER (10) and (16): read from a buffer of the device.

use vstd::prelude::*;
use crate::bitfield::{pack_vec, packed, width_upto, zeros, Field};
use crate::command::{check_bounds, first_failure, zeroed, Bound, Command};
use crate::data_direction::DataDirection;
use crate::error::Error;
use crate::result_data::ResultData;
use crate::scsi::Scsi;

verus! {

pub const OPERATION_CODE_10: u8 = 0x3C;

pub const OPERATION_CODE_16: u8 = 0x9B;

/// The options of a read buffer. They are checked when a form of the command is
/// chosen, not when they are set.
#[derive(Clone, Copy, Debug)]
pub struct ReadBufferCommand {
    /// Must fit three bits.
    pub mode_specific: u8,
    /// Must fit five bits.
    pub mode: u8,
    /// Must fit twenty-four bits for READ BUFFER (10).
    pub buffer_offset: u64,
    /// Must fit twenty-four bits for READ BUFFER (10).
    pub allocation_length: u32,
    pub buffer_id: u8,
    pub control: u8,
}

impl ReadBufferCommand {
    /// A read buffer with every option zero.
    pub fn new() -> (r: Self)
        ensures
            r.mode_specific == 0,
            r.mode == 0,
            r.buffer_offset == 0,
            r.allocation_length == 0,
            r.buffer_id == 0,
            r.control == 0,
    {
        ReadBufferCommand {
            mode_specific: 0,
            mode: 0,
            buffer_offset: 0,
            allocation_length: 0,
            buffer_id: 0,
            control: 0,
        }
    }

    /// Sets the mode specific field: below 0x08.
    pub fn mode_specific(&mut self, value: u8) -> (r: &mut Self)
        ensures
            *r == (ReadBufferCommand { mode_specific: value, ..*old(self) }),
            *final(self) == *final(r),
    {
        self.mode_specific = value;
        self
    }

    /// Sets the mode: below 0x20.
    pub fn mode(&mut self, value: u8) -> (r: &mut Self)
        ensures
            *r == (ReadBufferCommand { mode: value, ..*old(self) }),
            *final(self) == *final(r),
    {
        self.mode = value;
        self
    }

    /// Sets the offset into the buffer: below 0x100_0000 for READ BUFFER (10).
    pub fn buffer_offset(&mut self, value: u64) -> (r: &mut Self)
        ensures
            *r == (ReadBufferCommand { buffer_offset: value, ..*old(self) }),
            *final(self) == *final(r),
    {
        self.buffer_offset = value;
        self
    }

    /// Sets the number of bytes to read: below 0x100_0000 for READ BUFFER (10).
    pub fn allocation_length(&mut self, value: u32) -> (r: &mut Self)
        ensures
            *r == (ReadBufferCommand { allocation_length: value, ..*old(self) }),
            *final(self) == *final(r),
    {
        self.allocation_length = value;
        self
    }

    /// Sets the buffer id.
    pub fn buffer_id(&mut self, value: u8) -> (r: &mut Self)
        ensures
            *r == (ReadBufferCommand { buffer_id: value, ..*old(self) }),
            *final(self) == *final(r),
    {
        self.buffer_id = value;
        self
    }

    /// Sets the control byte.
    pub fn control(&mut self, value: u8) -> (r: &mut Self)
        ensures
            *r == (ReadBufferCommand { control: value, ..*old(self) }),
            *final(self) == *final(r),
    {
        self.control = value;
        self
    }

    /// The bound checks that `error_check` makes, in their order.
    pub open spec fn error_check_bounds(
        &self,
        buffer_offset_bits: u32,
        allocation_length_bits: u32,
    ) -> Seq<Bound> {
        seq![
            Bound { value: self.mode_specific as u64, bits: 3, name: "mode specific" },
            Bound { value: self.mode as u64, bits: 5, name: "mode" },
            Bound { value: self.buffer_offset, bits: buffer_offset_bits, name: "buffer offset" },
            Bound {
                value: self.allocation_length as u64,
                bits: allocation_length_bits,
                name: "allocation length",
            },
        ]
    }

    /// What `error_check` finds wrong, if anything: the first bound that fails.
    pub open spec fn error_check_spec(
        &self,
        buffer_offset_bits: u32,
        allocation_length_bits: u32,
    ) -> Option<Error> {
        match first_failure(self.error_check_bounds(buffer_offset_bits, allocation_length_bits)) {
            Some(e) => Some(e),
            None => {
                None
            },
        }
    }

    /// Checks the options against the field widths of one form of the command.
    pub fn error_check(
        &self,
        buffer_offset_bits: u32,
        allocation_length_bits: u32,
    ) -> (r: Result<(), Error>)
        ensures
            match self.error_check_spec(buffer_offset_bits, allocation_length_bits) {
                Some(e) => r == Err::<(), Error>(e),
                None => r is Ok,
            },
    {
        check_bounds(
            &[
                Bound { value: self.mode_specific as u64, bits: 3, name: "mode specific" },
                Bound { value: self.mode as u64, bits: 5, name: "mode" },
                Bound {
                    value: self.buffer_offset,
                    bits: buffer_offset_bits,
                    name: "buffer offset",
                },
                Bound {
                    value: self.allocation_length as u64,
                    bits: allocation_length_bits,
                    name: "allocation length",
                },
            ],
        )?;
        Ok(())
    }

    /// The descriptor block of READ BUFFER (10): ten bytes.
    pub open spec fn layout_10(&self) -> Seq<Field> {
        seq![
            Field { width: 8, value: OPERATION_CODE_10 as u64 },
            Field { width: 3, value: self.mode_specific as u64 },
            Field { width: 5, value: self.mode as u64 },
            Field { width: 8, value: self.buffer_id as u64 },
            Field { width: 24, value: self.buffer_offset },
            Field { width: 24, value: self.allocation_length as u64 },
            Field { width: 8, value: self.control as u64 },
        ]
    }

    /// The descriptor block of READ BUFFER (16): sixteen bytes.
    pub open spec fn layout_16(&self) -> Seq<Field> {
        seq![
            Field { width: 8, value: OPERATION_CODE_16 as u64 },
            Field { width: 3, value: self.mode_specific as u64 },
            Field { width: 5, value: self.mode as u64 },
            Field { width: 64, value: self.buffer_offset },
            Field { width: 32, value: self.allocation_length as u64 },
            Field { width: 8, value: self.buffer_id as u64 },
            Field { width: 8, value: self.control as u64 },
        ]
    }

    /// Checks the options against READ BUFFER (10) and packs its descriptor
    /// block.
    pub fn issue_10(&self) -> (r: Result<ThisCommand, Error>)
        ensures
            match self.error_check_spec(24, 24) {
                Some(e) => r == Err::<ThisCommand, Error>(e),
                None => r matches Ok(c) && c.command_buffer@ == packed(self.layout_10())
                    && c.allocation_length == self.allocation_length,
            },
    {
        self.error_check(24, 24)?;
        reveal_with_fuel(width_upto, 8);
        let command_buffer = pack_vec::<10>(
            &[
                Field { width: 8, value: OPERATION_CODE_10 as u64 },
                Field { width: 3, value: self.mode_specific as u64 },
                Field { width: 5, value: self.mode as u64 },
                Field { width: 8, value: self.buffer_id as u64 },
                Field { width: 24, value: self.buffer_offset },
                Field { width: 24, value: self.allocation_length as u64 },
                Field { width: 8, value: self.control as u64 },
            ],
        );
        Ok(ThisCommand { command_buffer, allocation_length: self.allocation_length })
    }

    /// Checks the options against READ BUFFER (16) and packs its descriptor
    /// block.
    pub fn issue_16(&self) -> (r: Result<ThisCommand, Error>)
        ensures
            match self.error_check_spec(64, 32) {
                Some(e) => r == Err::<ThisCommand, Error>(e),
                None => r matches Ok(c) && c.command_buffer@ == packed(self.layout_16())
                    && c.allocation_length == self.allocation_length,
            },
    {
        self.error_check(64, 32)?;
        reveal_with_fuel(width_upto, 8);
        let command_buffer = pack_vec::<16>(
            &[
                Field { width: 8, value: OPERATION_CODE_16 as u64 },
                Field { width: 3, value: self.mode_specific as u64 },
                Field { width: 5, value: self.mode as u64 },
                Field { width: 64, value: self.buffer_offset },
                Field { width: 32, value: self.allocation_length as u64 },
                Field { width: 8, value: self.buffer_id as u64 },
                Field { width: 8, value: self.control as u64 },
            ],
        );
        Ok(ThisCommand { command_buffer, allocation_length: self.allocation_length })
    }
}

impl<H> Scsi<H> {
    /// A read buffer with its options at their defaults.
    pub fn read_buffer(&self) -> (r: ReadBufferCommand)
        ensures
            r.mode_specific == 0,
            r.mode == 0,
            r.buffer_offset == 0,
            r.allocation_length == 0,
            r.buffer_id == 0,
            r.control == 0,
    {
        ReadBufferCommand::new()
    }
}

/// A read buffer that passed its checks: the packed descriptor block, and the
/// size of the buffer for the answer.
#[derive(Debug)]
pub struct ThisCommand {
    pub command_buffer: Vec<u8>,
    pub allocation_length: u32,
}

impl Command for ThisCommand {
    type ReturnType = Result<Vec<u8>, Error>;

    open spec fn direction_spec(&self) -> DataDirection {
        DataDirection::FromDevice
    }

    open spec fn command_spec(&self) -> Seq<u8> {
        self.command_buffer@
    }

    open spec fn data_spec(&self) -> Seq<u8> {
        zeros(self.allocation_length as nat)
    }

    open spec fn data_size_spec(&self) -> u32 {
        self.allocation_length
    }

    fn direction(&self) -> (r: DataDirection) {
        DataDirection::FromDevice
    }

    fn command(&self) -> (r: Vec<u8>) {
        let r = self.command_buffer.clone();
        assert(r@ =~= self.command_buffer@);
        r
    }

    fn data(&self) -> (r: Vec<u8>) {
        zeroed(self.allocation_length as usize)
    }

    fn data_size(&self) -> (r: u32) {
        self.allocation_length
    }

    /// The bytes that were read, unless the transport or the device reported a
    /// failure.
    fn process_result(&self, result: ResultData) -> (r: Result<Vec<u8>, Error>)
        ensures
            match r {
                Ok(data) => result.passes() && data == result.data,
                Err(e) => result.checked(Err(e)),
            },
    {
        result.check_errors()?;
        Ok(result.data)
    }
}

} // verus!
