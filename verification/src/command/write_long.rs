//! WRITE LONG (10) and (16): mark a logical block as holding an error, or
//! write it with its protection bytes.

use vstd::prelude::*;
use crate::bitfield::{pack_vec, packed, width_upto, Field};
use crate::command::{check_bounds, first_failure, Bound, Command};
use crate::data_direction::DataDirection;
use crate::error::Error;
use crate::result_data::ResultData;
use crate::scsi::Scsi;

verus! {

pub const OPERATION_CODE_10: u8 = 0x3F;

pub const OPERATION_CODE_16: u8 = 0x9F;

pub const SERVICE_ACTION_16: u8 = 0x11;

/// The options and the data of a write long. They are checked when a form of
/// the command is chosen, not when they are set.
#[derive(Debug)]
pub struct WriteLongCommand {
    pub wr_uncor: bool,
    /// Must fit thirty-two bits for WRITE LONG (10).
    pub logical_block_address: u64,
    pub control: u8,
    /// The data to write: at most 0xFFFF bytes.
    pub data_buffer: Vec<u8>,
}

impl Clone for WriteLongCommand {
    /// A copy with the same options and the same bytes.
    fn clone(&self) -> (r: Self)
        ensures
            r.wr_uncor == self.wr_uncor,
            r.logical_block_address == self.logical_block_address,
            r.control == self.control,
            r.data_buffer@ == self.data_buffer@,
    {
        WriteLongCommand {
            wr_uncor: self.wr_uncor,
            logical_block_address: self.logical_block_address,
            control: self.control,
            data_buffer: crate::command::duplicate(self.data_buffer.as_slice()),
        }
    }
}

impl WriteLongCommand {
    /// A write long at address zero with no data.
    pub fn new() -> (r: Self)
        ensures
            r.wr_uncor == false,
            r.logical_block_address == 0,
            r.control == 0,
            r.data_buffer@ == Seq::<u8>::empty(),
    {
        WriteLongCommand {
            wr_uncor: false,
            logical_block_address: 0,
            control: 0,
            data_buffer: Vec::new(),
        }
    }

    /// Sets the write uncorrectable error bit.
    pub fn wr_uncor(&mut self, value: bool) -> (r: &mut Self)
        ensures
            *r == (WriteLongCommand { wr_uncor: value, ..*old(self) }),
            *final(self) == *final(r),
    {
        self.wr_uncor = value;
        self
    }

    /// Sets the address of the logical block.
    pub fn logical_block_address(&mut self, value: u64) -> (r: &mut Self)
        ensures
            *r == (WriteLongCommand { logical_block_address: value, ..*old(self) }),
            *final(self) == *final(r),
    {
        self.logical_block_address = value;
        self
    }

    /// Sets the control byte.
    pub fn control(&mut self, value: u8) -> (r: &mut Self)
        ensures
            *r == (WriteLongCommand { control: value, ..*old(self) }),
            *final(self) == *final(r),
    {
        self.control = value;
        self
    }

    /// Sets the data to write: at most 0xFFFF bytes.
    pub fn parameter(&mut self, value: &[u8]) -> (r: &mut Self)
        ensures
            r.data_buffer@ == value@,
            r.wr_uncor == old(self).wr_uncor,
            r.logical_block_address == old(self).logical_block_address,
            r.control == old(self).control,
            *final(self) == *final(r),
    {
        self.data_buffer = crate::command::duplicate(value);
        self
    }

    /// The descriptor block of WRITE LONG (10): ten bytes.
    pub open spec fn layout_10(&self) -> Seq<Field> {
        seq![
            Field { width: 8, value: OPERATION_CODE_10 as u64 },
            Field { width: 1, value: 0 },
            Field { width: 1, value: self.wr_uncor as u64 },
            Field { width: 1, value: 0 },
            Field { width: 4, value: 0 },
            Field { width: 1, value: 0 },
            Field { width: 32, value: self.logical_block_address },
            Field { width: 8, value: 0 },
            Field { width: 16, value: self.data_buffer.len() as u64 },
            Field { width: 8, value: self.control as u64 },
        ]
    }

    /// The descriptor block of WRITE LONG (16): sixteen bytes.
    pub open spec fn layout_16(&self) -> Seq<Field> {
        seq![
            Field { width: 8, value: OPERATION_CODE_16 as u64 },
            Field { width: 1, value: 0 },
            Field { width: 1, value: self.wr_uncor as u64 },
            Field { width: 1, value: 0 },
            Field { width: 5, value: SERVICE_ACTION_16 as u64 },
            Field { width: 64, value: self.logical_block_address },
            Field { width: 16, value: 0 },
            Field { width: 16, value: self.data_buffer.len() as u64 },
            Field { width: 8, value: 0 },
            Field { width: 8, value: self.control as u64 },
        ]
    }

    /// The bound checks that `issue_10` makes, in their order.
    pub open spec fn issue_10_bounds(&self) -> Seq<Bound> {
        seq![
            Bound { value: self.logical_block_address, bits: 32, name: "logical block address" },
            Bound { value: self.data_buffer.len() as u64, bits: 16, name: "parameter length" },
        ]
    }

    /// What `issue_10` finds wrong with the options, if anything: the first
    /// bound that fails.
    pub open spec fn issue_10_check(&self) -> Option<Error> {
        match first_failure(self.issue_10_bounds()) {
            Some(e) => Some(e),
            None => {
                None
            },
        }
    }

    /// Checks the options against WRITE LONG (10) and packs its descriptor
    /// block.
    pub fn issue_10(&self) -> (r: Result<ThisCommand, Error>)
        ensures
            match self.issue_10_check() {
                Some(e) => r == Err::<ThisCommand, Error>(e),
                None => r matches Ok(c) && c.command_buffer@ == packed(self.layout_10())
                    && c.data_buffer@ == self.data_buffer@,
            },
    {
        check_bounds(
            &[
                Bound {
                    value: self.logical_block_address,
                    bits: 32,
                    name: "logical block address",
                },
                Bound { value: self.data_buffer.len() as u64, bits: 16, name: "parameter length" },
            ],
        )?;
        reveal_with_fuel(width_upto, 11);
        let command_buffer = pack_vec::<10>(
            &[
                Field { width: 8, value: OPERATION_CODE_10 as u64 },
                Field { width: 1, value: 0 },
                Field { width: 1, value: self.wr_uncor as u64 },
                Field { width: 1, value: 0 },
                Field { width: 4, value: 0 },
                Field { width: 1, value: 0 },
                Field { width: 32, value: self.logical_block_address },
                Field { width: 8, value: 0 },
                Field { width: 16, value: self.data_buffer.len() as u64 },
                Field { width: 8, value: self.control as u64 },
            ],
        );
        Ok(
            ThisCommand {
                command_buffer,
                data_buffer: crate::command::duplicate(self.data_buffer.as_slice()),
            },
        )
    }

    /// The bound checks that `issue_16` makes, in their order.
    pub open spec fn issue_16_bounds(&self) -> Seq<Bound> {
        seq![
            Bound { value: self.data_buffer.len() as u64, bits: 16, name: "parameter length" },
        ]
    }

    /// What `issue_16` finds wrong with the options, if anything: the first
    /// bound that fails.
    pub open spec fn issue_16_check(&self) -> Option<Error> {
        match first_failure(self.issue_16_bounds()) {
            Some(e) => Some(e),
            None => {
                None
            },
        }
    }

    /// Checks the options against WRITE LONG (16) and packs its descriptor
    /// block.
    pub fn issue_16(&self) -> (r: Result<ThisCommand, Error>)
        ensures
            match self.issue_16_check() {
                Some(e) => r == Err::<ThisCommand, Error>(e),
                None => r matches Ok(c) && c.command_buffer@ == packed(self.layout_16())
                    && c.data_buffer@ == self.data_buffer@,
            },
    {
        let bounds = [
            Bound { value: self.data_buffer.len() as u64, bits: 16, name: "parameter length" },
        ];
        assert(bounds@ =~= seq![
            Bound { value: self.data_buffer.len() as u64, bits: 16, name: "parameter length" },
        ]);
        check_bounds(&bounds)?;
        reveal_with_fuel(width_upto, 11);
        let command_buffer = pack_vec::<16>(
            &[
                Field { width: 8, value: OPERATION_CODE_16 as u64 },
                Field { width: 1, value: 0 },
                Field { width: 1, value: self.wr_uncor as u64 },
                Field { width: 1, value: 0 },
                Field { width: 5, value: SERVICE_ACTION_16 as u64 },
                Field { width: 64, value: self.logical_block_address },
                Field { width: 16, value: 0 },
                Field { width: 16, value: self.data_buffer.len() as u64 },
                Field { width: 8, value: 0 },
                Field { width: 8, value: self.control as u64 },
            ],
        );
        Ok(
            ThisCommand {
                command_buffer,
                data_buffer: crate::command::duplicate(self.data_buffer.as_slice()),
            },
        )
    }
}

impl<H> Scsi<H> {
    /// A write long with its options at their defaults.
    pub fn write_long(&self) -> (r: WriteLongCommand)
        ensures
            r.wr_uncor == false,
            r.logical_block_address == 0,
            r.control == 0,
            r.data_buffer@ == Seq::<u8>::empty(),
    {
        WriteLongCommand::new()
    }
}

/// A write long that passed its checks: the packed descriptor block and the
/// data.
#[derive(Debug)]
pub struct ThisCommand {
    pub command_buffer: Vec<u8>,
    pub data_buffer: Vec<u8>,
}

impl Command for ThisCommand {
    type ReturnType = Result<(), Error>;

    open spec fn direction_spec(&self) -> DataDirection {
        DataDirection::ToDevice
    }

    open spec fn command_spec(&self) -> Seq<u8> {
        self.command_buffer@
    }

    open spec fn data_spec(&self) -> Seq<u8> {
        self.data_buffer@
    }

    open spec fn data_size_spec(&self) -> u32 {
        (self.data_buffer@.len() % 0x1_0000_0000) as u32
    }

    fn direction(&self) -> (r: DataDirection) {
        DataDirection::ToDevice
    }

    fn command(&self) -> (r: Vec<u8>) {
        let r = self.command_buffer.clone();
        assert(r@ =~= self.command_buffer@);
        r
    }

    fn data(&self) -> (r: Vec<u8>) {
        let r = self.data_buffer.clone();
        assert(r@ =~= self.data_buffer@);
        r
    }

    fn data_size(&self) -> (r: u32) {
        (self.data_buffer.len() as u64 % 0x1_0000_0000) as u32
    }

    /// Nothing, unless the transport or the device reported a failure.
    fn process_result(&self, result: ResultData) -> (r: Result<(), Error>)
        ensures
            match r {
                Ok(()) => result.passes(),
                Err(e) => result.checked(Err(e)),
            },
    {
        result.check_errors()
    }
}

} // verus!
