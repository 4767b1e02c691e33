//! SYNCHRONIZE CACHE (10) and (16): have the device write cached blocks to
//! the medium.

use vstd::prelude::*;
use crate::bitfield::{pack_vec, packed, width_upto, Field};
use crate::command::{check_bounds, first_failure, Bound, Command};
use crate::data_direction::DataDirection;
use crate::error::Error;
use crate::result_data::ResultData;
use crate::scsi::Scsi;

verus! {

pub const OPERATION_CODE_10: u8 = 0x35;

pub const OPERATION_CODE_16: u8 = 0x91;

/// The options of a synchronize cache. They are checked when a form of the
/// command is chosen, not when they are set.
#[derive(Clone, Copy, Debug)]
pub struct SynchronizeCacheCommand {
    pub immediate: bool,
    /// Must fit five bits.
    pub group_number: u8,
    /// Must fit thirty-two bits for SYNCHRONIZE CACHE (10).
    pub logical_block_address: u64,
    /// Must fit sixteen bits for SYNCHRONIZE CACHE (10).
    pub number_of_blocks: u32,
    pub control: u8,
}

impl SynchronizeCacheCommand {
    /// A synchronize cache with every option zero.
    pub fn new() -> (r: Self)
        ensures
            r.immediate == false,
            r.group_number == 0,
            r.logical_block_address == 0,
            r.number_of_blocks == 0,
            r.control == 0,
    {
        SynchronizeCacheCommand {
            immediate: false,
            group_number: 0,
            logical_block_address: 0,
            number_of_blocks: 0,
            control: 0,
        }
    }

    /// Sets the immediate bit.
    pub fn immediate(&mut self, value: bool) -> (r: &mut Self)
        ensures
            *r == (SynchronizeCacheCommand { immediate: value, ..*old(self) }),
            *final(self) == *final(r),
    {
        self.immediate = value;
        self
    }

    /// Sets the group number: below 0x20.
    pub fn group_number(&mut self, value: u8) -> (r: &mut Self)
        ensures
            *r == (SynchronizeCacheCommand { group_number: value, ..*old(self) }),
            *final(self) == *final(r),
    {
        self.group_number = value;
        self
    }

    /// Sets the address of the first block to synchronize.
    pub fn logical_block_address(&mut self, value: u64) -> (r: &mut Self)
        ensures
            *r == (SynchronizeCacheCommand { logical_block_address: value, ..*old(self) }),
            *final(self) == *final(r),
    {
        self.logical_block_address = value;
        self
    }

    /// Sets the number of blocks to synchronize.
    pub fn number_of_blocks(&mut self, value: u32) -> (r: &mut Self)
        ensures
            *r == (SynchronizeCacheCommand { number_of_blocks: value, ..*old(self) }),
            *final(self) == *final(r),
    {
        self.number_of_blocks = value;
        self
    }

    /// Sets the control byte.
    pub fn control(&mut self, value: u8) -> (r: &mut Self)
        ensures
            *r == (SynchronizeCacheCommand { control: value, ..*old(self) }),
            *final(self) == *final(r),
    {
        self.control = value;
        self
    }

    /// The bound checks that `error_check` makes, in their order.
    pub open spec fn error_check_bounds(
        &self,
        logical_block_address_bits: u32,
        number_of_blocks_bits: u32,
    ) -> Seq<Bound> {
        seq![
            Bound { value: self.group_number as u64, bits: 5, name: "group number" },
            Bound {
                value: self.logical_block_address,
                bits: logical_block_address_bits,
                name: "logical block address",
            },
            Bound {
                value: self.number_of_blocks as u64,
                bits: number_of_blocks_bits,
                name: "number of blocks",
            },
        ]
    }

    /// What `error_check` finds wrong, if anything: the first bound that fails.
    pub open spec fn error_check_spec(
        &self,
        logical_block_address_bits: u32,
        number_of_blocks_bits: u32,
    ) -> Option<Error> {
        match first_failure(
            self.error_check_bounds(logical_block_address_bits, number_of_blocks_bits),
        ) {
            Some(e) => Some(e),
            None => {
                None
            },
        }
    }

    /// Checks the options against the field widths of one form of the command.
    pub fn error_check(
        &self,
        logical_block_address_bits: u32,
        number_of_blocks_bits: u32,
    ) -> (r: Result<(), Error>)
        ensures
            match self.error_check_spec(logical_block_address_bits, number_of_blocks_bits) {
                Some(e) => r == Err::<(), Error>(e),
                None => r is Ok,
            },
    {
        check_bounds(
            &[
                Bound { value: self.group_number as u64, bits: 5, name: "group number" },
                Bound {
                    value: self.logical_block_address,
                    bits: logical_block_address_bits,
                    name: "logical block address",
                },
                Bound {
                    value: self.number_of_blocks as u64,
                    bits: number_of_blocks_bits,
                    name: "number of blocks",
                },
            ],
        )?;
        Ok(())
    }

    /// The descriptor block of SYNCHRONIZE CACHE (10): ten bytes.
    pub open spec fn layout_10(&self) -> Seq<Field> {
        seq![
            Field { width: 8, value: OPERATION_CODE_10 as u64 },
            Field { width: 5, value: 0 },
            Field { width: 1, value: 0 },
            Field { width: 1, value: self.immediate as u64 },
            Field { width: 1, value: 0 },
            Field { width: 32, value: self.logical_block_address },
            Field { width: 3, value: 0 },
            Field { width: 5, value: self.group_number as u64 },
            Field { width: 16, value: self.number_of_blocks as u64 },
            Field { width: 8, value: self.control as u64 },
        ]
    }

    /// The descriptor block of SYNCHRONIZE CACHE (16): sixteen bytes.
    pub open spec fn layout_16(&self) -> Seq<Field> {
        seq![
            Field { width: 8, value: OPERATION_CODE_16 as u64 },
            Field { width: 5, value: 0 },
            Field { width: 1, value: 0 },
            Field { width: 1, value: self.immediate as u64 },
            Field { width: 1, value: 0 },
            Field { width: 64, value: self.logical_block_address },
            Field { width: 32, value: self.number_of_blocks as u64 },
            Field { width: 3, value: 0 },
            Field { width: 5, value: self.group_number as u64 },
            Field { width: 8, value: self.control as u64 },
        ]
    }

    /// Checks the options against SYNCHRONIZE CACHE (10) and packs its
    /// descriptor block.
    pub fn issue_10(&self) -> (r: Result<ThisCommand, Error>)
        ensures
            match self.error_check_spec(32, 16) {
                Some(e) => r == Err::<ThisCommand, Error>(e),
                None => r matches Ok(c) && c.command_buffer@ == packed(self.layout_10()),
            },
    {
        self.error_check(32, 16)?;
        reveal_with_fuel(width_upto, 11);
        let command_buffer = pack_vec::<10>(
            &[
                Field { width: 8, value: OPERATION_CODE_10 as u64 },
                Field { width: 5, value: 0 },
                Field { width: 1, value: 0 },
                Field { width: 1, value: self.immediate as u64 },
                Field { width: 1, value: 0 },
                Field { width: 32, value: self.logical_block_address },
                Field { width: 3, value: 0 },
                Field { width: 5, value: self.group_number as u64 },
                Field { width: 16, value: self.number_of_blocks as u64 },
                Field { width: 8, value: self.control as u64 },
            ],
        );
        Ok(ThisCommand { command_buffer })
    }

    /// Checks the options against SYNCHRONIZE CACHE (16) and packs its
    /// descriptor block.
    pub fn issue_16(&self) -> (r: Result<ThisCommand, Error>)
        ensures
            match self.error_check_spec(64, 32) {
                Some(e) => r == Err::<ThisCommand, Error>(e),
                None => r matches Ok(c) && c.command_buffer@ == packed(self.layout_16()),
            },
    {
        self.error_check(64, 32)?;
        reveal_with_fuel(width_upto, 11);
        let command_buffer = pack_vec::<16>(
            &[
                Field { width: 8, value: OPERATION_CODE_16 as u64 },
                Field { width: 5, value: 0 },
                Field { width: 1, value: 0 },
                Field { width: 1, value: self.immediate as u64 },
                Field { width: 1, value: 0 },
                Field { width: 64, value: self.logical_block_address },
                Field { width: 32, value: self.number_of_blocks as u64 },
                Field { width: 3, value: 0 },
                Field { width: 5, value: self.group_number as u64 },
                Field { width: 8, value: self.control as u64 },
            ],
        );
        Ok(ThisCommand { command_buffer })
    }
}

impl<H> Scsi<H> {
    /// A synchronize cache with its options at their defaults.
    pub fn synchronize_cache(&self) -> (r: SynchronizeCacheCommand)
        ensures
            r.immediate == false,
            r.group_number == 0,
            r.logical_block_address == 0,
            r.number_of_blocks == 0,
            r.control == 0,
    {
        SynchronizeCacheCommand::new()
    }
}

/// A synchronize cache that passed its checks, packed.
#[derive(Debug)]
pub struct ThisCommand {
    pub command_buffer: Vec<u8>,
}

impl Command for ThisCommand {
    type ReturnType = Result<(), Error>;

    open spec fn direction_spec(&self) -> DataDirection {
        DataDirection::NoData
    }

    open spec fn command_spec(&self) -> Seq<u8> {
        self.command_buffer@
    }

    open spec fn data_spec(&self) -> Seq<u8> {
        Seq::<u8>::empty()
    }

    open spec fn data_size_spec(&self) -> u32 {
        0
    }

    fn direction(&self) -> (r: DataDirection) {
        DataDirection::NoData
    }

    fn command(&self) -> (r: Vec<u8>) {
        let r = self.command_buffer.clone();
        assert(r@ =~= self.command_buffer@);
        r
    }

    fn data(&self) -> (r: Vec<u8>) {
        Vec::new()
    }

    fn data_size(&self) -> (r: u32) {
        0
    }

    /// Nothing, unless the transport or the device reported a failure.
    fn process_result(&self, result: ResultData) -> (r: Result<(), Error>)
        ensures
            match r {
                Ok(()) => result.passes(),
                Err(e) => result.checked(Err(e)),
            },
    {
        result.check_errors()
    }
}

} // verus!
