//! WRITE SAME (10), (16) and (32): write one block to a range of logical
//! blocks.

use vstd::prelude::*;
use crate::bitfield::{pack_vec, packed, width_upto, Field};
use crate::command::{check_bounds, first_failure, Bound, Command};
use crate::data_direction::DataDirection;
use crate::error::Error;
use crate::result_data::ResultData;
use crate::scsi::Scsi;

verus! {

pub const OPERATION_CODE_10: u8 = 0x41;

pub const OPERATION_CODE_16: u8 = 0x93;

pub const OPERATION_CODE_32: u8 = 0x7F;

pub const SERVICE_ACTION_32: u16 = 0x000D;

/// The options and the block of a write same. They are checked when a form of
/// the command is chosen, not when they are set.
#[derive(Debug)]
pub struct WriteSameCommand {
    pub control: u8,
    /// Must fit five bits.
    pub group_number: u8,
    /// Must fit three bits.
    pub write_protect: u8,
    pub anchor: bool,
    pub unmap: bool,
    /// WRITE SAME (10) has no such bit.
    pub no_data_out_buffer: bool,
    /// Must fit thirty-two bits for WRITE SAME (10).
    pub logical_block_address: u64,
    pub expected_initial_logical_block_reference_tag: u32,
    pub expected_logical_block_application_tag: u16,
    pub logical_block_application_tag_mask: u16,
    /// Must fit sixteen bits for WRITE SAME (10).
    pub number_of_blocks: u32,
    /// The block to write again and again.
    pub data_buffer: Vec<u8>,
}

impl Clone for WriteSameCommand {
    /// A copy with the same options and the same bytes.
    fn clone(&self) -> (r: Self)
        ensures
            r.control == self.control,
            r.group_number == self.group_number,
            r.write_protect == self.write_protect,
            r.anchor == self.anchor,
            r.unmap == self.unmap,
            r.no_data_out_buffer == self.no_data_out_buffer,
            r.logical_block_address == self.logical_block_address,
            r.expected_initial_logical_block_reference_tag
                == self.expected_initial_logical_block_reference_tag,
            r.expected_logical_block_application_tag == self.expected_logical_block_application_tag,
            r.logical_block_application_tag_mask == self.logical_block_application_tag_mask,
            r.number_of_blocks == self.number_of_blocks,
            r.data_buffer@ == self.data_buffer@,
    {
        WriteSameCommand {
            control: self.control,
            group_number: self.group_number,
            write_protect: self.write_protect,
            anchor: self.anchor,
            unmap: self.unmap,
            no_data_out_buffer: self.no_data_out_buffer,
            logical_block_address: self.logical_block_address,
            expected_initial_logical_block_reference_tag:
                self.expected_initial_logical_block_reference_tag,
            expected_logical_block_application_tag: self.expected_logical_block_application_tag,
            logical_block_application_tag_mask: self.logical_block_application_tag_mask,
            number_of_blocks: self.number_of_blocks,
            data_buffer: crate::command::duplicate(self.data_buffer.as_slice()),
        }
    }
}

impl WriteSameCommand {
    /// A write same of no blocks at address zero.
    pub fn new() -> (r: Self)
        ensures
            r.control == 0,
            r.group_number == 0,
            r.write_protect == 0,
            r.anchor == false,
            r.unmap == false,
            r.no_data_out_buffer == false,
            r.logical_block_address == 0,
            r.expected_initial_logical_block_reference_tag == 0,
            r.expected_logical_block_application_tag == 0,
            r.logical_block_application_tag_mask == 0,
            r.number_of_blocks == 0,
            r.data_buffer@ == Seq::<u8>::empty(),
    {
        WriteSameCommand {
            control: 0,
            group_number: 0,
            write_protect: 0,
            anchor: false,
            unmap: false,
            no_data_out_buffer: false,
            logical_block_address: 0,
            expected_initial_logical_block_reference_tag: 0,
            expected_logical_block_application_tag: 0,
            logical_block_application_tag_mask: 0,
            number_of_blocks: 0,
            data_buffer: Vec::new(),
        }
    }

    /// Sets the control byte.
    pub fn control(&mut self, value: u8) -> (r: &mut Self)
        ensures
            *r == (WriteSameCommand { control: value, ..*old(self) }),
            *final(self) == *final(r),
    {
        self.control = value;
        self
    }

    /// Sets the group number: below 0x20.
    pub fn group_number(&mut self, value: u8) -> (r: &mut Self)
        ensures
            *r == (WriteSameCommand { group_number: value, ..*old(self) }),
            *final(self) == *final(r),
    {
        self.group_number = value;
        self
    }

    /// Sets the write protect field: below 0x08.
    pub fn write_protect(&mut self, value: u8) -> (r: &mut Self)
        ensures
            *r == (WriteSameCommand { write_protect: value, ..*old(self) }),
            *final(self) == *final(r),
    {
        self.write_protect = value;
        self
    }

    /// Sets the anchor bit.
    pub fn anchor(&mut self, value: bool) -> (r: &mut Self)
        ensures
            *r == (WriteSameCommand { anchor: value, ..*old(self) }),
            *final(self) == *final(r),
    {
        self.anchor = value;
        self
    }

    /// Sets the unmap bit.
    pub fn unmap(&mut self, value: bool) -> (r: &mut Self)
        ensures
            *r == (WriteSameCommand { unmap: value, ..*old(self) }),
            *final(self) == *final(r),
    {
        self.unmap = value;
        self
    }

    /// Sets the no data-out buffer bit: not for WRITE SAME (10).
    pub fn no_data_out_buffer(&mut self, value: bool) -> (r: &mut Self)
        ensures
            *r == (WriteSameCommand { no_data_out_buffer: value, ..*old(self) }),
            *final(self) == *final(r),
    {
        self.no_data_out_buffer = value;
        self
    }

    /// Sets the address of the first logical block to write.
    pub fn logical_block_address(&mut self, value: u64) -> (r: &mut Self)
        ensures
            *r == (WriteSameCommand { logical_block_address: value, ..*old(self) }),
            *final(self) == *final(r),
    {
        self.logical_block_address = value;
        self
    }

    /// Sets the expected initial logical block reference tag: the thirty-two
    /// byte form only.
    pub fn expected_initial_logical_block_reference_tag(&mut self, value: u32) -> (r: &mut Self)
        ensures
            *r == (WriteSameCommand {
                expected_initial_logical_block_reference_tag: value,
                ..*old(self)
            }),
            *final(self) == *final(r),
    {
        self.expected_initial_logical_block_reference_tag = value;
        self
    }

    /// Sets the expected logical block application tag: the thirty-two byte
    /// form only.
    pub fn expected_logical_block_application_tag(&mut self, value: u16) -> (r: &mut Self)
        ensures
            *r == (WriteSameCommand {
                expected_logical_block_application_tag: value,
                ..*old(self)
            }),
            *final(self) == *final(r),
    {
        self.expected_logical_block_application_tag = value;
        self
    }

    /// Sets the logical block application tag mask: the thirty-two byte form
    /// only.
    pub fn logical_block_application_tag_mask(&mut self, value: u16) -> (r: &mut Self)
        ensures
            *r == (WriteSameCommand { logical_block_application_tag_mask: value, ..*old(self) }),
            *final(self) == *final(r),
    {
        self.logical_block_application_tag_mask = value;
        self
    }

    /// Sets the number of blocks to write.
    pub fn number_of_blocks(&mut self, value: u32) -> (r: &mut Self)
        ensures
            *r == (WriteSameCommand { number_of_blocks: value, ..*old(self) }),
            *final(self) == *final(r),
    {
        self.number_of_blocks = value;
        self
    }

    /// Sets the block to write.
    pub fn parameter(&mut self, value: &[u8]) -> (r: &mut Self)
        ensures
            r.data_buffer@ == value@,
            r.control == old(self).control,
            r.group_number == old(self).group_number,
            r.write_protect == old(self).write_protect,
            r.anchor == old(self).anchor,
            r.unmap == old(self).unmap,
            r.no_data_out_buffer == old(self).no_data_out_buffer,
            r.logical_block_address == old(self).logical_block_address,
            r.expected_initial_logical_block_reference_tag
                == old(self).expected_initial_logical_block_reference_tag,
            r.expected_logical_block_application_tag
                == old(self).expected_logical_block_application_tag,
            r.logical_block_application_tag_mask == old(self).logical_block_application_tag_mask,
            r.number_of_blocks == old(self).number_of_blocks,
            *final(self) == *final(r),
    {
        self.data_buffer = crate::command::duplicate(value);
        self
    }

    /// The bound checks that `error_check` makes, in their order.
    pub open spec fn error_check_bounds(
        &self,
        logical_block_address_bits: u32,
        number_of_blocks_bits: u32,
    ) -> Seq<Bound> {
        seq![
            Bound { value: self.group_number as u64, bits: 5, name: "group number" },
            Bound { value: self.write_protect as u64, bits: 3, name: "write protect" },
            Bound {
                value: self.logical_block_address,
                bits: logical_block_address_bits,
                name: "logical block address",
            },
            Bound {
                value: self.number_of_blocks as u64,
                bits: number_of_blocks_bits,
                name: "number of blocks length",
            },
        ]
    }

    /// What `error_check` finds wrong, if anything: the first bound that fails;
    /// else the first condition that refuses.
    pub open spec fn error_check_spec(
        &self,
        logical_block_address_bits: u32,
        number_of_blocks_bits: u32,
        allow_no_data_out_buffer: bool,
        expect_tag: bool,
    ) -> Option<Error> {
        match first_failure(
            self.error_check_bounds(logical_block_address_bits, number_of_blocks_bits),
        ) {
            Some(e) => Some(e),
            None => if !allow_no_data_out_buffer && self.no_data_out_buffer {
                Some(Error::BadArgument("no data out buffer is not allowed here"))
            } else if !expect_tag && (self.expected_initial_logical_block_reference_tag != 0
                || self.expected_logical_block_application_tag != 0
                || self.logical_block_application_tag_mask != 0) {
                Some(Error::BadArgument("expected tags and mask are not allowed here"))
            } else {
                None
            },
        }
    }

    /// Checks the options against the field widths of one form of the command.
    pub fn error_check(
        &self,
        logical_block_address_bits: u32,
        number_of_blocks_bits: u32,
        allow_no_data_out_buffer: bool,
        expect_tag: bool,
    ) -> (r: Result<(), Error>)
        ensures
            match self.error_check_spec(logical_block_address_bits, number_of_blocks_bits,
                allow_no_data_out_buffer, expect_tag) {
                Some(e) => r == Err::<(), Error>(e),
                None => r is Ok,
            },
    {
        check_bounds(
            &[
                Bound { value: self.group_number as u64, bits: 5, name: "group number" },
                Bound { value: self.write_protect as u64, bits: 3, name: "write protect" },
                Bound {
                    value: self.logical_block_address,
                    bits: logical_block_address_bits,
                    name: "logical block address",
                },
                Bound {
                    value: self.number_of_blocks as u64,
                    bits: number_of_blocks_bits,
                    name: "number of blocks length",
                },
            ],
        )?;
        if !allow_no_data_out_buffer && self.no_data_out_buffer {
            return Err(Error::BadArgument("no data out buffer is not allowed here"));
        }
        if !expect_tag && (self.expected_initial_logical_block_reference_tag != 0
                || self.expected_logical_block_application_tag != 0
                || self.logical_block_application_tag_mask != 0) {
            return Err(Error::BadArgument("expected tags and mask are not allowed here"));
        }
        Ok(())
    }

    /// The descriptor block of WRITE SAME (10): ten bytes.
    pub open spec fn layout_10(&self) -> Seq<Field> {
        seq![
            Field { width: 8, value: OPERATION_CODE_10 as u64 },
            Field { width: 3, value: self.write_protect as u64 },
            Field { width: 1, value: self.anchor as u64 },
            Field { width: 1, value: self.unmap as u64 },
            Field { width: 3, value: 0 },
            Field { width: 32, value: self.logical_block_address },
            Field { width: 3, value: 0 },
            Field { width: 5, value: self.group_number as u64 },
            Field { width: 16, value: self.number_of_blocks as u64 },
            Field { width: 8, value: self.control as u64 },
        ]
    }

    /// The descriptor block of WRITE SAME (16): sixteen bytes.
    pub open spec fn layout_16(&self) -> Seq<Field> {
        seq![
            Field { width: 8, value: OPERATION_CODE_16 as u64 },
            Field { width: 3, value: self.write_protect as u64 },
            Field { width: 1, value: self.anchor as u64 },
            Field { width: 1, value: self.unmap as u64 },
            Field { width: 2, value: 0 },
            Field { width: 1, value: self.no_data_out_buffer as u64 },
            Field { width: 64, value: self.logical_block_address },
            Field { width: 32, value: self.number_of_blocks as u64 },
            Field { width: 3, value: 0 },
            Field { width: 5, value: self.group_number as u64 },
            Field { width: 8, value: self.control as u64 },
        ]
    }

    /// The descriptor block of WRITE SAME (32): thirty-two bytes.
    pub open spec fn layout_32(&self) -> Seq<Field> {
        seq![
            Field { width: 8, value: OPERATION_CODE_32 as u64 },
            Field { width: 8, value: self.control as u64 },
            Field { width: 32, value: 0 },
            Field { width: 3, value: 0 },
            Field { width: 5, value: self.group_number as u64 },
            Field { width: 8, value: 0x18 },
            Field { width: 16, value: SERVICE_ACTION_32 as u64 },
            Field { width: 3, value: self.write_protect as u64 },
            Field { width: 1, value: self.anchor as u64 },
            Field { width: 1, value: self.unmap as u64 },
            Field { width: 2, value: 0 },
            Field { width: 1, value: self.no_data_out_buffer as u64 },
            Field { width: 8, value: 0 },
            Field { width: 64, value: self.logical_block_address },
            Field { width: 32, value: self.expected_initial_logical_block_reference_tag as u64 },
            Field { width: 16, value: self.expected_logical_block_application_tag as u64 },
            Field { width: 16, value: self.logical_block_application_tag_mask as u64 },
            Field { width: 32, value: self.number_of_blocks as u64 },
        ]
    }

    /// Checks the options against WRITE SAME (10) and packs its descriptor
    /// block.
    pub fn issue_10(&self) -> (r: Result<ThisCommand, Error>)
        ensures
            match self.error_check_spec(32, 16, false, false) {
                Some(e) => r == Err::<ThisCommand, Error>(e),
                None => r matches Ok(c) && c.command_buffer@ == packed(self.layout_10())
                    && c.data_buffer@ == self.data_buffer@,
            },
    {
        self.error_check(32, 16, false, false)?;
        reveal_with_fuel(width_upto, 11);
        let command_buffer = pack_vec::<10>(
            &[
                Field { width: 8, value: OPERATION_CODE_10 as u64 },
                Field { width: 3, value: self.write_protect as u64 },
                Field { width: 1, value: self.anchor as u64 },
                Field { width: 1, value: self.unmap as u64 },
                Field { width: 3, value: 0 },
                Field { width: 32, value: self.logical_block_address },
                Field { width: 3, value: 0 },
                Field { width: 5, value: self.group_number as u64 },
                Field { width: 16, value: self.number_of_blocks as u64 },
                Field { width: 8, value: self.control as u64 },
            ],
        );
        Ok(
            ThisCommand {
                command_buffer,
                data_buffer: crate::command::duplicate(self.data_buffer.as_slice()),
            },
        )
    }

    /// Checks the options against WRITE SAME (16) and packs its descriptor
    /// block.
    pub fn issue_16(&self) -> (r: Result<ThisCommand, Error>)
        ensures
            match self.error_check_spec(64, 32, true, false) {
                Some(e) => r == Err::<ThisCommand, Error>(e),
                None => r matches Ok(c) && c.command_buffer@ == packed(self.layout_16())
                    && c.data_buffer@ == self.data_buffer@,
            },
    {
        self.error_check(64, 32, true, false)?;
        reveal_with_fuel(width_upto, 12);
        let command_buffer = pack_vec::<16>(
            &[
                Field { width: 8, value: OPERATION_CODE_16 as u64 },
                Field { width: 3, value: self.write_protect as u64 },
                Field { width: 1, value: self.anchor as u64 },
                Field { width: 1, value: self.unmap as u64 },
                Field { width: 2, value: 0 },
                Field { width: 1, value: self.no_data_out_buffer as u64 },
                Field { width: 64, value: self.logical_block_address },
                Field { width: 32, value: self.number_of_blocks as u64 },
                Field { width: 3, value: 0 },
                Field { width: 5, value: self.group_number as u64 },
                Field { width: 8, value: self.control as u64 },
            ],
        );
        Ok(
            ThisCommand {
                command_buffer,
                data_buffer: crate::command::duplicate(self.data_buffer.as_slice()),
            },
        )
    }

    /// Checks the options against WRITE SAME (32) and packs its descriptor
    /// block.
    pub fn issue_32(&self) -> (r: Result<ThisCommand, Error>)
        ensures
            match self.error_check_spec(64, 32, true, true) {
                Some(e) => r == Err::<ThisCommand, Error>(e),
                None => r matches Ok(c) && c.command_buffer@ == packed(self.layout_32())
                    && c.data_buffer@ == self.data_buffer@,
            },
    {
        self.error_check(64, 32, true, true)?;
        reveal_with_fuel(width_upto, 19);
        let command_buffer = pack_vec::<32>(
            &[
                Field { width: 8, value: OPERATION_CODE_32 as u64 },
                Field { width: 8, value: self.control as u64 },
                Field { width: 32, value: 0 },
                Field { width: 3, value: 0 },
                Field { width: 5, value: self.group_number as u64 },
                Field { width: 8, value: 0x18 },
                Field { width: 16, value: SERVICE_ACTION_32 as u64 },
                Field { width: 3, value: self.write_protect as u64 },
                Field { width: 1, value: self.anchor as u64 },
                Field { width: 1, value: self.unmap as u64 },
                Field { width: 2, value: 0 },
                Field { width: 1, value: self.no_data_out_buffer as u64 },
                Field { width: 8, value: 0 },
                Field { width: 64, value: self.logical_block_address },
                Field {
                    width: 32,
                    value: self.expected_initial_logical_block_reference_tag as u64,
                },
                Field { width: 16, value: self.expected_logical_block_application_tag as u64 },
                Field { width: 16, value: self.logical_block_application_tag_mask as u64 },
                Field { width: 32, value: self.number_of_blocks as u64 },
            ],
        );
        Ok(
            ThisCommand {
                command_buffer,
                data_buffer: crate::command::duplicate(self.data_buffer.as_slice()),
            },
        )
    }
}

impl<H> Scsi<H> {
    /// A write same with its options at their defaults.
    pub fn write_same(&self) -> (r: WriteSameCommand)
        ensures
            r.control == 0,
            r.group_number == 0,
            r.write_protect == 0,
            r.anchor == false,
            r.unmap == false,
            r.no_data_out_buffer == false,
            r.logical_block_address == 0,
            r.expected_initial_logical_block_reference_tag == 0,
            r.expected_logical_block_application_tag == 0,
            r.logical_block_application_tag_mask == 0,
            r.number_of_blocks == 0,
            r.data_buffer@ == Seq::<u8>::empty(),
    {
        WriteSameCommand::new()
    }
}

/// A write same that passed its checks: the packed descriptor block and the
/// block to write.
#[derive(Debug)]
pub struct ThisCommand {
    pub command_buffer: Vec<u8>,
    pub data_buffer: Vec<u8>,
}

impl Command for ThisCommand {
    type ReturnType = Result<(), Error>;

    open spec fn direction_spec(&self) -> DataDirection {
        DataDirection::ToDevice
    }

    open spec fn command_spec(&self) -> Seq<u8> {
        self.command_buffer@
    }

    open spec fn data_spec(&self) -> Seq<u8> {
        self.data_buffer@
    }

    open spec fn data_size_spec(&self) -> u32 {
        (self.data_buffer@.len() % 0x1_0000_0000) as u32
    }

    fn direction(&self) -> (r: DataDirection) {
        DataDirection::ToDevice
    }

    fn command(&self) -> (r: Vec<u8>) {
        let r = self.command_buffer.clone();
        assert(r@ =~= self.command_buffer@);
        r
    }

    fn data(&self) -> (r: Vec<u8>) {
        let r = self.data_buffer.clone();
        assert(r@ =~= self.data_buffer@);
        r
    }

    fn data_size(&self) -> (r: u32) {
        (self.data_buffer.len() as u64 % 0x1_0000_0000) as u32
    }

    /// Nothing, unless the transport or the device reported a failure.
    fn process_result(&self, result: ResultData) -> (r: Result<(), Error>)
        ensures
            match r {
                Ok(()) => result.passes(),
                Err(e) => result.checked(Err(e)),
            },
    {
        result.check_errors()
    }
}

} // verus!
