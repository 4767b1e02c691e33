//! WRITE AND VERIFY (10), (12), (16) and (32): write logical blocks and have
//! the device check what it wrote.

use vstd::prelude::*;
use crate::bitfield::{pack_vec, packed, width_upto, Field};
use crate::command::{
    check_bounds, first_failure, transfer_check, transfer_check_spec, Bound, Command,
};
use crate::data_direction::DataDirection;
use crate::error::Error;
use crate::result_data::ResultData;
use crate::scsi::Scsi;

verus! {

pub const OPERATION_CODE_10: u8 = 0x2E;

pub const OPERATION_CODE_12: u8 = 0xAE;

pub const OPERATION_CODE_16: u8 = 0x8E;

pub const OPERATION_CODE_32: u8 = 0x7F;

pub const SERVICE_ACTION_32: u16 = 0x000C;

/// The options and the data of a write and verify. They are checked when a form
/// of the command is chosen, not when they are set.
#[derive(Debug)]
pub struct WriteAndVerifyCommand {
    pub control: u8,
    /// Must fit five bits.
    pub group_number: u8,
    /// Must fit three bits.
    pub write_protect: u8,
    pub disable_page_out: bool,
    /// Must fit two bits.
    pub byte_check: u8,
    /// Must fit thirty-two bits for the forms of ten and twelve bytes.
    pub logical_block_address: u64,
    pub expected_initial_logical_block_reference_tag: u32,
    pub expected_logical_block_application_tag: u16,
    pub logical_block_application_tag_mask: u16,
    /// The size of a logical block of the device in bytes. Must not be zero
    /// when the command is issued.
    pub logical_block_size: u32,
    /// The data to write: a whole number of blocks.
    pub data_buffer: Vec<u8>,
}

impl Clone for WriteAndVerifyCommand {
    /// A copy with the same options and the same bytes.
    fn clone(&self) -> (r: Self)
        ensures
            r.control == self.control,
            r.group_number == self.group_number,
            r.write_protect == self.write_protect,
            r.disable_page_out == self.disable_page_out,
            r.byte_check == self.byte_check,
            r.logical_block_address == self.logical_block_address,
            r.expected_initial_logical_block_reference_tag
                == self.expected_initial_logical_block_reference_tag,
            r.expected_logical_block_application_tag == self.expected_logical_block_application_tag,
            r.logical_block_application_tag_mask == self.logical_block_application_tag_mask,
            r.logical_block_size == self.logical_block_size,
            r.data_buffer@ == self.data_buffer@,
    {
        WriteAndVerifyCommand {
            control: self.control,
            group_number: self.group_number,
            write_protect: self.write_protect,
            disable_page_out: self.disable_page_out,
            byte_check: self.byte_check,
            logical_block_address: self.logical_block_address,
            expected_initial_logical_block_reference_tag:
                self.expected_initial_logical_block_reference_tag,
            expected_logical_block_application_tag: self.expected_logical_block_application_tag,
            logical_block_application_tag_mask: self.logical_block_application_tag_mask,
            logical_block_size: self.logical_block_size,
            data_buffer: crate::command::duplicate(self.data_buffer.as_slice()),
        }
    }
}

impl WriteAndVerifyCommand {
    /// A write and verify of no data at address zero, for a device with blocks
    /// of 512 bytes.
    pub fn new() -> (r: Self)
        ensures
            r.control == 0,
            r.group_number == 0,
            r.write_protect == 0,
            r.disable_page_out == false,
            r.byte_check == 0,
            r.logical_block_address == 0,
            r.expected_initial_logical_block_reference_tag == 0,
            r.expected_logical_block_application_tag == 0,
            r.logical_block_application_tag_mask == 0,
            r.logical_block_size == 512,
            r.data_buffer@ == Seq::<u8>::empty(),
    {
        WriteAndVerifyCommand {
            control: 0,
            group_number: 0,
            write_protect: 0,
            disable_page_out: false,
            byte_check: 0,
            logical_block_address: 0,
            expected_initial_logical_block_reference_tag: 0,
            expected_logical_block_application_tag: 0,
            logical_block_application_tag_mask: 0,
            logical_block_size: 512,
            data_buffer: Vec::new(),
        }
    }

    /// Sets the control byte.
    pub fn control(&mut self, value: u8) -> (r: &mut Self)
        ensures
            *r == (WriteAndVerifyCommand { control: value, ..*old(self) }),
            *final(self) == *final(r),
    {
        self.control = value;
        self
    }

    /// Sets the group number: below 0x20.
    pub fn group_number(&mut self, value: u8) -> (r: &mut Self)
        ensures
            *r == (WriteAndVerifyCommand { group_number: value, ..*old(self) }),
            *final(self) == *final(r),
    {
        self.group_number = value;
        self
    }

    /// Sets the write protect field: below 0x08.
    pub fn write_protect(&mut self, value: u8) -> (r: &mut Self)
        ensures
            *r == (WriteAndVerifyCommand { write_protect: value, ..*old(self) }),
            *final(self) == *final(r),
    {
        self.write_protect = value;
        self
    }

    /// Sets the disable page out bit.
    pub fn disable_page_out(&mut self, value: bool) -> (r: &mut Self)
        ensures
            *r == (WriteAndVerifyCommand { disable_page_out: value, ..*old(self) }),
            *final(self) == *final(r),
    {
        self.disable_page_out = value;
        self
    }

    /// Sets the byte check field: below 0x04.
    pub fn byte_check(&mut self, value: u8) -> (r: &mut Self)
        ensures
            *r == (WriteAndVerifyCommand { byte_check: value, ..*old(self) }),
            *final(self) == *final(r),
    {
        self.byte_check = value;
        self
    }

    /// Sets the address of the first logical block to write.
    pub fn logical_block_address(&mut self, value: u64) -> (r: &mut Self)
        ensures
            *r == (WriteAndVerifyCommand { logical_block_address: value, ..*old(self) }),
            *final(self) == *final(r),
    {
        self.logical_block_address = value;
        self
    }

    /// Sets the expected initial logical block reference tag: the thirty-two
    /// byte form only.
    pub fn expected_initial_logical_block_reference_tag(&mut self, value: u32) -> (r: &mut Self)
        ensures
            *r == (WriteAndVerifyCommand {
                expected_initial_logical_block_reference_tag: value,
                ..*old(self)
            }),
            *final(self) == *final(r),
    {
        self.expected_initial_logical_block_reference_tag = value;
        self
    }

    /// Sets the expected logical block application tag: the thirty-two byte
    /// form only.
    pub fn expected_logical_block_application_tag(&mut self, value: u16) -> (r: &mut Self)
        ensures
            *r == (WriteAndVerifyCommand {
                expected_logical_block_application_tag: value,
                ..*old(self)
            }),
            *final(self) == *final(r),
    {
        self.expected_logical_block_application_tag = value;
        self
    }

    /// Sets the logical block application tag mask: the thirty-two byte form
    /// only.
    pub fn logical_block_application_tag_mask(&mut self, value: u16) -> (r: &mut Self)
        ensures
            *r == (WriteAndVerifyCommand {
                logical_block_application_tag_mask: value,
                ..*old(self)
            }),
            *final(self) == *final(r),
    {
        self.logical_block_application_tag_mask = value;
        self
    }

    /// Sets the size of a logical block in bytes; the data is counted in blocks
    /// of it.
    pub fn logical_block_size(&mut self, value: u32) -> (r: &mut Self)
        ensures
            *r == (WriteAndVerifyCommand { logical_block_size: value, ..*old(self) }),
            *final(self) == *final(r),
    {
        self.logical_block_size = value;
        self
    }

    /// Sets the data to write: a whole number of blocks.
    pub fn parameter(&mut self, value: &[u8]) -> (r: &mut Self)
        ensures
            r.data_buffer@ == value@,
            r.control == old(self).control,
            r.group_number == old(self).group_number,
            r.write_protect == old(self).write_protect,
            r.disable_page_out == old(self).disable_page_out,
            r.byte_check == old(self).byte_check,
            r.logical_block_address == old(self).logical_block_address,
            r.expected_initial_logical_block_reference_tag
                == old(self).expected_initial_logical_block_reference_tag,
            r.expected_logical_block_application_tag
                == old(self).expected_logical_block_application_tag,
            r.logical_block_application_tag_mask == old(self).logical_block_application_tag_mask,
            r.logical_block_size == old(self).logical_block_size,
            *final(self) == *final(r),
    {
        self.data_buffer = crate::command::duplicate(value);
        self
    }

    /// The number of blocks that the data makes: the transfer length of the
    /// descriptor block. The block size must not be zero.
    pub open spec fn blocks_spec(&self) -> u64 {
        (self.data_buffer.len() as u64 / self.logical_block_size as u64) as u64
    }

    /// The number of blocks that the data makes: the transfer length of the
    /// descriptor block. The block size must not be zero.
    #[verifier::when_used_as_spec(blocks_spec)]
    pub fn blocks(&self) -> (r: u64)
        requires
            self.logical_block_size != 0,
        ensures
            r == self.blocks_spec(),
    {
        (self.data_buffer.len() as u64 / self.logical_block_size as u64) as u64
    }

    /// The bound checks that `error_check` makes, in their order.
    pub open spec fn error_check_bounds(&self, logical_block_address_bits: u32) -> Seq<Bound> {
        seq![
            Bound { value: self.group_number as u64, bits: 5, name: "group number" },
            Bound { value: self.write_protect as u64, bits: 3, name: "verify protect" },
            Bound { value: self.byte_check as u64, bits: 2, name: "byte check" },
            Bound {
                value: self.logical_block_address,
                bits: logical_block_address_bits,
                name: "logical block address",
            },
        ]
    }

    /// What `error_check` finds wrong, if anything: the first bound that fails;
    /// else what is wrong with the length of the data; else the first condition
    /// that refuses.
    pub open spec fn error_check_spec(
        &self,
        logical_block_address_bits: u32,
        transfer_length_bits: u32,
        expect_tag: bool,
    ) -> Option<Error> {
        match first_failure(self.error_check_bounds(logical_block_address_bits)) {
            Some(e) => Some(e),
            None => match transfer_check_spec(
                self.data_buffer@.len(),
                self.logical_block_size,
                transfer_length_bits,
            ) {
                Some(e) => Some(e),
                None => if !expect_tag && (self.expected_initial_logical_block_reference_tag != 0
                || self.expected_logical_block_application_tag != 0
                || self.logical_block_application_tag_mask != 0) {
                    Some(Error::BadArgument("expected tags and mask are not allowed here"))
                } else {
                    None
                },
            },
        }
    }

    /// Checks the options and the data against the field widths of one form of
    /// the command. The block size must not be zero, and no form counts its
    /// blocks in more than thirty-two bits.
    pub fn error_check(
        &self,
        logical_block_address_bits: u32,
        transfer_length_bits: u32,
        expect_tag: bool,
    ) -> (r: Result<(), Error>)
        requires
            self.logical_block_size != 0,
            transfer_length_bits <= 32,
        ensures
            match self.error_check_spec(logical_block_address_bits, transfer_length_bits,
                expect_tag) {
                Some(e) => r == Err::<(), Error>(e),
                None => r is Ok,
            },
    {
        check_bounds(
            &[
                Bound { value: self.group_number as u64, bits: 5, name: "group number" },
                Bound { value: self.write_protect as u64, bits: 3, name: "verify protect" },
                Bound { value: self.byte_check as u64, bits: 2, name: "byte check" },
                Bound {
                    value: self.logical_block_address,
                    bits: logical_block_address_bits,
                    name: "logical block address",
                },
            ],
        )?;
        transfer_check(self.data_buffer.len(), self.logical_block_size, transfer_length_bits)?;
        if !expect_tag && (self.expected_initial_logical_block_reference_tag != 0
                || self.expected_logical_block_application_tag != 0
                || self.logical_block_application_tag_mask != 0) {
            return Err(Error::BadArgument("expected tags and mask are not allowed here"));
        }
        Ok(())
    }

    /// The descriptor block of WRITE AND VERIFY (10): ten bytes.
    pub open spec fn layout_10(&self) -> Seq<Field> {
        seq![
            Field { width: 8, value: OPERATION_CODE_10 as u64 },
            Field { width: 3, value: self.write_protect as u64 },
            Field { width: 1, value: self.disable_page_out as u64 },
            Field { width: 1, value: 0 },
            Field { width: 2, value: self.byte_check as u64 },
            Field { width: 1, value: 0 },
            Field { width: 32, value: self.logical_block_address },
            Field { width: 3, value: 0 },
            Field { width: 5, value: self.group_number as u64 },
            Field { width: 16, value: self.blocks() },
            Field { width: 8, value: self.control as u64 },
        ]
    }

    /// The descriptor block of WRITE AND VERIFY (12): twelve bytes.
    pub open spec fn layout_12(&self) -> Seq<Field> {
        seq![
            Field { width: 8, value: OPERATION_CODE_12 as u64 },
            Field { width: 3, value: self.write_protect as u64 },
            Field { width: 1, value: self.disable_page_out as u64 },
            Field { width: 1, value: 0 },
            Field { width: 2, value: self.byte_check as u64 },
            Field { width: 1, value: 0 },
            Field { width: 32, value: self.logical_block_address },
            Field { width: 32, value: self.blocks() },
            Field { width: 3, value: 0 },
            Field { width: 5, value: self.group_number as u64 },
            Field { width: 8, value: self.control as u64 },
        ]
    }

    /// The descriptor block of WRITE AND VERIFY (16): sixteen bytes.
    pub open spec fn layout_16(&self) -> Seq<Field> {
        seq![
            Field { width: 8, value: OPERATION_CODE_16 as u64 },
            Field { width: 3, value: self.write_protect as u64 },
            Field { width: 1, value: self.disable_page_out as u64 },
            Field { width: 1, value: 0 },
            Field { width: 2, value: self.byte_check as u64 },
            Field { width: 1, value: 0 },
            Field { width: 64, value: self.logical_block_address },
            Field { width: 32, value: self.blocks() },
            Field { width: 3, value: 0 },
            Field { width: 5, value: self.group_number as u64 },
            Field { width: 8, value: self.control as u64 },
        ]
    }

    /// The descriptor block of WRITE AND VERIFY (32): thirty-two bytes.
    pub open spec fn layout_32(&self) -> Seq<Field> {
        seq![
            Field { width: 8, value: OPERATION_CODE_32 as u64 },
            Field { width: 8, value: self.control as u64 },
            Field { width: 32, value: 0 },
            Field { width: 3, value: 0 },
            Field { width: 5, value: self.group_number as u64 },
            Field { width: 8, value: 0x18 },
            Field { width: 16, value: SERVICE_ACTION_32 as u64 },
            Field { width: 3, value: self.write_protect as u64 },
            Field { width: 1, value: self.disable_page_out as u64 },
            Field { width: 1, value: 0 },
            Field { width: 2, value: self.byte_check as u64 },
            Field { width: 1, value: 0 },
            Field { width: 8, value: 0 },
            Field { width: 64, value: self.logical_block_address },
            Field { width: 32, value: self.expected_initial_logical_block_reference_tag as u64 },
            Field { width: 16, value: self.expected_logical_block_application_tag as u64 },
            Field { width: 16, value: self.logical_block_application_tag_mask as u64 },
            Field { width: 32, value: self.blocks() },
        ]
    }

    /// Checks the options and the data against WRITE AND VERIFY (10) and packs
    /// its descriptor block. The transfer length is the number of blocks that
    /// the data makes. The block size must not be zero.
    pub fn issue_10(&self) -> (r: Result<ThisCommand, Error>)
        requires
            self.logical_block_size != 0,
        ensures
            match self.error_check_spec(32, 16, false) {
                Some(e) => r == Err::<ThisCommand, Error>(e),
                None => r matches Ok(c) && c.command_buffer@ == packed(self.layout_10())
                    && c.data_buffer@ == self.data_buffer@,
            },
    {
        self.error_check(32, 16, false)?;
        reveal_with_fuel(width_upto, 12);
        let command_buffer = pack_vec::<10>(
            &[
                Field { width: 8, value: OPERATION_CODE_10 as u64 },
                Field { width: 3, value: self.write_protect as u64 },
                Field { width: 1, value: self.disable_page_out as u64 },
                Field { width: 1, value: 0 },
                Field { width: 2, value: self.byte_check as u64 },
                Field { width: 1, value: 0 },
                Field { width: 32, value: self.logical_block_address },
                Field { width: 3, value: 0 },
                Field { width: 5, value: self.group_number as u64 },
                Field { width: 16, value: self.blocks() },
                Field { width: 8, value: self.control as u64 },
            ],
        );
        Ok(
            ThisCommand {
                command_buffer,
                data_buffer: crate::command::duplicate(self.data_buffer.as_slice()),
            },
        )
    }

    /// Checks the options and the data against WRITE AND VERIFY (12) and packs
    /// its descriptor block. The transfer length is the number of blocks that
    /// the data makes. The block size must not be zero.
    pub fn issue_12(&self) -> (r: Result<ThisCommand, Error>)
        requires
            self.logical_block_size != 0,
        ensures
            match self.error_check_spec(32, 32, false) {
                Some(e) => r == Err::<ThisCommand, Error>(e),
                None => r matches Ok(c) && c.command_buffer@ == packed(self.layout_12())
                    && c.data_buffer@ == self.data_buffer@,
            },
    {
        self.error_check(32, 32, false)?;
        reveal_with_fuel(width_upto, 12);
        let command_buffer = pack_vec::<12>(
            &[
                Field { width: 8, value: OPERATION_CODE_12 as u64 },
                Field { width: 3, value: self.write_protect as u64 },
                Field { width: 1, value: self.disable_page_out as u64 },
                Field { width: 1, value: 0 },
                Field { width: 2, value: self.byte_check as u64 },
                Field { width: 1, value: 0 },
                Field { width: 32, value: self.logical_block_address },
                Field { width: 32, value: self.blocks() },
                Field { width: 3, value: 0 },
                Field { width: 5, value: self.group_number as u64 },
                Field { width: 8, value: self.control as u64 },
            ],
        );
        Ok(
            ThisCommand {
                command_buffer,
                data_buffer: crate::command::duplicate(self.data_buffer.as_slice()),
            },
        )
    }

    /// Checks the options and the data against WRITE AND VERIFY (16) and packs
    /// its descriptor block. The transfer length is the number of blocks that
    /// the data makes. The block size must not be zero.
    pub fn issue_16(&self) -> (r: Result<ThisCommand, Error>)
        requires
            self.logical_block_size != 0,
        ensures
            match self.error_check_spec(64, 32, false) {
                Some(e) => r == Err::<ThisCommand, Error>(e),
                None => r matches Ok(c) && c.command_buffer@ == packed(self.layout_16())
                    && c.data_buffer@ == self.data_buffer@,
            },
    {
        self.error_check(64, 32, false)?;
        reveal_with_fuel(width_upto, 12);
        let command_buffer = pack_vec::<16>(
            &[
                Field { width: 8, value: OPERATION_CODE_16 as u64 },
                Field { width: 3, value: self.write_protect as u64 },
                Field { width: 1, value: self.disable_page_out as u64 },
                Field { width: 1, value: 0 },
                Field { width: 2, value: self.byte_check as u64 },
                Field { width: 1, value: 0 },
                Field { width: 64, value: self.logical_block_address },
                Field { width: 32, value: self.blocks() },
                Field { width: 3, value: 0 },
                Field { width: 5, value: self.group_number as u64 },
                Field { width: 8, value: self.control as u64 },
            ],
        );
        Ok(
            ThisCommand {
                command_buffer,
                data_buffer: crate::command::duplicate(self.data_buffer.as_slice()),
            },
        )
    }

    /// Checks the options and the data against WRITE AND VERIFY (32) and packs
    /// its descriptor block. The transfer length is the number of blocks that
    /// the data makes. The block size must not be zero.
    pub fn issue_32(&self) -> (r: Result<ThisCommand, Error>)
        requires
            self.logical_block_size != 0,
        ensures
            match self.error_check_spec(64, 32, true) {
                Some(e) => r == Err::<ThisCommand, Error>(e),
                None => r matches Ok(c) && c.command_buffer@ == packed(self.layout_32())
                    && c.data_buffer@ == self.data_buffer@,
            },
    {
        self.error_check(64, 32, true)?;
        reveal_with_fuel(width_upto, 19);
        let command_buffer = pack_vec::<32>(
            &[
                Field { width: 8, value: OPERATION_CODE_32 as u64 },
                Field { width: 8, value: self.control as u64 },
                Field { width: 32, value: 0 },
                Field { width: 3, value: 0 },
                Field { width: 5, value: self.group_number as u64 },
                Field { width: 8, value: 0x18 },
                Field { width: 16, value: SERVICE_ACTION_32 as u64 },
                Field { width: 3, value: self.write_protect as u64 },
                Field { width: 1, value: self.disable_page_out as u64 },
                Field { width: 1, value: 0 },
                Field { width: 2, value: self.byte_check as u64 },
                Field { width: 1, value: 0 },
                Field { width: 8, value: 0 },
                Field { width: 64, value: self.logical_block_address },
                Field {
                    width: 32,
                    value: self.expected_initial_logical_block_reference_tag as u64,
                },
                Field { width: 16, value: self.expected_logical_block_application_tag as u64 },
                Field { width: 16, value: self.logical_block_application_tag_mask as u64 },
                Field { width: 32, value: self.blocks() },
            ],
        );
        Ok(
            ThisCommand {
                command_buffer,
                data_buffer: crate::command::duplicate(self.data_buffer.as_slice()),
            },
        )
    }
}

impl<H> Scsi<H> {
    /// A write and verify with its options at their defaults.
    pub fn write_and_verify(&self) -> (r: WriteAndVerifyCommand)
        ensures
            r.control == 0,
            r.group_number == 0,
            r.write_protect == 0,
            r.disable_page_out == false,
            r.byte_check == 0,
            r.logical_block_address == 0,
            r.expected_initial_logical_block_reference_tag == 0,
            r.expected_logical_block_application_tag == 0,
            r.logical_block_application_tag_mask == 0,
            r.logical_block_size == 512,
            r.data_buffer@ == Seq::<u8>::empty(),
    {
        WriteAndVerifyCommand::new()
    }
}

/// A write and verify that passed its checks: the packed descriptor block and
/// the data.
#[derive(Debug)]
pub struct ThisCommand {
    pub command_buffer: Vec<u8>,
    pub data_buffer: Vec<u8>,
}

impl Command for ThisCommand {
    type ReturnType = Result<(), Error>;

    open spec fn direction_spec(&self) -> DataDirection {
        DataDirection::ToDevice
    }

    open spec fn command_spec(&self) -> Seq<u8> {
        self.command_buffer@
    }

    open spec fn data_spec(&self) -> Seq<u8> {
        self.data_buffer@
    }

    open spec fn data_size_spec(&self) -> u32 {
        (self.data_buffer@.len() % 0x1_0000_0000) as u32
    }

    fn direction(&self) -> (r: DataDirection) {
        DataDirection::ToDevice
    }

    fn command(&self) -> (r: Vec<u8>) {
        let r = self.command_buffer.clone();
        assert(r@ =~= self.command_buffer@);
        r
    }

    fn data(&self) -> (r: Vec<u8>) {
        let r = self.data_buffer.clone();
        assert(r@ =~= self.data_buffer@);
        r
    }

    fn data_size(&self) -> (r: u32) {
        (self.data_buffer.len() as u64 % 0x1_0000_0000) as u32
    }

    /// Nothing, unless the transport or the device reported a failure.
    fn process_result(&self, result: ResultData) -> (r: Result<(), Error>)
        ensures
            match r {
                Ok(()) => result.passes(),
                Err(e) => result.checked(Err(e)),
            },
    {
        result.check_errors()
    }
}

} // verus!
