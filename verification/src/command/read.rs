//! READ (10), READ (12), READ (16) and READ (32): read logical blocks from
//! the medium.

use vstd::prelude::*;
use crate::bitfield::{pack_vec, packed, width_upto, zeros, Field};
use crate::command::{check_bounds, first_failure, zeroed, Bound, Command};
use crate::data_direction::DataDirection;
use crate::error::Error;
use crate::result_data::ResultData;
use crate::scsi::Scsi;

verus! {

pub const OPERATION_CODE_10: u8 = 0x28;

pub const OPERATION_CODE_12: u8 = 0xA8;

pub const OPERATION_CODE_16: u8 = 0x88;

pub const OPERATION_CODE_32: u8 = 0x7F;

pub const SERVICE_ACTION_32: u16 = 0x0009;

/// The options of a read. They are checked when a form of the command is
/// chosen, not when they are set.
#[derive(Clone, Copy, Debug)]
pub struct ReadCommand {
    pub control: u8,
    /// Must fit six bits for READ (16), five bits for the other forms.
    pub group_number: u8,
    /// Must fit three bits.
    pub read_protect: u8,
    pub disable_page_out: bool,
    pub force_unit_access: bool,
    pub rebuild_assist_recovery_control: bool,
    pub logical_block_address: u64,
    pub expected_initial_logical_block_reference_tag: u32,
    pub expected_logical_block_application_tag: u16,
    pub logical_block_application_tag_mask: u16,
    /// The number of logical blocks to read.
    pub transfer_length: u32,
    pub dld_0: bool,
    pub dld_1: bool,
    pub dld_2: bool,
    /// The size of a logical block of the device in bytes.
    pub logical_block_size: u32,
}

impl ReadCommand {
    /// A read of no blocks at address zero, for a device with blocks of 512
    /// bytes.
    pub fn new() -> (r: Self)
        ensures
            r.control == 0,
            r.group_number == 0,
            r.read_protect == 0,
            r.disable_page_out == false,
            r.force_unit_access == false,
            r.rebuild_assist_recovery_control == false,
            r.logical_block_address == 0,
            r.expected_initial_logical_block_reference_tag == 0,
            r.expected_logical_block_application_tag == 0,
            r.logical_block_application_tag_mask == 0,
            r.transfer_length == 0,
            r.dld_0 == false,
            r.dld_1 == false,
            r.dld_2 == false,
            r.logical_block_size == 512,
    {
        ReadCommand {
            control: 0,
            group_number: 0,
            read_protect: 0,
            disable_page_out: false,
            force_unit_access: false,
            rebuild_assist_recovery_control: false,
            logical_block_address: 0,
            expected_initial_logical_block_reference_tag: 0,
            expected_logical_block_application_tag: 0,
            logical_block_application_tag_mask: 0,
            transfer_length: 0,
            dld_0: false,
            dld_1: false,
            dld_2: false,
            logical_block_size: 512,
        }
    }

    /// Sets the control byte.
    pub fn control(&mut self, value: u8) -> (r: &mut Self)
        ensures
            *r == (ReadCommand { control: value, ..*old(self) }),
            *final(self) == *final(r),
    {
        self.control = value;
        self
    }

    /// Sets the group number: below 0x40 for READ (16), below 0x20 for the
    /// other forms.
    pub fn group_number(&mut self, value: u8) -> (r: &mut Self)
        ensures
            *r == (ReadCommand { group_number: value, ..*old(self) }),
            *final(self) == *final(r),
    {
        self.group_number = value;
        self
    }

    /// Sets the read protect field: below 0x08.
    pub fn read_protect(&mut self, value: u8) -> (r: &mut Self)
        ensures
            *r == (ReadCommand { read_protect: value, ..*old(self) }),
            *final(self) == *final(r),
    {
        self.read_protect = value;
        self
    }

    /// Sets the disable page out bit.
    pub fn disable_page_out(&mut self, value: bool) -> (r: &mut Self)
        ensures
            *r == (ReadCommand { disable_page_out: value, ..*old(self) }),
            *final(self) == *final(r),
    {
        self.disable_page_out = value;
        self
    }

    /// Sets the force unit access bit.
    pub fn force_unit_access(&mut self, value: bool) -> (r: &mut Self)
        ensures
            *r == (ReadCommand { force_unit_access: value, ..*old(self) }),
            *final(self) == *final(r),
    {
        self.force_unit_access = value;
        self
    }

    /// Sets the rebuild assist recovery control bit.
    pub fn rebuild_assist_recovery_control(&mut self, value: bool) -> (r: &mut Self)
        ensures
            *r == (ReadCommand { rebuild_assist_recovery_control: value, ..*old(self) }),
            *final(self) == *final(r),
    {
        self.rebuild_assist_recovery_control = value;
        self
    }

    /// Sets the address of the first logical block to read.
    pub fn logical_block_address(&mut self, value: u64) -> (r: &mut Self)
        ensures
            *r == (ReadCommand { logical_block_address: value, ..*old(self) }),
            *final(self) == *final(r),
    {
        self.logical_block_address = value;
        self
    }

    /// Sets the expected initial logical block reference tag: READ (32) only.
    pub fn expected_initial_logical_block_reference_tag(&mut self, value: u32) -> (r: &mut Self)
        ensures
            *r == (ReadCommand {
                expected_initial_logical_block_reference_tag: value,
                ..*old(self)
            }),
            *final(self) == *final(r),
    {
        self.expected_initial_logical_block_reference_tag = value;
        self
    }

    /// Sets the expected logical block application tag: READ (32) only.
    pub fn expected_logical_block_application_tag(&mut self, value: u16) -> (r: &mut Self)
        ensures
            *r == (ReadCommand { expected_logical_block_application_tag: value, ..*old(self) }),
            *final(self) == *final(r),
    {
        self.expected_logical_block_application_tag = value;
        self
    }

    /// Sets the logical block application tag mask: READ (32) only.
    pub fn logical_block_application_tag_mask(&mut self, value: u16) -> (r: &mut Self)
        ensures
            *r == (ReadCommand { logical_block_application_tag_mask: value, ..*old(self) }),
            *final(self) == *final(r),
    {
        self.logical_block_application_tag_mask = value;
        self
    }

    /// Sets the number of logical blocks to read.
    pub fn transfer_length(&mut self, value: u32) -> (r: &mut Self)
        ensures
            *r == (ReadCommand { transfer_length: value, ..*old(self) }),
            *final(self) == *final(r),
    {
        self.transfer_length = value;
        self
    }

    /// Sets bit 0 of the duration limit descriptor: READ (16) only.
    pub fn dld_0(&mut self, value: bool) -> (r: &mut Self)
        ensures
            *r == (ReadCommand { dld_0: value, ..*old(self) }),
            *final(self) == *final(r),
    {
        self.dld_0 = value;
        self
    }

    /// Sets bit 1 of the duration limit descriptor: READ (16) only.
    pub fn dld_1(&mut self, value: bool) -> (r: &mut Self)
        ensures
            *r == (ReadCommand { dld_1: value, ..*old(self) }),
            *final(self) == *final(r),
    {
        self.dld_1 = value;
        self
    }

    /// Sets bit 2 of the duration limit descriptor: READ (16) only.
    pub fn dld_2(&mut self, value: bool) -> (r: &mut Self)
        ensures
            *r == (ReadCommand { dld_2: value, ..*old(self) }),
            *final(self) == *final(r),
    {
        self.dld_2 = value;
        self
    }

    /// Sets the size of a logical block in bytes; the buffer for the answer is
    /// sized by it.
    pub fn logical_block_size(&mut self, value: u32) -> (r: &mut Self)
        ensures
            *r == (ReadCommand { logical_block_size: value, ..*old(self) }),
            *final(self) == *final(r),
    {
        self.logical_block_size = value;
        self
    }

    /// The number of bytes that the blocks asked for take.
    pub open spec fn total_transfer_bytes(&self) -> nat {
        (self.transfer_length * self.logical_block_size) as nat
    }

    /// The bound checks that every form of the command makes, in their
    /// order; the forms differ in the widths of three fields.
    pub open spec fn common_bounds(
        &self,
        group_number_bits: u32,
        logical_block_address_bits: u32,
        transfer_length_bits: u32,
    ) -> Seq<Bound> {
        seq![
            Bound { value: self.read_protect as u64, bits: 3, name: "read protect" },
            Bound {
                value: self.group_number as u64,
                bits: group_number_bits,
                name: "group number",
            },
            Bound {
                value: self.logical_block_address,
                bits: logical_block_address_bits,
                name: "logical block address",
            },
            Bound {
                value: self.transfer_length as u64,
                bits: transfer_length_bits,
                name: "transfer length",
            },
            Bound {
                value: self.total_transfer_bytes() as u64,
                bits: 32,
                name: "total transfer bytes",
            },
        ]
    }

    /// What `common_check` finds wrong with the options, if anything: the
    /// first bound that fails; else duration limit bits where the form has
    /// none; else protection tags where the form has none.
    pub open spec fn common_check_spec(
        &self,
        group_number_bits: u32,
        logical_block_address_bits: u32,
        transfer_length_bits: u32,
        allow_dld: bool,
        expect_tag: bool,
    ) -> Option<Error> {
        match first_failure(
            self.common_bounds(group_number_bits, logical_block_address_bits, transfer_length_bits),
        ) {
            Some(e) => Some(e),
            None => if !allow_dld && (self.dld_0 || self.dld_1 || self.dld_2) {
                Some(Error::BadArgument("DLDs are not allowed here"))
            } else if !expect_tag && (self.expected_initial_logical_block_reference_tag != 0
                || self.expected_logical_block_application_tag != 0
                || self.logical_block_application_tag_mask != 0) {
                Some(Error::BadArgument("expected tags and mask are not allowed here"))
            } else {
                None
            },
        }
    }

    fn total_bytes(&self) -> (r: u64)
        ensures
            r == self.total_transfer_bytes(),
    {
        assert(self.transfer_length * self.logical_block_size <= 0xffff_ffff * 0xffff_ffff)
            by (nonlinear_arith)
            requires
                self.transfer_length <= 0xffff_ffff,
                self.logical_block_size <= 0xffff_ffff,
        ;
        self.transfer_length as u64 * self.logical_block_size as u64
    }

    /// Checks the options against the field widths of one form of the
    /// command.
    pub fn common_check(
        &self,
        group_number_bits: u32,
        logical_block_address_bits: u32,
        transfer_length_bits: u32,
        allow_dld: bool,
        expect_tag: bool,
    ) -> (r: Result<(), Error>)
        ensures
            match self.common_check_spec(
                group_number_bits,
                logical_block_address_bits,
                transfer_length_bits,
                allow_dld,
                expect_tag,
            ) {
                Some(e) => r == Err::<(), Error>(e),
                None => r is Ok && self.total_transfer_bytes() <= u32::MAX,
            },
    {
        check_bounds(
            &[
                Bound { value: self.read_protect as u64, bits: 3, name: "read protect" },
                Bound {
                    value: self.group_number as u64,
                    bits: group_number_bits,
                    name: "group number",
                },
                Bound {
                    value: self.logical_block_address,
                    bits: logical_block_address_bits,
                    name: "logical block address",
                },
                Bound {
                    value: self.transfer_length as u64,
                    bits: transfer_length_bits,
                    name: "transfer length",
                },
                Bound { value: self.total_bytes(), bits: 32, name: "total transfer bytes" },
            ],
        )?;
        proof {
            crate::command::lemma_first_failure_none(
                self.common_bounds(
                    group_number_bits,
                    logical_block_address_bits,
                    transfer_length_bits,
                ),
                4,
            );
            vstd::arithmetic::power2::lemma2_to64();
        }
        if !allow_dld && (self.dld_0 || self.dld_1 || self.dld_2) {
            return Err(Error::BadArgument("DLDs are not allowed here"));
        }
        if !expect_tag && (self.expected_initial_logical_block_reference_tag != 0
            || self.expected_logical_block_application_tag != 0
            || self.logical_block_application_tag_mask != 0) {
            return Err(Error::BadArgument("expected tags and mask are not allowed here"));
        }
        Ok(())
    }

    fn allocation_length(&self) -> (r: u32)
        requires
            self.total_transfer_bytes() <= u32::MAX,
        ensures
            r == self.total_transfer_bytes(),
    {
        self.total_bytes() as u32
    }

    /// The descriptor block of READ (10): ten bytes.
    pub open spec fn layout_10(&self) -> Seq<Field> {
        seq![
            Field { width: 8, value: OPERATION_CODE_10 as u64 },
            Field { width: 3, value: self.read_protect as u64 },
            Field { width: 1, value: self.disable_page_out as u64 },
            Field { width: 1, value: self.force_unit_access as u64 },
            Field { width: 1, value: self.rebuild_assist_recovery_control as u64 },
            Field { width: 2, value: 0 },
            Field { width: 32, value: self.logical_block_address },
            Field { width: 3, value: 0 },
            Field { width: 5, value: self.group_number as u64 },
            Field { width: 16, value: self.transfer_length as u64 },
            Field { width: 8, value: self.control as u64 },
        ]
    }

    /// The descriptor block of READ (12): twelve bytes.
    pub open spec fn layout_12(&self) -> Seq<Field> {
        seq![
            Field { width: 8, value: OPERATION_CODE_12 as u64 },
            Field { width: 3, value: self.read_protect as u64 },
            Field { width: 1, value: self.disable_page_out as u64 },
            Field { width: 1, value: self.force_unit_access as u64 },
            Field { width: 1, value: self.rebuild_assist_recovery_control as u64 },
            Field { width: 2, value: 0 },
            Field { width: 32, value: self.logical_block_address },
            Field { width: 32, value: self.transfer_length as u64 },
            Field { width: 3, value: 0 },
            Field { width: 5, value: self.group_number as u64 },
            Field { width: 8, value: self.control as u64 },
        ]
    }

    /// The descriptor block of READ (16): sixteen bytes.
    pub open spec fn layout_16(&self) -> Seq<Field> {
        seq![
            Field { width: 8, value: OPERATION_CODE_16 as u64 },
            Field { width: 3, value: self.read_protect as u64 },
            Field { width: 1, value: self.disable_page_out as u64 },
            Field { width: 1, value: self.force_unit_access as u64 },
            Field { width: 1, value: self.rebuild_assist_recovery_control as u64 },
            Field { width: 1, value: 0 },
            Field { width: 1, value: self.dld_2 as u64 },
            Field { width: 64, value: self.logical_block_address },
            Field { width: 32, value: self.transfer_length as u64 },
            Field { width: 1, value: self.dld_1 as u64 },
            Field { width: 1, value: self.dld_0 as u64 },
            Field { width: 6, value: self.group_number as u64 },
            Field { width: 8, value: self.control as u64 },
        ]
    }

    /// The descriptor block of READ (32): thirty-two bytes.
    pub open spec fn layout_32(&self) -> Seq<Field> {
        seq![
            Field { width: 8, value: OPERATION_CODE_32 as u64 },
            Field { width: 8, value: self.control as u64 },
            Field { width: 32, value: 0 },
            Field { width: 3, value: 0 },
            Field { width: 5, value: self.group_number as u64 },
            Field { width: 8, value: 0x18 },
            Field { width: 16, value: SERVICE_ACTION_32 as u64 },
            Field { width: 3, value: self.read_protect as u64 },
            Field { width: 1, value: self.disable_page_out as u64 },
            Field { width: 1, value: self.force_unit_access as u64 },
            Field { width: 1, value: self.rebuild_assist_recovery_control as u64 },
            Field { width: 1, value: 0 },
            Field { width: 1, value: 0 },
            Field { width: 8, value: 0 },
            Field { width: 64, value: self.logical_block_address },
            Field { width: 32, value: self.expected_initial_logical_block_reference_tag as u64 },
            Field { width: 16, value: self.expected_logical_block_application_tag as u64 },
            Field { width: 16, value: self.logical_block_application_tag_mask as u64 },
            Field { width: 32, value: self.transfer_length as u64 },
        ]
    }

    /// Checks the options against READ (10) and packs its descriptor block. The
    /// buffer for the answer takes `transfer_length` blocks of
    /// `logical_block_size` bytes.
    pub fn issue_10(&self) -> (r: Result<ThisCommand, Error>)
        ensures
            match self.common_check_spec(5, 32, 16, false, false) {
                Some(e) => r == Err::<ThisCommand, Error>(e),
                None => r matches Ok(c) && c.command_buffer@ == packed(self.layout_10())
                    && c.allocation_length == self.transfer_length * self.logical_block_size,
            },
    {
        self.common_check(5, 32, 16, false, false)?;
        reveal_with_fuel(width_upto, 12);
        let command_buffer = pack_vec::<10>(
            &[
                Field { width: 8, value: OPERATION_CODE_10 as u64 },
                Field { width: 3, value: self.read_protect as u64 },
                Field { width: 1, value: self.disable_page_out as u64 },
                Field { width: 1, value: self.force_unit_access as u64 },
                Field { width: 1, value: self.rebuild_assist_recovery_control as u64 },
                Field { width: 2, value: 0 },
                Field { width: 32, value: self.logical_block_address },
                Field { width: 3, value: 0 },
                Field { width: 5, value: self.group_number as u64 },
                Field { width: 16, value: self.transfer_length as u64 },
                Field { width: 8, value: self.control as u64 },
            ],
        );
        Ok(ThisCommand { command_buffer, allocation_length: self.allocation_length() })
    }

    /// Checks the options against READ (12) and packs its descriptor block. The
    /// buffer for the answer takes `transfer_length` blocks of
    /// `logical_block_size` bytes.
    pub fn issue_12(&self) -> (r: Result<ThisCommand, Error>)
        ensures
            match self.common_check_spec(5, 32, 32, false, false) {
                Some(e) => r == Err::<ThisCommand, Error>(e),
                None => r matches Ok(c) && c.command_buffer@ == packed(self.layout_12())
                    && c.allocation_length == self.transfer_length * self.logical_block_size,
            },
    {
        self.common_check(5, 32, 32, false, false)?;
        reveal_with_fuel(width_upto, 12);
        let command_buffer = pack_vec::<12>(
            &[
                Field { width: 8, value: OPERATION_CODE_12 as u64 },
                Field { width: 3, value: self.read_protect as u64 },
                Field { width: 1, value: self.disable_page_out as u64 },
                Field { width: 1, value: self.force_unit_access as u64 },
                Field { width: 1, value: self.rebuild_assist_recovery_control as u64 },
                Field { width: 2, value: 0 },
                Field { width: 32, value: self.logical_block_address },
                Field { width: 32, value: self.transfer_length as u64 },
                Field { width: 3, value: 0 },
                Field { width: 5, value: self.group_number as u64 },
                Field { width: 8, value: self.control as u64 },
            ],
        );
        Ok(ThisCommand { command_buffer, allocation_length: self.allocation_length() })
    }

    /// Checks the options against READ (16) and packs its descriptor block. The
    /// buffer for the answer takes `transfer_length` blocks of
    /// `logical_block_size` bytes.
    pub fn issue_16(&self) -> (r: Result<ThisCommand, Error>)
        ensures
            match self.common_check_spec(6, 64, 32, true, false) {
                Some(e) => r == Err::<ThisCommand, Error>(e),
                None => r matches Ok(c) && c.command_buffer@ == packed(self.layout_16())
                    && c.allocation_length == self.transfer_length * self.logical_block_size,
            },
    {
        self.common_check(6, 64, 32, true, false)?;
        reveal_with_fuel(width_upto, 14);
        let command_buffer = pack_vec::<16>(
            &[
                Field { width: 8, value: OPERATION_CODE_16 as u64 },
                Field { width: 3, value: self.read_protect as u64 },
                Field { width: 1, value: self.disable_page_out as u64 },
                Field { width: 1, value: self.force_unit_access as u64 },
                Field { width: 1, value: self.rebuild_assist_recovery_control as u64 },
                Field { width: 1, value: 0 },
                Field { width: 1, value: self.dld_2 as u64 },
                Field { width: 64, value: self.logical_block_address },
                Field { width: 32, value: self.transfer_length as u64 },
                Field { width: 1, value: self.dld_1 as u64 },
                Field { width: 1, value: self.dld_0 as u64 },
                Field { width: 6, value: self.group_number as u64 },
                Field { width: 8, value: self.control as u64 },
            ],
        );
        Ok(ThisCommand { command_buffer, allocation_length: self.allocation_length() })
    }

    /// Checks the options against READ (32) and packs its descriptor block. The
    /// buffer for the answer takes `transfer_length` blocks of
    /// `logical_block_size` bytes.
    pub fn issue_32(&self) -> (r: Result<ThisCommand, Error>)
        ensures
            match self.common_check_spec(5, 64, 32, false, true) {
                Some(e) => r == Err::<ThisCommand, Error>(e),
                None => r matches Ok(c) && c.command_buffer@ == packed(self.layout_32())
                    && c.allocation_length == self.transfer_length * self.logical_block_size,
            },
    {
        self.common_check(5, 64, 32, false, true)?;
        reveal_with_fuel(width_upto, 20);
        let command_buffer = pack_vec::<32>(
            &[
                Field { width: 8, value: OPERATION_CODE_32 as u64 },
                Field { width: 8, value: self.control as u64 },
                Field { width: 32, value: 0 },
                Field { width: 3, value: 0 },
                Field { width: 5, value: self.group_number as u64 },
                Field { width: 8, value: 0x18 },
                Field { width: 16, value: SERVICE_ACTION_32 as u64 },
                Field { width: 3, value: self.read_protect as u64 },
                Field { width: 1, value: self.disable_page_out as u64 },
                Field { width: 1, value: self.force_unit_access as u64 },
                Field { width: 1, value: self.rebuild_assist_recovery_control as u64 },
                Field { width: 1, value: 0 },
                Field { width: 1, value: 0 },
                Field { width: 8, value: 0 },
                Field { width: 64, value: self.logical_block_address },
                Field {
                    width: 32,
                    value: self.expected_initial_logical_block_reference_tag as u64,
                },
                Field { width: 16, value: self.expected_logical_block_application_tag as u64 },
                Field { width: 16, value: self.logical_block_application_tag_mask as u64 },
                Field { width: 32, value: self.transfer_length as u64 },
            ],
        );
        Ok(ThisCommand { command_buffer, allocation_length: self.allocation_length() })
    }
}

impl<H> Scsi<H> {
    /// A read with its options at their defaults.
    pub fn read(&self) -> (r: ReadCommand)
        ensures
            r.control == 0,
            r.group_number == 0,
            r.read_protect == 0,
            r.disable_page_out == false,
            r.force_unit_access == false,
            r.rebuild_assist_recovery_control == false,
            r.logical_block_address == 0,
            r.expected_initial_logical_block_reference_tag == 0,
            r.expected_logical_block_application_tag == 0,
            r.logical_block_application_tag_mask == 0,
            r.transfer_length == 0,
            r.dld_0 == false,
            r.dld_1 == false,
            r.dld_2 == false,
            r.logical_block_size == 512,
    {
        ReadCommand::new()
    }
}

/// A read that passed its checks: the packed descriptor block, and the size
/// of the buffer for the answer.
#[derive(Debug)]
pub struct ThisCommand {
    pub command_buffer: Vec<u8>,
    pub allocation_length: u32,
}

impl Command for ThisCommand {
    type ReturnType = Result<Vec<u8>, Error>;

    open spec fn direction_spec(&self) -> DataDirection {
        DataDirection::FromDevice
    }

    open spec fn command_spec(&self) -> Seq<u8> {
        self.command_buffer@
    }

    open spec fn data_spec(&self) -> Seq<u8> {
        zeros(self.allocation_length as nat)
    }

    open spec fn data_size_spec(&self) -> u32 {
        self.allocation_length
    }

    fn direction(&self) -> (r: DataDirection) {
        DataDirection::FromDevice
    }

    fn command(&self) -> (r: Vec<u8>) {
        let r = self.command_buffer.clone();
        assert(r@ =~= self.command_buffer@);
        r
    }

    fn data(&self) -> (r: Vec<u8>) {
        zeroed(self.allocation_length as usize)
    }

    fn data_size(&self) -> (r: u32) {
        self.allocation_length
    }

    /// The blocks that were read, unless the transport or the device
    /// reported a failure.
    fn process_result(&self, result: ResultData) -> (r: Result<Vec<u8>, Error>)
        ensures
            match r {
                Ok(data) => result.passes() && data == result.data,
                Err(e) => result.checked(Err(e)),
            },
    {
        result.check_errors()?;
        Ok(result.data)
    }
}

} // verus!
