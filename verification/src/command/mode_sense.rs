//! MODE SENSE (6) and (10): read mode parameters of the device.

use vstd::prelude::*;
use crate::bitfield::{pack_vec, packed, width_upto, zeros, Field};
use crate::command::{check_bounds, first_failure, zeroed, Bound, Command};
use crate::data_direction::DataDirection;
use crate::error::Error;
use crate::result_data::ResultData;
use crate::scsi::Scsi;

verus! {

pub const OPERATION_CODE_6: u8 = 0x1A;

pub const OPERATION_CODE_10: u8 = 0x5A;

/// Which values of a mode page are asked for.
#[derive(Clone, Copy, Debug, PartialEq, Eq, Structural)]
pub enum PageControl {
    Current,
    Changeable,
    Default,
    Saved,
}

impl PageControl {
    /// The two bits of the page control field.
    pub open spec fn code_spec(&self) -> u8 {
        match self {
            PageControl::Current => 0,
            PageControl::Changeable => 1,
            PageControl::Default => 2,
            PageControl::Saved => 3,
        }
    }

    /// The two bits of the page control field.
    #[verifier::when_used_as_spec(code_spec)]
    pub fn code(&self) -> (r: u8)
        ensures
            r == self.code_spec(),
    {
        match self {
            PageControl::Current => 0,
            PageControl::Changeable => 1,
            PageControl::Default => 2,
            PageControl::Saved => 3,
        }
    }
}

/// The options of a mode sense. They are checked when a form of the command is
/// chosen, not when they are set.
#[derive(Clone, Copy, Debug)]
pub struct ModeSenseCommand {
    /// MODE SENSE (10) only.
    pub long_lba_accepted: bool,
    pub disable_block_descriptors: bool,
    /// Two bits.
    pub page_control: u8,
    /// Must fit six bits.
    pub page_code: u8,
    pub subpage_code: u8,
    /// Must fit eight bits for MODE SENSE (6).
    pub allocation_length: u16,
    pub control: u8,
}

impl ModeSenseCommand {
    /// A mode sense with every option zero.
    pub fn new() -> (r: Self)
        ensures
            r.long_lba_accepted == false,
            r.disable_block_descriptors == false,
            r.page_control == 0,
            r.page_code == 0,
            r.subpage_code == 0,
            r.allocation_length == 0,
            r.control == 0,
    {
        ModeSenseCommand {
            long_lba_accepted: false,
            disable_block_descriptors: false,
            page_control: 0,
            page_code: 0,
            subpage_code: 0,
            allocation_length: 0,
            control: 0,
        }
    }


    /// Sets the long LBA accepted bit: MODE SENSE (10) only.
    pub fn long_lba_accepted(&mut self, long_lba_accepted: bool) -> (r: &mut Self)
        ensures
            *r == (ModeSenseCommand { long_lba_accepted: long_lba_accepted, ..*old(self) }),
            *final(self) == *final(r),
    {
        self.long_lba_accepted = long_lba_accepted;
        self
    }

    /// Sets the disable block descriptors bit.
    pub fn disable_block_descriptors(&mut self, disable_block_descriptors: bool) -> (r: &mut Self)
        ensures
            *r == (ModeSenseCommand {
                disable_block_descriptors: disable_block_descriptors,
                ..*old(self)
            }),
            *final(self) == *final(r),
    {
        self.disable_block_descriptors = disable_block_descriptors;
        self
    }

    /// Says which values of the page are asked for.
    pub fn page_control(&mut self, page_control: PageControl) -> (r: &mut Self)
        ensures
            *r == (ModeSenseCommand { page_control: page_control.code(), ..*old(self) }),
            *final(self) == *final(r),
    {
        self.page_control = page_control.code();
        self
    }

    /// Sets the page code: below 0x40.
    pub fn page_code(&mut self, page_code: u8) -> (r: &mut Self)
        ensures
            *r == (ModeSenseCommand { page_code: page_code, ..*old(self) }),
            *final(self) == *final(r),
    {
        self.page_code = page_code;
        self
    }

    /// Sets the subpage code.
    pub fn subpage_code(&mut self, subpage_code: u8) -> (r: &mut Self)
        ensures
            *r == (ModeSenseCommand { subpage_code: subpage_code, ..*old(self) }),
            *final(self) == *final(r),
    {
        self.subpage_code = subpage_code;
        self
    }

    /// Sets the number of bytes to make room for: below 0x100 for MODE SENSE
    /// (6).
    pub fn allocation_length(&mut self, allocation_length: u16) -> (r: &mut Self)
        ensures
            *r == (ModeSenseCommand { allocation_length: allocation_length, ..*old(self) }),
            *final(self) == *final(r),
    {
        self.allocation_length = allocation_length;
        self
    }

    /// Sets the control byte.
    pub fn control(&mut self, control: u8) -> (r: &mut Self)
        ensures
            *r == (ModeSenseCommand { control: control, ..*old(self) }),
            *final(self) == *final(r),
    {
        self.control = control;
        self
    }

    /// The bound checks that `error_check` makes, in their order.
    pub open spec fn error_check_bounds(&self, allocation_length_bits: u32) -> Seq<Bound> {
        seq![
            Bound { value: self.page_control as u64, bits: 2, name: "page control" },
            Bound { value: self.page_code as u64, bits: 6, name: "page code" },
            Bound {
                value: self.allocation_length as u64,
                bits: allocation_length_bits,
                name: "allocation length",
            },
        ]
    }

    /// What `error_check` finds wrong, if anything: the first bound that fails;
    /// else the first condition that refuses.
    pub open spec fn error_check_spec(
        &self,
        allocation_length_bits: u32,
        allow_long_lba_accepted: bool,
    ) -> Option<Error> {
        match first_failure(self.error_check_bounds(allocation_length_bits)) {
            Some(e) => Some(e),
            None => if !allow_long_lba_accepted && self.long_lba_accepted {
                Some(Error::BadArgument("long lba accepted is not allowed here"))
            } else {
                None
            },
        }
    }

    /// Checks the options against the field widths of one form of the command.
    pub fn error_check(
        &self,
        allocation_length_bits: u32,
        allow_long_lba_accepted: bool,
    ) -> (r: Result<(), Error>)
        ensures
            match self.error_check_spec(allocation_length_bits, allow_long_lba_accepted) {
                Some(e) => r == Err::<(), Error>(e),
                None => r is Ok,
            },
    {
        check_bounds(
            &[
                Bound { value: self.page_control as u64, bits: 2, name: "page control" },
                Bound { value: self.page_code as u64, bits: 6, name: "page code" },
                Bound {
                    value: self.allocation_length as u64,
                    bits: allocation_length_bits,
                    name: "allocation length",
                },
            ],
        )?;
        if !allow_long_lba_accepted && self.long_lba_accepted {
            return Err(Error::BadArgument("long lba accepted is not allowed here"));
        }
        Ok(())
    }

    /// The descriptor block of MODE SENSE (6): six bytes.
    pub open spec fn layout_6(&self) -> Seq<Field> {
        seq![
            Field { width: 8, value: OPERATION_CODE_6 as u64 },
            Field { width: 4, value: 0 },
            Field { width: 1, value: self.disable_block_descriptors as u64 },
            Field { width: 3, value: 0 },
            Field { width: 2, value: self.page_control as u64 },
            Field { width: 6, value: self.page_code as u64 },
            Field { width: 8, value: self.subpage_code as u64 },
            Field { width: 8, value: self.allocation_length as u64 },
            Field { width: 8, value: self.control as u64 },
        ]
    }

    /// The descriptor block of MODE SENSE (10): ten bytes.
    pub open spec fn layout_10(&self) -> Seq<Field> {
        seq![
            Field { width: 8, value: OPERATION_CODE_10 as u64 },
            Field { width: 3, value: 0 },
            Field { width: 1, value: self.long_lba_accepted as u64 },
            Field { width: 1, value: self.disable_block_descriptors as u64 },
            Field { width: 3, value: 0 },
            Field { width: 2, value: self.page_control as u64 },
            Field { width: 6, value: self.page_code as u64 },
            Field { width: 8, value: self.subpage_code as u64 },
            Field { width: 24, value: 0 },
            Field { width: 16, value: self.allocation_length as u64 },
            Field { width: 8, value: self.control as u64 },
        ]
    }

    /// Checks the options against MODE SENSE (6) and packs its descriptor
    /// block.
    pub fn issue_6(&self) -> (r: Result<ThisCommand, Error>)
        ensures
            match self.error_check_spec(8, false) {
                Some(e) => r == Err::<ThisCommand, Error>(e),
                None => r matches Ok(c) && c.command_buffer@ == packed(self.layout_6())
                    && c.allocation_length == self.allocation_length,
            },
    {
        self.error_check(8, false)?;
        reveal_with_fuel(width_upto, 10);
        let command_buffer = pack_vec::<6>(
            &[
                Field { width: 8, value: OPERATION_CODE_6 as u64 },
                Field { width: 4, value: 0 },
                Field { width: 1, value: self.disable_block_descriptors as u64 },
                Field { width: 3, value: 0 },
                Field { width: 2, value: self.page_control as u64 },
                Field { width: 6, value: self.page_code as u64 },
                Field { width: 8, value: self.subpage_code as u64 },
                Field { width: 8, value: self.allocation_length as u64 },
                Field { width: 8, value: self.control as u64 },
            ],
        );
        Ok(ThisCommand { command_buffer, allocation_length: self.allocation_length as u32 })
    }

    /// Checks the options against MODE SENSE (10) and packs its descriptor
    /// block.
    pub fn issue_10(&self) -> (r: Result<ThisCommand, Error>)
        ensures
            match self.error_check_spec(16, true) {
                Some(e) => r == Err::<ThisCommand, Error>(e),
                None => r matches Ok(c) && c.command_buffer@ == packed(self.layout_10())
                    && c.allocation_length == self.allocation_length,
            },
    {
        self.error_check(16, true)?;
        reveal_with_fuel(width_upto, 12);
        let command_buffer = pack_vec::<10>(
            &[
                Field { width: 8, value: OPERATION_CODE_10 as u64 },
                Field { width: 3, value: 0 },
                Field { width: 1, value: self.long_lba_accepted as u64 },
                Field { width: 1, value: self.disable_block_descriptors as u64 },
                Field { width: 3, value: 0 },
                Field { width: 2, value: self.page_control as u64 },
                Field { width: 6, value: self.page_code as u64 },
                Field { width: 8, value: self.subpage_code as u64 },
                Field { width: 24, value: 0 },
                Field { width: 16, value: self.allocation_length as u64 },
                Field { width: 8, value: self.control as u64 },
            ],
        );
        Ok(ThisCommand { command_buffer, allocation_length: self.allocation_length as u32 })
    }
}

impl<H> Scsi<H> {
    /// A mode sense with its options at their defaults.
    pub fn mode_sense(&self) -> (r: ModeSenseCommand)
        ensures
            r.long_lba_accepted == false,
            r.disable_block_descriptors == false,
            r.page_control == 0,
            r.page_code == 0,
            r.subpage_code == 0,
            r.allocation_length == 0,
            r.control == 0,
    {
        ModeSenseCommand::new()
    }
}

/// A mode sense that passed its checks: the packed descriptor block, and the
/// size of the buffer for the answer.
#[derive(Debug)]
pub struct ThisCommand {
    pub command_buffer: Vec<u8>,
    pub allocation_length: u32,
}

impl Command for ThisCommand {
    type ReturnType = Result<Vec<u8>, Error>;

    open spec fn direction_spec(&self) -> DataDirection {
        DataDirection::FromDevice
    }

    open spec fn command_spec(&self) -> Seq<u8> {
        self.command_buffer@
    }

    open spec fn data_spec(&self) -> Seq<u8> {
        zeros(self.allocation_length as nat)
    }

    open spec fn data_size_spec(&self) -> u32 {
        self.allocation_length
    }

    fn direction(&self) -> (r: DataDirection) {
        DataDirection::FromDevice
    }

    fn command(&self) -> (r: Vec<u8>) {
        let r = self.command_buffer.clone();
        assert(r@ =~= self.command_buffer@);
        r
    }

    fn data(&self) -> (r: Vec<u8>) {
        zeroed(self.allocation_length as usize)
    }

    fn data_size(&self) -> (r: u32) {
        self.allocation_length
    }

    /// The bytes that came back, unless the transport or the device reported a
    /// failure.
    fn process_result(&self, result: ResultData) -> (r: Result<Vec<u8>, Error>)
        ensures
            match r {
                Ok(data) => result.passes() && data == result.data,
                Err(e) => result.checked(Err(e)),
            },
    {
        result.check_errors()?;
        Ok(result.data)
    }
}

} // verus!
