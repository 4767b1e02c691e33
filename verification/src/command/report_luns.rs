//! REPORT LUNS: list the logical units of the device.

use vstd::prelude::*;
use crate::bitfield::{field_value, get_u32, pack_vec, packed, width_upto, zeros, Field};
use crate::command::{
    after, be_u64_chunks, be_u64_chunks_spec, chunk, get_array, zeroed, Command,
};
use crate::data_direction::DataDirection;
use crate::error::{BoundCheckError, Error};
use crate::result_data::ResultData;
use crate::scsi::Scsi;

verus! {

pub const OPERATION_CODE: u8 = 0xA0;

pub const MAX_DESCRIPTOR_LENGTH: u32 = 0x1FFF_FFFE;

/// The options of a report luns. They are checked when the command is issued,
/// not when they are set.
#[derive(Clone, Copy, Debug)]
pub struct ReportLunsCommand {
    pub select_report: u8,
    pub control: u8,
    /// The number of logical unit numbers to make room for: at most
    /// `MAX_DESCRIPTOR_LENGTH`.
    pub descriptor_length: u32,
}

impl ReportLunsCommand {
    /// A report luns with every option zero.
    pub fn new() -> (r: Self)
        ensures
            r.select_report == 0,
            r.control == 0,
            r.descriptor_length == 0,
    {
        ReportLunsCommand {
            select_report: 0,
            control: 0,
            descriptor_length: 0,
        }
    }

    /// Sets the select report field.
    pub fn select_report(&mut self, value: u8) -> (r: &mut Self)
        ensures
            *r == (ReportLunsCommand { select_report: value, ..*old(self) }),
            *final(self) == *final(r),
    {
        self.select_report = value;
        self
    }

    /// Sets the control byte.
    pub fn control(&mut self, value: u8) -> (r: &mut Self)
        ensures
            *r == (ReportLunsCommand { control: value, ..*old(self) }),
            *final(self) == *final(r),
    {
        self.control = value;
        self
    }

    /// Sets the number of logical unit numbers to make room for: at most
    /// 0x1FFF_FFFE, so that the bytes of the answer can be counted in
    /// thirty-two bits.
    pub fn descriptor_length(&mut self, value: u32) -> (r: &mut Self)
        ensures
            *r == (ReportLunsCommand { descriptor_length: value, ..*old(self) }),
            *final(self) == *final(r),
    {
        self.descriptor_length = value;
        self
    }

    /// The descriptor block of REPORT LUNS: twelve bytes. The allocation length
    /// is eight bytes of header and eight bytes for each logical unit number.
    pub open spec fn layout(&self) -> Seq<Field> {
        seq![
            Field { width: 8, value: OPERATION_CODE as u64 },
            Field { width: 8, value: 0 },
            Field { width: 8, value: self.select_report as u64 },
            Field { width: 24, value: 0 },
            Field { width: 32, value: (self.descriptor_length as u64 * 8 + 8) as u64 },
            Field { width: 8, value: 0 },
            Field { width: 8, value: self.control as u64 },
        ]
    }

    /// What `issue` finds wrong with the options, if anything.
    pub open spec fn issue_check(&self) -> Option<Error> {
        if self.descriptor_length > MAX_DESCRIPTOR_LENGTH {
            Some(Error::ArgumentOutOfBounds(
                BoundCheckError {
                    name: "descriptor length",
                    max: MAX_DESCRIPTOR_LENGTH as u64,
                    given: self.descriptor_length as u64,
                },
            ))
        } else {
            None
        }
    }

    /// Checks the descriptor length and packs the descriptor block.
    pub fn issue(&self) -> (r: Result<ThisCommand, Error>)
        ensures
            match self.issue_check() {
                Some(e) => r == Err::<ThisCommand, Error>(e),
                None => r matches Ok(c) && c.command_buffer@ == packed(self.layout())
                    && c.allocation_length == self.descriptor_length * 8 + 8,
            },
    {
        if self.descriptor_length > MAX_DESCRIPTOR_LENGTH {
            return Err(Error::ArgumentOutOfBounds(
                BoundCheckError {
                    name: "descriptor length",
                    max: MAX_DESCRIPTOR_LENGTH as u64,
                    given: self.descriptor_length as u64,
                },
            ));
        }
        reveal_with_fuel(width_upto, 8);
        let command_buffer = pack_vec::<12>(
            &[
                Field { width: 8, value: OPERATION_CODE as u64 },
                Field { width: 8, value: 0 },
                Field { width: 8, value: self.select_report as u64 },
                Field { width: 24, value: 0 },
                Field { width: 32, value: (self.descriptor_length as u64 * 8 + 8) as u64 },
                Field { width: 8, value: 0 },
                Field { width: 8, value: self.control as u64 },
            ],
        );
        Ok(ThisCommand { command_buffer, allocation_length: self.descriptor_length * 8 + 8 })
    }
}

impl<H> Scsi<H> {
    /// A report luns with its options at their defaults.
    pub fn report_luns(&self) -> (r: ReportLunsCommand)
        ensures
            r.select_report == 0,
            r.control == 0,
            r.descriptor_length == 0,
    {
        ReportLunsCommand::new()
    }
}

/// The logical units of the device.
#[derive(Debug)]
pub struct CommandResult {
    /// What the header of the answer declares as the length of the list.
    pub total_descriptor_length: u32,
    /// The logical unit numbers.
    pub descriptors: Vec<u64>,
}

/// A report luns that passed its check: the packed descriptor block, and the
/// size of the buffer for the answer.
#[derive(Debug)]
pub struct ThisCommand {
    pub command_buffer: Vec<u8>,
    pub allocation_length: u32,
}

impl Command for ThisCommand {
    type ReturnType = Result<CommandResult, Error>;

    open spec fn direction_spec(&self) -> DataDirection {
        DataDirection::FromDevice
    }

    open spec fn command_spec(&self) -> Seq<u8> {
        self.command_buffer@
    }

    open spec fn data_spec(&self) -> Seq<u8> {
        zeros(self.allocation_length as nat)
    }

    open spec fn data_size_spec(&self) -> u32 {
        self.allocation_length
    }

    fn direction(&self) -> (r: DataDirection) {
        DataDirection::FromDevice
    }

    fn command(&self) -> (r: Vec<u8>) {
        crate::command::duplicate(self.command_buffer.as_slice())
    }

    fn data(&self) -> (r: Vec<u8>) {
        zeroed(self.allocation_length as usize)
    }

    fn data_size(&self) -> (r: u32) {
        self.allocation_length
    }

    /// The list, unless the transport or the device reported a failure: the
    /// length that the first four bytes declare, and, after four bytes that are
    /// skipped, one logical unit number for every eight bytes, big-endian.
    /// Missing bytes count as zero.
    fn process_result(&self, result: ResultData) -> (r: Result<CommandResult, Error>)
        ensures
            match r {
                Ok(list) => result.passes() && list.total_descriptor_length == field_value(
                    chunk(result.data@, 4, 0),
                    0,
                    32,
                ) && list.descriptors@ == be_u64_chunks_spec(after(result.data@, 8)),
                Err(e) => result.checked(Err(e)),
            },
    {
        result.check_errors()?;
        let (length, left) = get_array::<4>(result.data.as_slice());
        let (skip, left) = get_array::<4>(left);
        assert(left@ =~= after(result.data@, 8));
        Ok(
            CommandResult {
                total_descriptor_length: get_u32(length.as_slice(), 0, 32),
                descriptors: be_u64_chunks(left),
            },
        )
    }
}

} // verus!
