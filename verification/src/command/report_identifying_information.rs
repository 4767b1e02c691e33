//! REPORT IDENTIFYING INFORMATION: read the identifying information that was
//! stored in the device.

use vstd::prelude::*;
use crate::bitfield::{pack_vec, packed, width_upto, zeros, Field};
use crate::command::{check_bounds, first_failure, zeroed, Bound, Command};
use crate::data_direction::DataDirection;
use crate::error::Error;
use crate::result_data::ResultData;
use crate::scsi::Scsi;

verus! {

pub const OPERATION_CODE: u8 = 0xA3;

pub const SERVICE_ACTION: u8 = 0x05;

/// The options of a report identifying information. They are checked when the
/// command is issued, not when they are set.
#[derive(Clone, Copy, Debug)]
pub struct ReportIdentifyingInformationCommand {
    pub allocation_length: u32,
    /// Must fit seven bits.
    pub information_type: u8,
    pub control: u8,
}

impl ReportIdentifyingInformationCommand {
    /// A report identifying information with every option zero.
    pub fn new() -> (r: Self)
        ensures
            r.allocation_length == 0,
            r.information_type == 0,
            r.control == 0,
    {
        ReportIdentifyingInformationCommand {
            allocation_length: 0,
            information_type: 0,
            control: 0,
        }
    }

    /// Sets the number of bytes to make room for.
    pub fn allocation_length(&mut self, value: u32) -> (r: &mut Self)
        ensures
            *r == (ReportIdentifyingInformationCommand { allocation_length: value, ..*old(self) }),
            *final(self) == *final(r),
    {
        self.allocation_length = value;
        self
    }

    /// Sets the type of the information asked for: below 0x80.
    pub fn information_type(&mut self, value: u8) -> (r: &mut Self)
        ensures
            *r == (ReportIdentifyingInformationCommand { information_type: value, ..*old(self) }),
            *final(self) == *final(r),
    {
        self.information_type = value;
        self
    }

    /// Sets the control byte.
    pub fn control(&mut self, value: u8) -> (r: &mut Self)
        ensures
            *r == (ReportIdentifyingInformationCommand { control: value, ..*old(self) }),
            *final(self) == *final(r),
    {
        self.control = value;
        self
    }

    /// The descriptor block of REPORT IDENTIFYING INFORMATION: twelve bytes.
    pub open spec fn layout(&self) -> Seq<Field> {
        seq![
            Field { width: 8, value: OPERATION_CODE as u64 },
            Field { width: 3, value: 0 },
            Field { width: 5, value: SERVICE_ACTION as u64 },
            Field { width: 32, value: 0 },
            Field { width: 32, value: self.allocation_length as u64 },
            Field { width: 7, value: self.information_type as u64 },
            Field { width: 1, value: 0 },
            Field { width: 8, value: self.control as u64 },
        ]
    }

    /// The bound checks that `issue` makes, in their order.
    pub open spec fn issue_bounds(&self) -> Seq<Bound> {
        seq![
            Bound { value: self.information_type as u64, bits: 7, name: "information type" },
        ]
    }

    /// What `issue` finds wrong with the options, if anything: the first
    /// bound that fails.
    pub open spec fn issue_check(&self) -> Option<Error> {
        match first_failure(self.issue_bounds()) {
            Some(e) => Some(e),
            None => {
                None
            },
        }
    }

    /// Checks the information type and packs the descriptor block.
    pub fn issue(&self) -> (r: Result<ThisCommand, Error>)
        ensures
            match self.issue_check() {
                Some(e) => r == Err::<ThisCommand, Error>(e),
                None => r matches Ok(c) && c.command_buffer@ == packed(self.layout())
                    && c.allocation_length == self.allocation_length,
            },
    {
        let bounds = [
            Bound { value: self.information_type as u64, bits: 7, name: "information type" },
        ];
        assert(bounds@ =~= seq![
            Bound { value: self.information_type as u64, bits: 7, name: "information type" },
        ]);
        check_bounds(&bounds)?;
        reveal_with_fuel(width_upto, 9);
        let command_buffer = pack_vec::<12>(
            &[
                Field { width: 8, value: OPERATION_CODE as u64 },
                Field { width: 3, value: 0 },
                Field { width: 5, value: SERVICE_ACTION as u64 },
                Field { width: 32, value: 0 },
                Field { width: 32, value: self.allocation_length as u64 },
                Field { width: 7, value: self.information_type as u64 },
                Field { width: 1, value: 0 },
                Field { width: 8, value: self.control as u64 },
            ],
        );
        Ok(ThisCommand { command_buffer, allocation_length: self.allocation_length })
    }
}

impl<H> Scsi<H> {
    /// A report identifying information with its options at their defaults.
    pub fn report_identifying_information(&self) -> (r: ReportIdentifyingInformationCommand)
        ensures
            r.allocation_length == 0,
            r.information_type == 0,
            r.control == 0,
    {
        ReportIdentifyingInformationCommand::new()
    }
}

/// A report identifying information that passed its check: the packed
/// descriptor block, and the size of the buffer for the answer.
#[derive(Debug)]
pub struct ThisCommand {
    pub command_buffer: Vec<u8>,
    pub allocation_length: u32,
}

impl Command for ThisCommand {
    type ReturnType = Result<Vec<u8>, Error>;

    open spec fn direction_spec(&self) -> DataDirection {
        DataDirection::FromDevice
    }

    open spec fn command_spec(&self) -> Seq<u8> {
        self.command_buffer@
    }

    open spec fn data_spec(&self) -> Seq<u8> {
        zeros(self.allocation_length as nat)
    }

    open spec fn data_size_spec(&self) -> u32 {
        self.allocation_length
    }

    fn direction(&self) -> (r: DataDirection) {
        DataDirection::FromDevice
    }

    fn command(&self) -> (r: Vec<u8>) {
        let r = self.command_buffer.clone();
        assert(r@ =~= self.command_buffer@);
        r
    }

    fn data(&self) -> (r: Vec<u8>) {
        zeroed(self.allocation_length as usize)
    }

    fn data_size(&self) -> (r: u32) {
        self.allocation_length
    }

    /// The bytes that came back, unless the transport or the device reported a
    /// failure.
    fn process_result(&self, result: ResultData) -> (r: Result<Vec<u8>, Error>)
        ensures
            match r {
                Ok(data) => result.passes() && data == result.data,
                Err(e) => result.checked(Err(e)),
            },
    {
        result.check_errors()?;
        Ok(result.data)
    }
}

} // verus!
