//! LOG SELECT: set or reset log parameters of the device.

use vstd::prelude::*;
use crate::bitfield::{pack_vec, packed, width_upto, Field};
use crate::command::{check_bounds, first_failure, Bound, Command};
use crate::data_direction::DataDirection;
use crate::error::Error;
use crate::result_data::ResultData;
use crate::data_wrapper::Wire;
use crate::scsi::Scsi;

verus! {

pub const OPERATION_CODE: u8 = 0x4C;

/// The options and the parameters of a log select. They are checked when the
/// command is issued, not when they are set.
#[derive(Debug)]
pub struct LogSelectCommand {
    pub parameter_code_reset: bool,
    pub save_parameters: bool,
    /// Must fit two bits.
    pub page_control: u8,
    /// Must fit six bits.
    pub page_code: u8,
    pub subpage_code: u8,
    pub control: u8,
    /// The log parameters: at most 0xFFFF bytes.
    pub data_buffer: Vec<u8>,
}

impl Clone for LogSelectCommand {
    /// A copy with the same options and the same bytes.
    fn clone(&self) -> (r: Self)
        ensures
            r.parameter_code_reset == self.parameter_code_reset,
            r.save_parameters == self.save_parameters,
            r.page_control == self.page_control,
            r.page_code == self.page_code,
            r.subpage_code == self.subpage_code,
            r.control == self.control,
            r.data_buffer@ == self.data_buffer@,
    {
        LogSelectCommand {
            parameter_code_reset: self.parameter_code_reset,
            save_parameters: self.save_parameters,
            page_control: self.page_control,
            page_code: self.page_code,
            subpage_code: self.subpage_code,
            control: self.control,
            data_buffer: crate::command::duplicate(self.data_buffer.as_slice()),
        }
    }
}

impl LogSelectCommand {
    /// A log select with every option zero and no parameters.
    pub fn new() -> (r: Self)
        ensures
            r.parameter_code_reset == false,
            r.save_parameters == false,
            r.page_control == 0,
            r.page_code == 0,
            r.subpage_code == 0,
            r.control == 0,
            r.data_buffer@ == Seq::<u8>::empty(),
    {
        LogSelectCommand {
            parameter_code_reset: false,
            save_parameters: false,
            page_control: 0,
            page_code: 0,
            subpage_code: 0,
            control: 0,
            data_buffer: Vec::new(),
        }
    }

    /// Sets the parameter code reset bit.
    pub fn parameter_code_reset(&mut self, value: bool) -> (r: &mut Self)
        ensures
            *r == (LogSelectCommand { parameter_code_reset: value, ..*old(self) }),
            *final(self) == *final(r),
    {
        self.parameter_code_reset = value;
        self
    }

    /// Sets the save parameters bit.
    pub fn save_parameters(&mut self, value: bool) -> (r: &mut Self)
        ensures
            *r == (LogSelectCommand { save_parameters: value, ..*old(self) }),
            *final(self) == *final(r),
    {
        self.save_parameters = value;
        self
    }

    /// Sets the page control: below 0x04.
    pub fn page_control(&mut self, value: u8) -> (r: &mut Self)
        ensures
            *r == (LogSelectCommand { page_control: value, ..*old(self) }),
            *final(self) == *final(r),
    {
        self.page_control = value;
        self
    }

    /// Sets the page code: below 0x40.
    pub fn page_code(&mut self, value: u8) -> (r: &mut Self)
        ensures
            *r == (LogSelectCommand { page_code: value, ..*old(self) }),
            *final(self) == *final(r),
    {
        self.page_code = value;
        self
    }

    /// Sets the subpage code.
    pub fn subpage_code(&mut self, value: u8) -> (r: &mut Self)
        ensures
            *r == (LogSelectCommand { subpage_code: value, ..*old(self) }),
            *final(self) == *final(r),
    {
        self.subpage_code = value;
        self
    }

    /// Sets the control byte.
    pub fn control(&mut self, value: u8) -> (r: &mut Self)
        ensures
            *r == (LogSelectCommand { control: value, ..*old(self) }),
            *final(self) == *final(r),
    {
        self.control = value;
        self
    }

    /// Sets the log parameters: at most 0xFFFF bytes.
    pub fn parameter(&mut self, value: &[u8]) -> (r: &mut Self)
        ensures
            r.data_buffer@ == value@,
            r.parameter_code_reset == old(self).parameter_code_reset,
            r.save_parameters == old(self).save_parameters,
            r.page_control == old(self).page_control,
            r.page_code == old(self).page_code,
            r.subpage_code == old(self).subpage_code,
            r.control == old(self).control,
            *final(self) == *final(r),
    {
        self.data_buffer = crate::command::duplicate(value);
        self
    }

    /// The descriptor block of LOG SELECT: ten bytes.
    pub open spec fn layout(&self) -> Seq<Field> {
        seq![
            Field { width: 8, value: OPERATION_CODE as u64 },
            Field { width: 6, value: 0 },
            Field { width: 1, value: self.parameter_code_reset as u64 },
            Field { width: 1, value: self.save_parameters as u64 },
            Field { width: 2, value: self.page_control as u64 },
            Field { width: 6, value: self.page_code as u64 },
            Field { width: 8, value: self.subpage_code as u64 },
            Field { width: 24, value: 0 },
            Field { width: 16, value: self.data_buffer.len() as u64 },
            Field { width: 8, value: self.control as u64 },
        ]
    }

    /// The bound checks that `issue` makes, in their order.
    pub open spec fn issue_bounds(&self) -> Seq<Bound> {
        seq![
            Bound { value: self.page_control as u64, bits: 2, name: "page control" },
            Bound { value: self.page_code as u64, bits: 6, name: "page code" },
            Bound { value: self.data_buffer.len() as u64, bits: 16, name: "parameter list length" },
        ]
    }

    /// What `issue` finds wrong with the options, if anything: the first
    /// bound that fails.
    pub open spec fn issue_check(&self) -> Option<Error> {
        match first_failure(self.issue_bounds()) {
            Some(e) => Some(e),
            None => {
                None
            },
        }
    }

    /// Checks the options and the length of the parameters, and packs the
    /// descriptor block.
    pub fn issue(&self) -> (r: Result<ThisCommand, Error>)
        ensures
            match self.issue_check() {
                Some(e) => r == Err::<ThisCommand, Error>(e),
                None => r matches Ok(c) && c.command_buffer@ == packed(self.layout())
                    && c.data_buffer@ == self.data_buffer@,
            },
    {
        check_bounds(
            &[
                Bound { value: self.page_control as u64, bits: 2, name: "page control" },
                Bound { value: self.page_code as u64, bits: 6, name: "page code" },
                Bound {
                    value: self.data_buffer.len() as u64,
                    bits: 16,
                    name: "parameter list length",
                },
            ],
        )?;
        reveal_with_fuel(width_upto, 11);
        let command_buffer = pack_vec::<10>(
            &[
                Field { width: 8, value: OPERATION_CODE as u64 },
                Field { width: 6, value: 0 },
                Field { width: 1, value: self.parameter_code_reset as u64 },
                Field { width: 1, value: self.save_parameters as u64 },
                Field { width: 2, value: self.page_control as u64 },
                Field { width: 6, value: self.page_code as u64 },
                Field { width: 8, value: self.subpage_code as u64 },
                Field { width: 24, value: 0 },
                Field { width: 16, value: self.data_buffer.len() as u64 },
                Field { width: 8, value: self.control as u64 },
            ],
        );
        Ok(
            ThisCommand {
                command_buffer,
                data_buffer: crate::command::duplicate(self.data_buffer.as_slice()),
            },
        )
    }

    /// Takes the bytes of `parameter` for the log parameters and issues the
    /// command as `issue` does.
    pub fn issue_generic<T: Wire>(&mut self, parameter: &T) -> (r: Result<ThisCommand, Error>)
        ensures
            final(self).data_buffer@ == parameter.wire(),
            final(self).parameter_code_reset == old(self).parameter_code_reset,
            final(self).save_parameters == old(self).save_parameters,
            final(self).page_control == old(self).page_control,
            final(self).page_code == old(self).page_code,
            final(self).subpage_code == old(self).subpage_code,
            final(self).control == old(self).control,
            match final(self).issue_check() {
                Some(e) => r == Err::<ThisCommand, Error>(e),
                None => r matches Ok(c) && c.command_buffer@ == packed(final(self).layout())
                    && c.data_buffer@ == parameter.wire(),
            },
    {
        self.data_buffer = parameter.to_wire();
        self.issue()
    }
}

impl<H> Scsi<H> {
    /// A log select with its options at their defaults.
    pub fn log_select(&self) -> (r: LogSelectCommand)
        ensures
            r.parameter_code_reset == false,
            r.save_parameters == false,
            r.page_control == 0,
            r.page_code == 0,
            r.subpage_code == 0,
            r.control == 0,
            r.data_buffer@ == Seq::<u8>::empty(),
    {
        LogSelectCommand::new()
    }
}

/// A log select that passed its checks: the packed descriptor block and the
/// parameters.
#[derive(Debug)]
pub struct ThisCommand {
    pub command_buffer: Vec<u8>,
    pub data_buffer: Vec<u8>,
}

impl Command for ThisCommand {
    type ReturnType = Result<(), Error>;

    open spec fn direction_spec(&self) -> DataDirection {
        DataDirection::ToDevice
    }

    open spec fn command_spec(&self) -> Seq<u8> {
        self.command_buffer@
    }

    open spec fn data_spec(&self) -> Seq<u8> {
        self.data_buffer@
    }

    open spec fn data_size_spec(&self) -> u32 {
        (self.data_buffer@.len() % 0x1_0000_0000) as u32
    }

    fn direction(&self) -> (r: DataDirection) {
        DataDirection::ToDevice
    }

    fn command(&self) -> (r: Vec<u8>) {
        let r = self.command_buffer.clone();
        assert(r@ =~= self.command_buffer@);
        r
    }

    fn data(&self) -> (r: Vec<u8>) {
        let r = self.data_buffer.clone();
        assert(r@ =~= self.data_buffer@);
        r
    }

    fn data_size(&self) -> (r: u32) {
        (self.data_buffer.len() as u64 % 0x1_0000_0000) as u32
    }

    /// Nothing, unless the transport or the device reported a failure.
    fn process_result(&self, result: ResultData) -> (r: Result<(), Error>)
        ensures
            match r {
                Ok(()) => result.passes(),
                Err(e) => result.checked(Err(e)),
            },
    {
        result.check_errors()
    }
}

} // verus!
