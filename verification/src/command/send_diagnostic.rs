//! SEND DIAGNOSTIC: have the device test itself, or send it a diagnostic
//! page.

use vstd::prelude::*;
use crate::bitfield::{pack_vec, packed, width_upto, Field};
use crate::command::{check_bounds, first_failure, Bound, Command};
use crate::data_direction::DataDirection;
use crate::error::Error;
use crate::result_data::ResultData;
use crate::scsi::Scsi;

verus! {

pub const OPERATION_CODE: u8 = 0x1D;

/// The options and the parameter list of a send diagnostic. They are checked
/// when the command is issued, not when they are set.
#[derive(Debug)]
pub struct SendDiagnosticCommand {
    /// Must fit three bits.
    pub self_test_code: u8,
    pub page_format: bool,
    pub self_test: bool,
    pub scsi_target_device_offline: bool,
    pub unit_offline: bool,
    pub control: u8,
    /// The parameter list: at most 0xFFFF bytes.
    pub data_buffer: Vec<u8>,
}

impl Clone for SendDiagnosticCommand {
    /// A copy with the same options and the same bytes.
    fn clone(&self) -> (r: Self)
        ensures
            r.self_test_code == self.self_test_code,
            r.page_format == self.page_format,
            r.self_test == self.self_test,
            r.scsi_target_device_offline == self.scsi_target_device_offline,
            r.unit_offline == self.unit_offline,
            r.control == self.control,
            r.data_buffer@ == self.data_buffer@,
    {
        SendDiagnosticCommand {
            self_test_code: self.self_test_code,
            page_format: self.page_format,
            self_test: self.self_test,
            scsi_target_device_offline: self.scsi_target_device_offline,
            unit_offline: self.unit_offline,
            control: self.control,
            data_buffer: crate::command::duplicate(self.data_buffer.as_slice()),
        }
    }
}

impl SendDiagnosticCommand {
    /// A send diagnostic with every option zero and no parameter list.
    pub fn new() -> (r: Self)
        ensures
            r.self_test_code == 0,
            r.page_format == false,
            r.self_test == false,
            r.scsi_target_device_offline == false,
            r.unit_offline == false,
            r.control == 0,
            r.data_buffer@ == Seq::<u8>::empty(),
    {
        SendDiagnosticCommand {
            self_test_code: 0,
            page_format: false,
            self_test: false,
            scsi_target_device_offline: false,
            unit_offline: false,
            control: 0,
            data_buffer: Vec::new(),
        }
    }

    /// Sets the self-test code: below 0x08.
    pub fn self_test_code(&mut self, value: u8) -> (r: &mut Self)
        ensures
            *r == (SendDiagnosticCommand { self_test_code: value, ..*old(self) }),
            *final(self) == *final(r),
    {
        self.self_test_code = value;
        self
    }

    /// Sets the page format bit.
    pub fn page_format(&mut self, value: bool) -> (r: &mut Self)
        ensures
            *r == (SendDiagnosticCommand { page_format: value, ..*old(self) }),
            *final(self) == *final(r),
    {
        self.page_format = value;
        self
    }

    /// Sets the self-test bit.
    pub fn self_test(&mut self, value: bool) -> (r: &mut Self)
        ensures
            *r == (SendDiagnosticCommand { self_test: value, ..*old(self) }),
            *final(self) == *final(r),
    {
        self.self_test = value;
        self
    }

    /// Sets the SCSI target device offline bit.
    pub fn scsi_target_device_offline(&mut self, value: bool) -> (r: &mut Self)
        ensures
            *r == (SendDiagnosticCommand { scsi_target_device_offline: value, ..*old(self) }),
            *final(self) == *final(r),
    {
        self.scsi_target_device_offline = value;
        self
    }

    /// Sets the unit offline bit.
    pub fn unit_offline(&mut self, value: bool) -> (r: &mut Self)
        ensures
            *r == (SendDiagnosticCommand { unit_offline: value, ..*old(self) }),
            *final(self) == *final(r),
    {
        self.unit_offline = value;
        self
    }

    /// Sets the control byte.
    pub fn control(&mut self, value: u8) -> (r: &mut Self)
        ensures
            *r == (SendDiagnosticCommand { control: value, ..*old(self) }),
            *final(self) == *final(r),
    {
        self.control = value;
        self
    }

    /// Sets the parameter list: at most 0xFFFF bytes.
    pub fn parameter(&mut self, value: &[u8]) -> (r: &mut Self)
        ensures
            r.data_buffer@ == value@,
            r.self_test_code == old(self).self_test_code,
            r.page_format == old(self).page_format,
            r.self_test == old(self).self_test,
            r.scsi_target_device_offline == old(self).scsi_target_device_offline,
            r.unit_offline == old(self).unit_offline,
            r.control == old(self).control,
            *final(self) == *final(r),
    {
        self.data_buffer = crate::command::duplicate(value);
        self
    }

    /// The descriptor block of SEND DIAGNOSTIC: six bytes, with the length of
    /// the parameter list in its field.
    pub open spec fn layout(&self) -> Seq<Field> {
        seq![
            Field { width: 8, value: OPERATION_CODE as u64 },
            Field { width: 3, value: self.self_test_code as u64 },
            Field { width: 1, value: self.page_format as u64 },
            Field { width: 1, value: 0 },
            Field { width: 1, value: self.self_test as u64 },
            Field { width: 1, value: self.scsi_target_device_offline as u64 },
            Field { width: 1, value: self.unit_offline as u64 },
            Field { width: 8, value: 0 },
            Field { width: 16, value: self.data_buffer.len() as u64 },
            Field { width: 8, value: self.control as u64 },
        ]
    }

    /// The bound checks that `issue` makes, in their order.
    pub open spec fn issue_bounds(&self) -> Seq<Bound> {
        seq![
            Bound { value: self.self_test_code as u64, bits: 3, name: "self test code" },
            Bound { value: self.data_buffer.len() as u64, bits: 16, name: "parameter list length" },
        ]
    }

    /// What `issue` finds wrong with the options, if anything: the first
    /// bound that fails.
    pub open spec fn issue_check(&self) -> Option<Error> {
        match first_failure(self.issue_bounds()) {
            Some(e) => Some(e),
            None => {
                None
            },
        }
    }

    /// Checks the options and the length of the parameter list, and packs the
    /// descriptor block.
    pub fn issue(&self) -> (r: Result<ThisCommand, Error>)
        ensures
            match self.issue_check() {
                Some(e) => r == Err::<ThisCommand, Error>(e),
                None => r matches Ok(c) && c.command_buffer@ == packed(self.layout())
                    && c.data_buffer@ == self.data_buffer@,
            },
    {
        check_bounds(
            &[
                Bound { value: self.self_test_code as u64, bits: 3, name: "self test code" },
                Bound {
                    value: self.data_buffer.len() as u64,
                    bits: 16,
                    name: "parameter list length",
                },
            ],
        )?;
        reveal_with_fuel(width_upto, 11);
        let command_buffer = pack_vec::<6>(
            &[
                Field { width: 8, value: OPERATION_CODE as u64 },
                Field { width: 3, value: self.self_test_code as u64 },
                Field { width: 1, value: self.page_format as u64 },
                Field { width: 1, value: 0 },
                Field { width: 1, value: self.self_test as u64 },
                Field { width: 1, value: self.scsi_target_device_offline as u64 },
                Field { width: 1, value: self.unit_offline as u64 },
                Field { width: 8, value: 0 },
                Field { width: 16, value: self.data_buffer.len() as u64 },
                Field { width: 8, value: self.control as u64 },
            ],
        );
        Ok(
            ThisCommand {
                command_buffer,
                data_buffer: crate::command::duplicate(self.data_buffer.as_slice()),
            },
        )
    }
}

impl<H> Scsi<H> {
    /// A send diagnostic with its options at their defaults.
    pub fn send_diagnostic(&self) -> (r: SendDiagnosticCommand)
        ensures
            r.self_test_code == 0,
            r.page_format == false,
            r.self_test == false,
            r.scsi_target_device_offline == false,
            r.unit_offline == false,
            r.control == 0,
            r.data_buffer@ == Seq::<u8>::empty(),
    {
        SendDiagnosticCommand::new()
    }
}

/// A send diagnostic that passed its checks: the packed descriptor block and
/// the parameter list.
#[derive(Debug)]
pub struct ThisCommand {
    pub command_buffer: Vec<u8>,
    pub data_buffer: Vec<u8>,
}

impl Command for ThisCommand {
    type ReturnType = Result<(), Error>;

    open spec fn direction_spec(&self) -> DataDirection {
        DataDirection::ToDevice
    }

    open spec fn command_spec(&self) -> Seq<u8> {
        self.command_buffer@
    }

    open spec fn data_spec(&self) -> Seq<u8> {
        self.data_buffer@
    }

    open spec fn data_size_spec(&self) -> u32 {
        (self.data_buffer@.len() % 0x1_0000_0000) as u32
    }

    fn direction(&self) -> (r: DataDirection) {
        DataDirection::ToDevice
    }

    fn command(&self) -> (r: Vec<u8>) {
        let r = self.command_buffer.clone();
        assert(r@ =~= self.command_buffer@);
        r
    }

    fn data(&self) -> (r: Vec<u8>) {
        let r = self.data_buffer.clone();
        assert(r@ =~= self.data_buffer@);
        r
    }

    fn data_size(&self) -> (r: u32) {
        (self.data_buffer.len() as u64 % 0x1_0000_0000) as u32
    }

    /// Nothing, unless the transport or the device reported a failure.
    fn process_result(&self, result: ResultData) -> (r: Result<(), Error>)
        ensures
            match r {
                Ok(()) => result.passes(),
                Err(e) => result.checked(Err(e)),
            },
    {
        result.check_errors()
    }
}

} // verus!
