//! RECEIVE DIAGNOSTIC RESULTS: fetch a diagnostic page of the device.

use vstd::prelude::*;
use crate::bitfield::{pack_vec, packed, width_upto, zeros, Field};
use crate::command::{zeroed, Command};
use crate::data_direction::DataDirection;
use crate::error::Error;
use crate::result_data::ResultData;
use crate::scsi::Scsi;

verus! {

pub const OPERATION_CODE: u8 = 0x1C;

/// The options of a receive diagnostic results.
#[derive(Clone, Copy, Debug)]
pub struct ReceiveDiagnosticResultsCommand {
    /// Whether a page is asked for.
    pub page_code_valid: bool,
    /// The page that is asked for; zero where none is.
    pub page_code: u8,
    pub allocation_length: u16,
    pub control: u8,
}

impl ReceiveDiagnosticResultsCommand {
    /// A receive diagnostic results that asks for no page, into no room.
    pub fn new() -> (r: Self)
        ensures
            r.page_code_valid == false,
            r.page_code == 0,
            r.allocation_length == 0,
            r.control == 0,
    {
        ReceiveDiagnosticResultsCommand {
            page_code_valid: false,
            page_code: 0,
            allocation_length: 0,
            control: 0,
        }
    }

    /// Sets the number of bytes to make room for.
    pub fn allocation_length(&mut self, value: u16) -> (r: &mut Self)
        ensures
            *r == (ReceiveDiagnosticResultsCommand { allocation_length: value, ..*old(self) }),
            *final(self) == *final(r),
    {
        self.allocation_length = value;
        self
    }

    /// Sets the control byte.
    pub fn control(&mut self, value: u8) -> (r: &mut Self)
        ensures
            *r == (ReceiveDiagnosticResultsCommand { control: value, ..*old(self) }),
            *final(self) == *final(r),
    {
        self.control = value;
        self
    }

    /// Asks for a diagnostic page, or for the results of the last send
    /// diagnostic where `value` is `None`.
    pub fn page_code(&mut self, value: Option<u8>) -> (r: &mut Self)
        ensures
            *r == (ReceiveDiagnosticResultsCommand {
                page_code: match value {
                    Some(page) => page,
                    None => 0,
                },
                page_code_valid: value is Some,
                ..*old(self)
            }),
            *final(self) == *final(r),
    {
        match value {
            Some(page) => {
                self.page_code = page;
                self.page_code_valid = true;
            },
            None => {
                self.page_code = 0;
                self.page_code_valid = false;
            },
        }
        self
    }

    /// The descriptor block of RECEIVE DIAGNOSTIC RESULTS: six bytes.
    pub open spec fn layout(&self) -> Seq<Field> {
        seq![
            Field { width: 8, value: OPERATION_CODE as u64 },
            Field { width: 7, value: 0 },
            Field { width: 1, value: self.page_code_valid as u64 },
            Field { width: 8, value: self.page_code as u64 },
            Field { width: 16, value: self.allocation_length as u64 },
            Field { width: 8, value: self.control as u64 },
        ]
    }

    /// Packs the descriptor block. There is nothing to check.
    pub fn issue(&self) -> (r: Result<ThisCommand, Error>)
        ensures
            r matches Ok(c) && c.command_buffer@ == packed(self.layout())
                && c.allocation_length == self.allocation_length,
    {
        reveal_with_fuel(width_upto, 7);
        let command_buffer = pack_vec::<6>(
            &[
                Field { width: 8, value: OPERATION_CODE as u64 },
                Field { width: 7, value: 0 },
                Field { width: 1, value: self.page_code_valid as u64 },
                Field { width: 8, value: self.page_code as u64 },
                Field { width: 16, value: self.allocation_length as u64 },
                Field { width: 8, value: self.control as u64 },
            ],
        );
        Ok(ThisCommand { command_buffer, allocation_length: self.allocation_length as u32 })
    }
}

impl<H> Scsi<H> {
    /// A receive diagnostic results with its options at their defaults.
    pub fn receive_diagnostic_results(&self) -> (r: ReceiveDiagnosticResultsCommand)
        ensures
            r.page_code_valid == false,
            r.page_code == 0,
            r.allocation_length == 0,
            r.control == 0,
    {
        ReceiveDiagnosticResultsCommand::new()
    }
}

/// A receive diagnostic results: the packed descriptor block, and the size of
/// the buffer for the answer.
#[derive(Debug)]
pub struct ThisCommand {
    pub command_buffer: Vec<u8>,
    pub allocation_length: u32,
}

impl Command for ThisCommand {
    type ReturnType = Result<Vec<u8>, Error>;

    open spec fn direction_spec(&self) -> DataDirection {
        DataDirection::FromDevice
    }

    open spec fn command_spec(&self) -> Seq<u8> {
        self.command_buffer@
    }

    open spec fn data_spec(&self) -> Seq<u8> {
        zeros(self.allocation_length as nat)
    }

    open spec fn data_size_spec(&self) -> u32 {
        self.allocation_length
    }

    fn direction(&self) -> (r: DataDirection) {
        DataDirection::FromDevice
    }

    fn command(&self) -> (r: Vec<u8>) {
        let r = self.command_buffer.clone();
        assert(r@ =~= self.command_buffer@);
        r
    }

    fn data(&self) -> (r: Vec<u8>) {
        zeroed(self.allocation_length as usize)
    }

    fn data_size(&self) -> (r: u32) {
        self.allocation_length
    }

    /// The bytes that came back, unless the transport or the device reported a
    /// failure.
    fn process_result(&self, result: ResultData) -> (r: Result<Vec<u8>, Error>)
        ensures
            match r {
                Ok(data) => result.passes() && data == result.data,
                Err(e) => result.checked(Err(e)),
            },
    {
        result.check_errors()?;
        Ok(result.data)
    }
}

} // verus!
