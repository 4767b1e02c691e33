//! BACKGROUND CONTROL: start or stop the advanced background operations of
//! the device.

use vstd::prelude::*;
use crate::bitfield::{pack_vec, packed, width_upto, Field};
use crate::command::{check_bounds, first_failure, Bound, Command};
use crate::data_direction::DataDirection;
use crate::error::Error;
use crate::result_data::ResultData;
use crate::scsi::Scsi;

verus! {

pub const OPERATION_CODE: u8 = 0x9E;

pub const SERVICE_ACTION: u8 = 0x15;

/// The options of a background control. They are checked when the command is
/// issued, not when they are set.
#[derive(Clone, Copy, Debug)]
pub struct BackgroundControlCommand {
    /// Zero to change nothing, one to start and two to stop the background
    /// operations that the host started. Must fit two bits.
    pub background_operation_control: u8,
    /// In units of 100 milliseconds.
    pub background_operation_time: u8,
    pub control: u8,
}

impl BackgroundControlCommand {
    /// A background control with every option zero.
    pub fn new() -> (r: Self)
        ensures
            r.background_operation_control == 0,
            r.background_operation_time == 0,
            r.control == 0,
    {
        BackgroundControlCommand {
            background_operation_control: 0,
            background_operation_time: 0,
            control: 0,
        }
    }

    /// Sets the background operation control: zero to change nothing, one to
    /// start, two to stop; below 0x04.
    pub fn background_operation_control(&mut self, value: u8) -> (r: &mut Self)
        ensures
            *r == (BackgroundControlCommand { background_operation_control: value, ..*old(self) }),
            *final(self) == *final(r),
    {
        self.background_operation_control = value;
        self
    }

    /// Sets the time that the background operations may take, in units of 100
    /// milliseconds.
    pub fn background_operation_time(&mut self, value: u8) -> (r: &mut Self)
        ensures
            *r == (BackgroundControlCommand { background_operation_time: value, ..*old(self) }),
            *final(self) == *final(r),
    {
        self.background_operation_time = value;
        self
    }

    /// Sets the control byte.
    pub fn control(&mut self, value: u8) -> (r: &mut Self)
        ensures
            *r == (BackgroundControlCommand { control: value, ..*old(self) }),
            *final(self) == *final(r),
    {
        self.control = value;
        self
    }

    /// The descriptor block of BACKGROUND CONTROL: sixteen bytes.
    pub open spec fn layout(&self) -> Seq<Field> {
        seq![
            Field { width: 8, value: OPERATION_CODE as u64 },
            Field { width: 3, value: 0 },
            Field { width: 5, value: SERVICE_ACTION as u64 },
            Field { width: 2, value: self.background_operation_control as u64 },
            Field { width: 6, value: 0 },
            Field { width: 8, value: self.background_operation_time as u64 },
            Field { width: 88, value: 0 },
            Field { width: 8, value: self.control as u64 },
        ]
    }

    /// The bound checks that `issue` makes, in their order.
    pub open spec fn issue_bounds(&self) -> Seq<Bound> {
        seq![
            Bound {
                value: self.background_operation_control as u64,
                bits: 2,
                name: "background operation control",
            },
        ]
    }

    /// What `issue` finds wrong with the options, if anything: the first
    /// bound that fails.
    pub open spec fn issue_check(&self) -> Option<Error> {
        match first_failure(self.issue_bounds()) {
            Some(e) => Some(e),
            None => {
                None
            },
        }
    }

    /// Checks the options and packs the descriptor block.
    pub fn issue(&self) -> (r: Result<ThisCommand, Error>)
        ensures
            match self.issue_check() {
                Some(e) => r == Err::<ThisCommand, Error>(e),
                None => r matches Ok(c) && c.command_buffer@ == packed(self.layout()),
            },
    {
        let bounds = [
            Bound {
                value: self.background_operation_control as u64,
                bits: 2,
                name: "background operation control",
            },
        ];
        assert(bounds@ =~= seq![
            Bound {
                value: self.background_operation_control as u64,
                bits: 2,
                name: "background operation control",
            },
        ]);
        check_bounds(&bounds)?;
        reveal_with_fuel(width_upto, 9);
        let command_buffer = pack_vec::<16>(
            &[
                Field { width: 8, value: OPERATION_CODE as u64 },
                Field { width: 3, value: 0 },
                Field { width: 5, value: SERVICE_ACTION as u64 },
                Field { width: 2, value: self.background_operation_control as u64 },
                Field { width: 6, value: 0 },
                Field { width: 8, value: self.background_operation_time as u64 },
                Field { width: 88, value: 0 },
                Field { width: 8, value: self.control as u64 },
            ],
        );
        Ok(ThisCommand { command_buffer })
    }
}

impl<H> Scsi<H> {
    /// A background control with its options at their defaults.
    pub fn background_control(&self) -> (r: BackgroundControlCommand)
        ensures
            r.background_operation_control == 0,
            r.background_operation_time == 0,
            r.control == 0,
    {
        BackgroundControlCommand::new()
    }
}

/// A background control that passed its check, packed.
#[derive(Debug)]
pub struct ThisCommand {
    pub command_buffer: Vec<u8>,
}

impl Command for ThisCommand {
    type ReturnType = Result<(), Error>;

    open spec fn direction_spec(&self) -> DataDirection {
        DataDirection::NoData
    }

    open spec fn command_spec(&self) -> Seq<u8> {
        self.command_buffer@
    }

    open spec fn data_spec(&self) -> Seq<u8> {
        Seq::<u8>::empty()
    }

    open spec fn data_size_spec(&self) -> u32 {
        0
    }

    fn direction(&self) -> (r: DataDirection) {
        DataDirection::NoData
    }

    fn command(&self) -> (r: Vec<u8>) {
        let r = self.command_buffer.clone();
        assert(r@ =~= self.command_buffer@);
        r
    }

    fn data(&self) -> (r: Vec<u8>) {
        Vec::new()
    }

    fn data_size(&self) -> (r: u32) {
        0
    }

    /// Nothing, unless the transport or the device reported a failure.
    fn process_result(&self, result: ResultData) -> (r: Result<(), Error>)
        ensures
            match r {
                Ok(()) => result.passes(),
                Err(e) => result.checked(Err(e)),
            },
    {
        result.check_errors()
    }
}

} // verus!
