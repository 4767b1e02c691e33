//! TEST UNIT READY: ask whether the device can take commands that reach the
//! medium.

use vstd::prelude::*;
use crate::bitfield::{pack_vec, packed, width_upto, Field};
use crate::command::Command;
use crate::data_direction::DataDirection;
use crate::error::Error;
use crate::result_data::ResultData;
use crate::scsi::Scsi;

verus! {

pub const OPERATION_CODE: u8 = 0x00;

/// The options of a test unit ready.
#[derive(Clone, Copy, Debug)]
pub struct TestUnitReadyCommand {
    pub control: u8,
}

impl TestUnitReadyCommand {
    /// A test unit ready with a control byte of zero.
    pub fn new() -> (r: Self)
        ensures
            r.control == 0,
    {
        TestUnitReadyCommand {
            control: 0,
        }
    }

    /// Sets the control byte.
    pub fn control(&mut self, value: u8) -> (r: &mut Self)
        ensures
            *r == (TestUnitReadyCommand { control: value, ..*old(self) }),
            *final(self) == *final(r),
    {
        self.control = value;
        self
    }

    /// The descriptor block of TEST UNIT READY: six bytes.
    pub open spec fn layout(&self) -> Seq<Field> {
        seq![
            Field { width: 8, value: OPERATION_CODE as u64 },
            Field { width: 32, value: 0 },
            Field { width: 8, value: self.control as u64 },
        ]
    }

    /// Packs the descriptor block. There is nothing to check.
    pub fn issue(&self) -> (r: Result<ThisCommand, Error>)
        ensures
            r matches Ok(c) && c.command_buffer@ == packed(self.layout()),
    {
        reveal_with_fuel(width_upto, 4);
        let command_buffer = pack_vec::<6>(
            &[
                Field { width: 8, value: OPERATION_CODE as u64 },
                Field { width: 32, value: 0 },
                Field { width: 8, value: self.control as u64 },
            ],
        );
        Ok(ThisCommand { command_buffer })
    }
}

impl<H> Scsi<H> {
    /// A test unit ready with its options at their defaults.
    pub fn test_unit_ready(&self) -> (r: TestUnitReadyCommand)
        ensures
            r.control == 0,
    {
        TestUnitReadyCommand::new()
    }
}

/// A test unit ready, packed.
#[derive(Debug)]
pub struct ThisCommand {
    pub command_buffer: Vec<u8>,
}

impl Command for ThisCommand {
    type ReturnType = Result<(), Error>;

    open spec fn direction_spec(&self) -> DataDirection {
        DataDirection::NoData
    }

    open spec fn command_spec(&self) -> Seq<u8> {
        self.command_buffer@
    }

    open spec fn data_spec(&self) -> Seq<u8> {
        Seq::<u8>::empty()
    }

    open spec fn data_size_spec(&self) -> u32 {
        0
    }

    fn direction(&self) -> (r: DataDirection) {
        DataDirection::NoData
    }

    fn command(&self) -> (r: Vec<u8>) {
        let r = self.command_buffer.clone();
        assert(r@ =~= self.command_buffer@);
        r
    }

    fn data(&self) -> (r: Vec<u8>) {
        Vec::new()
    }

    fn data_size(&self) -> (r: u32) {
        0
    }

    /// Nothing, unless the transport or the device reported a failure.
    fn process_result(&self, result: ResultData) -> (r: Result<(), Error>)
        ensures
            match r {
                Ok(()) => result.passes(),
                Err(e) => result.checked(Err(e)),
            },
    {
        result.check_errors()
    }
}

} // verus!
