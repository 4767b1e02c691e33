//! START STOP UNIT: change the power condition of the device, or load or
//! eject the medium.

use vstd::prelude::*;
use crate::bitfield::{pack_vec, packed, width_upto, Field};
use crate::command::{check_bounds, first_failure, Bound, Command};
use crate::data_direction::DataDirection;
use crate::error::Error;
use crate::result_data::ResultData;
use crate::scsi::Scsi;

verus! {

pub const OPERATION_CODE: u8 = 0x1B;

/// The options of a start stop unit. They are checked when the command is
/// issued, not when they are set.
#[derive(Clone, Copy, Debug)]
pub struct StartStopUnitCommand {
    pub immediate: bool,
    /// Must fit four bits.
    pub power_condition_modifer: u8,
    /// Must fit four bits.
    pub power_condition: u8,
    pub no_flush: bool,
    pub load_eject: bool,
    pub start: bool,
    pub control: u8,
}

impl StartStopUnitCommand {
    /// A start stop unit with every option zero.
    pub fn new() -> (r: Self)
        ensures
            r.immediate == false,
            r.power_condition_modifer == 0,
            r.power_condition == 0,
            r.no_flush == false,
            r.load_eject == false,
            r.start == false,
            r.control == 0,
    {
        StartStopUnitCommand {
            immediate: false,
            power_condition_modifer: 0,
            power_condition: 0,
            no_flush: false,
            load_eject: false,
            start: false,
            control: 0,
        }
    }

    /// Sets the immediate bit.
    pub fn immediate(&mut self, value: bool) -> (r: &mut Self)
        ensures
            *r == (StartStopUnitCommand { immediate: value, ..*old(self) }),
            *final(self) == *final(r),
    {
        self.immediate = value;
        self
    }

    /// Sets the power condition modifier: below 0x10.
    pub fn power_condition_modifer(&mut self, value: u8) -> (r: &mut Self)
        ensures
            *r == (StartStopUnitCommand { power_condition_modifer: value, ..*old(self) }),
            *final(self) == *final(r),
    {
        self.power_condition_modifer = value;
        self
    }

    /// Sets the power condition: below 0x10.
    pub fn power_condition(&mut self, value: u8) -> (r: &mut Self)
        ensures
            *r == (StartStopUnitCommand { power_condition: value, ..*old(self) }),
            *final(self) == *final(r),
    {
        self.power_condition = value;
        self
    }

    /// Sets the no flush bit.
    pub fn no_flush(&mut self, value: bool) -> (r: &mut Self)
        ensures
            *r == (StartStopUnitCommand { no_flush: value, ..*old(self) }),
            *final(self) == *final(r),
    {
        self.no_flush = value;
        self
    }

    /// Sets the load eject bit.
    pub fn load_eject(&mut self, value: bool) -> (r: &mut Self)
        ensures
            *r == (StartStopUnitCommand { load_eject: value, ..*old(self) }),
            *final(self) == *final(r),
    {
        self.load_eject = value;
        self
    }

    /// Sets the start bit.
    pub fn start(&mut self, value: bool) -> (r: &mut Self)
        ensures
            *r == (StartStopUnitCommand { start: value, ..*old(self) }),
            *final(self) == *final(r),
    {
        self.start = value;
        self
    }

    /// Sets the control byte.
    pub fn control(&mut self, value: u8) -> (r: &mut Self)
        ensures
            *r == (StartStopUnitCommand { control: value, ..*old(self) }),
            *final(self) == *final(r),
    {
        self.control = value;
        self
    }

    /// The descriptor block of START STOP UNIT: six bytes.
    pub open spec fn layout(&self) -> Seq<Field> {
        seq![
            Field { width: 8, value: OPERATION_CODE as u64 },
            Field { width: 7, value: 0 },
            Field { width: 1, value: self.immediate as u64 },
            Field { width: 8, value: 0 },
            Field { width: 4, value: 0 },
            Field { width: 4, value: self.power_condition_modifer as u64 },
            Field { width: 4, value: self.power_condition as u64 },
            Field { width: 1, value: 0 },
            Field { width: 1, value: self.no_flush as u64 },
            Field { width: 1, value: self.load_eject as u64 },
            Field { width: 1, value: self.start as u64 },
            Field { width: 8, value: self.control as u64 },
        ]
    }

    /// The bound checks that `issue` makes, in their order.
    pub open spec fn issue_bounds(&self) -> Seq<Bound> {
        seq![
            Bound {
                value: self.power_condition_modifer as u64,
                bits: 4,
                name: "power condition modifer",
            },
            Bound { value: self.power_condition as u64, bits: 4, name: "power condition" },
        ]
    }

    /// What `issue` finds wrong with the options, if anything: the first
    /// bound that fails.
    pub open spec fn issue_check(&self) -> Option<Error> {
        match first_failure(self.issue_bounds()) {
            Some(e) => Some(e),
            None => {
                None
            },
        }
    }

    /// Checks the options and packs the descriptor block.
    pub fn issue(&self) -> (r: Result<ThisCommand, Error>)
        ensures
            match self.issue_check() {
                Some(e) => r == Err::<ThisCommand, Error>(e),
                None => r matches Ok(c) && c.command_buffer@ == packed(self.layout()),
            },
    {
        check_bounds(
            &[
                Bound {
                    value: self.power_condition_modifer as u64,
                    bits: 4,
                    name: "power condition modifer",
                },
                Bound { value: self.power_condition as u64, bits: 4, name: "power condition" },
            ],
        )?;
        reveal_with_fuel(width_upto, 13);
        let command_buffer = pack_vec::<6>(
            &[
                Field { width: 8, value: OPERATION_CODE as u64 },
                Field { width: 7, value: 0 },
                Field { width: 1, value: self.immediate as u64 },
                Field { width: 8, value: 0 },
                Field { width: 4, value: 0 },
                Field { width: 4, value: self.power_condition_modifer as u64 },
                Field { width: 4, value: self.power_condition as u64 },
                Field { width: 1, value: 0 },
                Field { width: 1, value: self.no_flush as u64 },
                Field { width: 1, value: self.load_eject as u64 },
                Field { width: 1, value: self.start as u64 },
                Field { width: 8, value: self.control as u64 },
            ],
        );
        Ok(ThisCommand { command_buffer })
    }
}

impl<H> Scsi<H> {
    /// A start stop unit with its options at their defaults.
    pub fn start_stop_unit(&self) -> (r: StartStopUnitCommand)
        ensures
            r.immediate == false,
            r.power_condition_modifer == 0,
            r.power_condition == 0,
            r.no_flush == false,
            r.load_eject == false,
            r.start == false,
            r.control == 0,
    {
        StartStopUnitCommand::new()
    }
}

/// A start stop unit that passed its checks, packed.
#[derive(Debug)]
pub struct ThisCommand {
    pub command_buffer: Vec<u8>,
}

impl Command for ThisCommand {
    type ReturnType = Result<(), Error>;

    open spec fn direction_spec(&self) -> DataDirection {
        DataDirection::NoData
    }

    open spec fn command_spec(&self) -> Seq<u8> {
        self.command_buffer@
    }

    open spec fn data_spec(&self) -> Seq<u8> {
        Seq::<u8>::empty()
    }

    open spec fn data_size_spec(&self) -> u32 {
        0
    }

    fn direction(&self) -> (r: DataDirection) {
        DataDirection::NoData
    }

    fn command(&self) -> (r: Vec<u8>) {
        let r = self.command_buffer.clone();
        assert(r@ =~= self.command_buffer@);
        r
    }

    fn data(&self) -> (r: Vec<u8>) {
        Vec::new()
    }

    fn data_size(&self) -> (r: u32) {
        0
    }

    /// Nothing, unless the transport or the device reported a failure.
    fn process_result(&self, result: ResultData) -> (r: Result<(), Error>)
        ensures
            match r {
                Ok(()) => result.passes(),
                Err(e) => result.checked(Err(e)),
            },
    {
        result.check_errors()
    }
}

} // verus!
