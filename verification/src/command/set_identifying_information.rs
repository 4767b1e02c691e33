//! SET IDENTIFYING INFORMATION: store identifying information in the device.

use vstd::prelude::*;
use crate::bitfield::{pack_vec, packed, width_upto, Field};
use crate::command::{check_bounds, first_failure, Bound, Command};
use crate::data_direction::DataDirection;
use crate::error::Error;
use crate::result_data::ResultData;
use crate::scsi::Scsi;

verus! {

pub const OPERATION_CODE: u8 = 0xA4;

pub const SERVICE_ACTION: u8 = 0x06;

/// The options and the information of a set identifying information. They are
/// checked when the command is issued, not when they are set.
#[derive(Debug)]
pub struct SetIdentifyingInformationCommand {
    /// Must fit seven bits.
    pub information_type: u8,
    pub control: u8,
    /// The information to store.
    pub data_buffer: Vec<u8>,
}

impl Clone for SetIdentifyingInformationCommand {
    /// A copy with the same options and the same bytes.
    fn clone(&self) -> (r: Self)
        ensures
            r.information_type == self.information_type,
            r.control == self.control,
            r.data_buffer@ == self.data_buffer@,
    {
        SetIdentifyingInformationCommand {
            information_type: self.information_type,
            control: self.control,
            data_buffer: crate::command::duplicate(self.data_buffer.as_slice()),
        }
    }
}

impl SetIdentifyingInformationCommand {
    /// A set identifying information with every option zero and no information.
    pub fn new() -> (r: Self)
        ensures
            r.information_type == 0,
            r.control == 0,
            r.data_buffer@ == Seq::<u8>::empty(),
    {
        SetIdentifyingInformationCommand {
            information_type: 0,
            control: 0,
            data_buffer: Vec::new(),
        }
    }

    /// Sets the type of the information: below 0x80.
    pub fn information_type(&mut self, value: u8) -> (r: &mut Self)
        ensures
            *r == (SetIdentifyingInformationCommand { information_type: value, ..*old(self) }),
            *final(self) == *final(r),
    {
        self.information_type = value;
        self
    }

    /// Sets the control byte.
    pub fn control(&mut self, value: u8) -> (r: &mut Self)
        ensures
            *r == (SetIdentifyingInformationCommand { control: value, ..*old(self) }),
            *final(self) == *final(r),
    {
        self.control = value;
        self
    }

    /// Sets the information to store.
    pub fn parameter(&mut self, value: &[u8]) -> (r: &mut Self)
        ensures
            r.data_buffer@ == value@,
            r.information_type == old(self).information_type,
            r.control == old(self).control,
            *final(self) == *final(r),
    {
        self.data_buffer = crate::command::duplicate(value);
        self
    }

    /// The descriptor block of SET IDENTIFYING INFORMATION: twelve bytes.
    pub open spec fn layout(&self) -> Seq<Field> {
        seq![
            Field { width: 8, value: OPERATION_CODE as u64 },
            Field { width: 3, value: 0 },
            Field { width: 5, value: SERVICE_ACTION as u64 },
            Field { width: 32, value: 0 },
            Field { width: 32, value: self.data_buffer.len() as u64 },
            Field { width: 7, value: self.information_type as u64 },
            Field { width: 1, value: 0 },
            Field { width: 8, value: self.control as u64 },
        ]
    }

    /// The bound checks that `issue` makes, in their order.
    pub open spec fn issue_bounds(&self) -> Seq<Bound> {
        seq![
            Bound { value: self.information_type as u64, bits: 7, name: "information type" },
            Bound { value: self.data_buffer.len() as u64, bits: 32, name: "parameter list length" },
        ]
    }

    /// What `issue` finds wrong with the options, if anything: the first
    /// bound that fails.
    pub open spec fn issue_check(&self) -> Option<Error> {
        match first_failure(self.issue_bounds()) {
            Some(e) => Some(e),
            None => {
                None
            },
        }
    }

    /// Checks the options and the length of the information, and packs the
    /// descriptor block.
    pub fn issue(&self) -> (r: Result<ThisCommand, Error>)
        ensures
            match self.issue_check() {
                Some(e) => r == Err::<ThisCommand, Error>(e),
                None => r matches Ok(c) && c.command_buffer@ == packed(self.layout())
                    && c.data_buffer@ == self.data_buffer@,
            },
    {
        check_bounds(
            &[
                Bound { value: self.information_type as u64, bits: 7, name: "information type" },
                Bound {
                    value: self.data_buffer.len() as u64,
                    bits: 32,
                    name: "parameter list length",
                },
            ],
        )?;
        reveal_with_fuel(width_upto, 9);
        let command_buffer = pack_vec::<12>(
            &[
                Field { width: 8, value: OPERATION_CODE as u64 },
                Field { width: 3, value: 0 },
                Field { width: 5, value: SERVICE_ACTION as u64 },
                Field { width: 32, value: 0 },
                Field { width: 32, value: self.data_buffer.len() as u64 },
                Field { width: 7, value: self.information_type as u64 },
                Field { width: 1, value: 0 },
                Field { width: 8, value: self.control as u64 },
            ],
        );
        Ok(
            ThisCommand {
                command_buffer,
                data_buffer: crate::command::duplicate(self.data_buffer.as_slice()),
            },
        )
    }
}

impl<H> Scsi<H> {
    /// A set identifying information with its options at their defaults.
    pub fn set_identifying_information(&self) -> (r: SetIdentifyingInformationCommand)
        ensures
            r.information_type == 0,
            r.control == 0,
            r.data_buffer@ == Seq::<u8>::empty(),
    {
        SetIdentifyingInformationCommand::new()
    }
}

/// A set identifying information that passed its checks: the packed descriptor
/// block and the information.
#[derive(Debug)]
pub struct ThisCommand {
    pub command_buffer: Vec<u8>,
    pub data_buffer: Vec<u8>,
}

impl Command for ThisCommand {
    type ReturnType = Result<(), Error>;

    open spec fn direction_spec(&self) -> DataDirection {
        DataDirection::ToDevice
    }

    open spec fn command_spec(&self) -> Seq<u8> {
        self.command_buffer@
    }

    open spec fn data_spec(&self) -> Seq<u8> {
        self.data_buffer@
    }

    open spec fn data_size_spec(&self) -> u32 {
        (self.data_buffer@.len() % 0x1_0000_0000) as u32
    }

    fn direction(&self) -> (r: DataDirection) {
        DataDirection::ToDevice
    }

    fn command(&self) -> (r: Vec<u8>) {
        let r = self.command_buffer.clone();
        assert(r@ =~= self.command_buffer@);
        r
    }

    fn data(&self) -> (r: Vec<u8>) {
        let r = self.data_buffer.clone();
        assert(r@ =~= self.data_buffer@);
        r
    }

    fn data_size(&self) -> (r: u32) {
        (self.data_buffer.len() as u64 % 0x1_0000_0000) as u32
    }

    /// Nothing, unless the transport or the device reported a failure.
    fn process_result(&self, result: ResultData) -> (r: Result<(), Error>)
        ensures
            match r {
                Ok(()) => result.passes(),
                Err(e) => result.checked(Err(e)),
            },
    {
        result.check_errors()
    }
}

} // verus!
