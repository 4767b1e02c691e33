//! MODE SELECT (6) and (10): set mode parameters of the device.

use vstd::prelude::*;
use crate::bitfield::{pack_vec, packed, width_upto, Field};
use crate::command::{check_bounds, first_failure, Bound, Command};
use crate::data_direction::DataDirection;
use crate::error::Error;
use crate::result_data::ResultData;
use crate::scsi::Scsi;

verus! {

pub const OPERATION_CODE_6: u8 = 0x15;

pub const OPERATION_CODE_10: u8 = 0x55;

/// The options and the parameter list of a mode select. They are checked when a
/// form of the command is chosen, not when they are set.
#[derive(Debug)]
pub struct ModeSelectCommand {
    pub page_format: bool,
    /// MODE SELECT (6) only.
    pub revert_to_defaults: bool,
    pub saved_pages: bool,
    pub control: u8,
    /// The mode parameter list.
    pub data_buffer: Vec<u8>,
}

impl Clone for ModeSelectCommand {
    /// A copy with the same options and the same bytes.
    fn clone(&self) -> (r: Self)
        ensures
            r.page_format == self.page_format,
            r.revert_to_defaults == self.revert_to_defaults,
            r.saved_pages == self.saved_pages,
            r.control == self.control,
            r.data_buffer@ == self.data_buffer@,
    {
        ModeSelectCommand {
            page_format: self.page_format,
            revert_to_defaults: self.revert_to_defaults,
            saved_pages: self.saved_pages,
            control: self.control,
            data_buffer: crate::command::duplicate(self.data_buffer.as_slice()),
        }
    }
}

impl ModeSelectCommand {
    /// A mode select with every option zero and no parameter list.
    pub fn new() -> (r: Self)
        ensures
            r.page_format == false,
            r.revert_to_defaults == false,
            r.saved_pages == false,
            r.control == 0,
            r.data_buffer@ == Seq::<u8>::empty(),
    {
        ModeSelectCommand {
            page_format: false,
            revert_to_defaults: false,
            saved_pages: false,
            control: 0,
            data_buffer: Vec::new(),
        }
    }

    /// Sets the page format bit.
    pub fn page_format(&mut self, value: bool) -> (r: &mut Self)
        ensures
            *r == (ModeSelectCommand { page_format: value, ..*old(self) }),
            *final(self) == *final(r),
    {
        self.page_format = value;
        self
    }

    /// Sets the revert to defaults bit: MODE SELECT (6) only.
    pub fn revert_to_defaults(&mut self, value: bool) -> (r: &mut Self)
        ensures
            *r == (ModeSelectCommand { revert_to_defaults: value, ..*old(self) }),
            *final(self) == *final(r),
    {
        self.revert_to_defaults = value;
        self
    }

    /// Sets the saved pages bit.
    pub fn saved_pages(&mut self, value: bool) -> (r: &mut Self)
        ensures
            *r == (ModeSelectCommand { saved_pages: value, ..*old(self) }),
            *final(self) == *final(r),
    {
        self.saved_pages = value;
        self
    }

    /// Sets the control byte.
    pub fn control(&mut self, value: u8) -> (r: &mut Self)
        ensures
            *r == (ModeSelectCommand { control: value, ..*old(self) }),
            *final(self) == *final(r),
    {
        self.control = value;
        self
    }

    /// Sets the mode parameter list.
    pub fn parameter(&mut self, value: &[u8]) -> (r: &mut Self)
        ensures
            r.data_buffer@ == value@,
            r.page_format == old(self).page_format,
            r.revert_to_defaults == old(self).revert_to_defaults,
            r.saved_pages == old(self).saved_pages,
            r.control == old(self).control,
            *final(self) == *final(r),
    {
        self.data_buffer = crate::command::duplicate(value);
        self
    }

    /// The bound checks that `error_check` makes, in their order.
    pub open spec fn error_check_bounds(&self, parameter_length_bits: u32) -> Seq<Bound> {
        seq![
            Bound {
                value: self.data_buffer.len() as u64,
                bits: parameter_length_bits,
                name: "parameter length",
            },
        ]
    }

    /// What `error_check` finds wrong, if anything: the first bound that fails;
    /// else the first condition that refuses.
    pub open spec fn error_check_spec(
        &self,
        parameter_length_bits: u32,
        allow_revert_to_defaults: bool,
    ) -> Option<Error> {
        match first_failure(self.error_check_bounds(parameter_length_bits)) {
            Some(e) => Some(e),
            None => if !allow_revert_to_defaults && self.revert_to_defaults {
                Some(Error::BadArgument("revert to defaults is not allowed here"))
            } else {
                None
            },
        }
    }

    /// Checks the options and the length of the parameter list against one form
    /// of the command.
    pub fn error_check(
        &self,
        parameter_length_bits: u32,
        allow_revert_to_defaults: bool,
    ) -> (r: Result<(), Error>)
        ensures
            match self.error_check_spec(parameter_length_bits, allow_revert_to_defaults) {
                Some(e) => r == Err::<(), Error>(e),
                None => r is Ok,
            },
    {
        let bounds = [
            Bound {
                value: self.data_buffer.len() as u64,
                bits: parameter_length_bits,
                name: "parameter length",
            },
        ];
        assert(bounds@ =~= seq![
            Bound {
                value: self.data_buffer.len() as u64,
                bits: parameter_length_bits,
                name: "parameter length",
            },
        ]);
        check_bounds(&bounds)?;
        if !allow_revert_to_defaults && self.revert_to_defaults {
            return Err(Error::BadArgument("revert to defaults is not allowed here"));
        }
        Ok(())
    }

    /// The descriptor block of MODE SELECT (6): six bytes.
    pub open spec fn layout_6(&self) -> Seq<Field> {
        seq![
            Field { width: 8, value: OPERATION_CODE_6 as u64 },
            Field { width: 3, value: 0 },
            Field { width: 1, value: self.page_format as u64 },
            Field { width: 2, value: 0 },
            Field { width: 1, value: self.revert_to_defaults as u64 },
            Field { width: 1, value: self.saved_pages as u64 },
            Field { width: 16, value: 0 },
            Field { width: 8, value: self.data_buffer.len() as u64 },
            Field { width: 8, value: self.control as u64 },
        ]
    }

    /// The descriptor block of MODE SELECT (10): ten bytes.
    pub open spec fn layout_10(&self) -> Seq<Field> {
        seq![
            Field { width: 8, value: OPERATION_CODE_10 as u64 },
            Field { width: 3, value: 0 },
            Field { width: 1, value: self.page_format as u64 },
            Field { width: 3, value: 0 },
            Field { width: 1, value: self.saved_pages as u64 },
            Field { width: 40, value: 0 },
            Field { width: 16, value: self.data_buffer.len() as u64 },
            Field { width: 8, value: self.control as u64 },
        ]
    }

    /// Checks the options against MODE SELECT (6) and packs its descriptor
    /// block.
    pub fn issue_6(&self) -> (r: Result<ThisCommand, Error>)
        ensures
            match self.error_check_spec(8, true) {
                Some(e) => r == Err::<ThisCommand, Error>(e),
                None => r matches Ok(c) && c.command_buffer@ == packed(self.layout_6())
                    && c.data_buffer@ == self.data_buffer@,
            },
    {
        self.error_check(8, true)?;
        reveal_with_fuel(width_upto, 10);
        let command_buffer = pack_vec::<6>(
            &[
                Field { width: 8, value: OPERATION_CODE_6 as u64 },
                Field { width: 3, value: 0 },
                Field { width: 1, value: self.page_format as u64 },
                Field { width: 2, value: 0 },
                Field { width: 1, value: self.revert_to_defaults as u64 },
                Field { width: 1, value: self.saved_pages as u64 },
                Field { width: 16, value: 0 },
                Field { width: 8, value: self.data_buffer.len() as u64 },
                Field { width: 8, value: self.control as u64 },
            ],
        );
        Ok(
            ThisCommand {
                command_buffer,
                data_buffer: crate::command::duplicate(self.data_buffer.as_slice()),
            },
        )
    }

    /// Checks the options against MODE SELECT (10) and packs its descriptor
    /// block.
    pub fn issue_10(&self) -> (r: Result<ThisCommand, Error>)
        ensures
            match self.error_check_spec(16, false) {
                Some(e) => r == Err::<ThisCommand, Error>(e),
                None => r matches Ok(c) && c.command_buffer@ == packed(self.layout_10())
                    && c.data_buffer@ == self.data_buffer@,
            },
    {
        self.error_check(16, false)?;
        reveal_with_fuel(width_upto, 9);
        let command_buffer = pack_vec::<10>(
            &[
                Field { width: 8, value: OPERATION_CODE_10 as u64 },
                Field { width: 3, value: 0 },
                Field { width: 1, value: self.page_format as u64 },
                Field { width: 3, value: 0 },
                Field { width: 1, value: self.saved_pages as u64 },
                Field { width: 40, value: 0 },
                Field { width: 16, value: self.data_buffer.len() as u64 },
                Field { width: 8, value: self.control as u64 },
            ],
        );
        Ok(
            ThisCommand {
                command_buffer,
                data_buffer: crate::command::duplicate(self.data_buffer.as_slice()),
            },
        )
    }
}

impl<H> Scsi<H> {
    /// A mode select with its options at their defaults.
    pub fn mode_select(&self) -> (r: ModeSelectCommand)
        ensures
            r.page_format == false,
            r.revert_to_defaults == false,
            r.saved_pages == false,
            r.control == 0,
            r.data_buffer@ == Seq::<u8>::empty(),
    {
        ModeSelectCommand::new()
    }
}

/// A mode select that passed its checks: the packed descriptor block and the
/// parameter list.
#[derive(Debug)]
pub struct ThisCommand {
    pub command_buffer: Vec<u8>,
    pub data_buffer: Vec<u8>,
}

impl Command for ThisCommand {
    type ReturnType = Result<(), Error>;

    open spec fn direction_spec(&self) -> DataDirection {
        DataDirection::ToDevice
    }

    open spec fn command_spec(&self) -> Seq<u8> {
        self.command_buffer@
    }

    open spec fn data_spec(&self) -> Seq<u8> {
        self.data_buffer@
    }

    open spec fn data_size_spec(&self) -> u32 {
        (self.data_buffer@.len() % 0x1_0000_0000) as u32
    }

    fn direction(&self) -> (r: DataDirection) {
        DataDirection::ToDevice
    }

    fn command(&self) -> (r: Vec<u8>) {
        let r = self.command_buffer.clone();
        assert(r@ =~= self.command_buffer@);
        r
    }

    fn data(&self) -> (r: Vec<u8>) {
        let r = self.data_buffer.clone();
        assert(r@ =~= self.data_buffer@);
        r
    }

    fn data_size(&self) -> (r: u32) {
        (self.data_buffer.len() as u64 % 0x1_0000_0000) as u32
    }

    /// Nothing, unless the transport or the device reported a failure.
    fn process_result(&self, result: ResultData) -> (r: Result<(), Error>)
        ensures
            match r {
                Ok(()) => result.passes(),
                Err(e) => result.checked(Err(e)),
            },
    {
        result.check_errors()
    }
}

} // verus!
