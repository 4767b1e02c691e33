//! SANITIZE: have the device make all of its data unreadable.

use vstd::prelude::*;
use crate::bitfield::{pack, pack_vec, packed, width_upto, zeros, Field};
use crate::command::{check_bounds, first_failure, Bound, Command};
use crate::data_direction::DataDirection;
use crate::data_wrapper::FlexibleStruct;
use crate::error::Error;
use crate::result_data::ResultData;
use crate::scsi::Scsi;

verus! {

pub const OPERATION_CODE: u8 = 0x43;

/// The ways to sanitize.
#[derive(Clone, Copy, Debug, PartialEq, Eq, Structural)]
pub enum ServiceAction {
    Overwrite,
    BlockErase,
    CryptographicErase,
    ExitFailureMode,
}

impl ServiceAction {
    /// The code of the service action in the descriptor block.
    pub open spec fn code_spec(&self) -> u8 {
        match self {
            ServiceAction::Overwrite => 0x01,
            ServiceAction::BlockErase => 0x02,
            ServiceAction::CryptographicErase => 0x03,
            ServiceAction::ExitFailureMode => 0x1F,
        }
    }

    /// The code of the service action in the descriptor block.
    #[verifier::when_used_as_spec(code_spec)]
    pub fn code(&self) -> (r: u8)
        ensures
            r == self.code_spec(),
    {
        match self {
            ServiceAction::Overwrite => 0x01,
            ServiceAction::BlockErase => 0x02,
            ServiceAction::CryptographicErase => 0x03,
            ServiceAction::ExitFailureMode => 0x1F,
        }
    }
}

/// The header of the parameter list of an overwrite.
#[derive(Clone, Copy, Debug)]
pub struct OverwriteParameterListHeader {
    pub invert: bool,
    /// Must fit two bits.
    pub test: u8,
    /// Must fit five bits.
    pub overwrite_count: u8,
    /// The number of bytes of the pattern that follows.
    pub initialization_pattern_length: u16,
}

impl OverwriteParameterListHeader {
    /// The fields of the record in the order they travel: 4 bytes.
    pub open spec fn layout(&self) -> Seq<Field> {
        seq![
            Field { width: 1, value: self.invert as u64 },
            Field { width: 2, value: self.test as u64 },
            Field { width: 5, value: self.overwrite_count as u64 },
            Field { width: 8, value: 0 },
            Field { width: 16, value: self.initialization_pattern_length as u64 },
        ]
    }

    /// Packs the record into its 4 bytes.
    pub fn to_bytes(&self) -> (r: [u8; 4])
        ensures
            r@ == packed(self.layout()),
    {
        reveal_with_fuel(width_upto, 6);
        pack(
            &[
                Field { width: 1, value: self.invert as u64 },
                Field { width: 2, value: self.test as u64 },
                Field { width: 5, value: self.overwrite_count as u64 },
                Field { width: 8, value: 0 },
                Field { width: 16, value: self.initialization_pattern_length as u64 },
            ],
        )
    }
}

/// The options and the parameter list of a sanitize.
#[derive(Debug)]
pub struct SanitizeCommand {
    pub immediate: bool,
    pub zoned_no_reset: bool,
    pub allow_unrestricted_sanitize_exit: bool,
    pub service_action: ServiceAction,
    pub control: u8,
    /// The packed parameter list: a header of zeros until a parameter builder
    /// is done.
    pub data_buffer: Vec<u8>,
}

impl SanitizeCommand {
    /// An overwrite with every option zero and a parameter list of nothing
    /// but a header of zeros.
    pub fn new() -> (r: Self)
        ensures
            r.immediate == false,
            r.zoned_no_reset == false,
            r.allow_unrestricted_sanitize_exit == false,
            r.service_action == ServiceAction::Overwrite,
            r.control == 0,
            r.data_buffer@ == zeros(4),
    {
        SanitizeCommand {
            immediate: false,
            zoned_no_reset: false,
            allow_unrestricted_sanitize_exit: false,
            service_action: ServiceAction::Overwrite,
            control: 0,
            data_buffer: crate::command::zeroed(4),
        }
    }

    /// Sets the immediate bit.
    pub fn immediate(&mut self, value: bool) -> (r: &mut Self)
        ensures
            *r == (SanitizeCommand { immediate: value, ..*old(self) }),
            *final(self) == *final(r),
    {
        self.immediate = value;
        self
    }

    /// Sets the zoned no reset bit.
    pub fn zoned_no_reset(&mut self, value: bool) -> (r: &mut Self)
        ensures
            *r == (SanitizeCommand { zoned_no_reset: value, ..*old(self) }),
            *final(self) == *final(r),
    {
        self.zoned_no_reset = value;
        self
    }

    /// Sets the allow unrestricted sanitize exit bit.
    pub fn allow_unrestricted_sanitize_exit(&mut self, value: bool) -> (r: &mut Self)
        ensures
            *r == (SanitizeCommand { allow_unrestricted_sanitize_exit: value, ..*old(self) }),
            *final(self) == *final(r),
    {
        self.allow_unrestricted_sanitize_exit = value;
        self
    }

    /// Sets the service action of the descriptor block. The parameter list is
    /// sent whatever it is.
    pub fn service_action(&mut self, value: ServiceAction) -> (r: &mut Self)
        ensures
            *r == (SanitizeCommand { service_action: value, ..*old(self) }),
            *final(self) == *final(r),
    {
        self.service_action = value;
        self
    }

    /// Sets the control byte.
    pub fn control(&mut self, value: u8) -> (r: &mut Self)
        ensures
            *r == (SanitizeCommand { control: value, ..*old(self) }),
            *final(self) == *final(r),
    {
        self.control = value;
        self
    }

    /// Starts the parameter list of an overwrite for this command. Nothing of
    /// the command changes before the list is done.
    pub fn parameter<'a>(&'a mut self) -> (r: OverwriteParameterListBuilder<'a>)
        ensures
            *r.parent == *old(self),
            *final(r.parent) == *final(self),
            r.test == 0,
            r.overwrite_count == 0,
            r.invert == false,
            r.initialization_pattern@ == Seq::<u8>::empty(),
    {
        OverwriteParameterListBuilder {
            parent: self,
            test: 0,
            overwrite_count: 0,
            initialization_pattern: Vec::new(),
            invert: false,
        }
    }

    /// The descriptor block of SANITIZE: ten bytes. The parameter list length
    /// is the length of the parameter list, as far as sixteen bits hold it.
    pub open spec fn layout(&self) -> Seq<Field> {
        seq![
            Field { width: 8, value: OPERATION_CODE as u64 },
            Field { width: 1, value: self.immediate as u64 },
            Field { width: 1, value: self.zoned_no_reset as u64 },
            Field { width: 1, value: self.allow_unrestricted_sanitize_exit as u64 },
            Field { width: 5, value: self.service_action.code() as u64 },
            Field { width: 40, value: 0 },
            Field { width: 16, value: self.data_buffer.len() as u64 },
            Field { width: 8, value: self.control as u64 },
        ]
    }

    /// Packs the descriptor block. The parameter list was checked when its
    /// builder was done.
    pub fn issue(&self) -> (r: Result<ThisCommand, Error>)
        ensures
            r matches Ok(c) && c.command_buffer@ == packed(self.layout())
                && c.data_buffer@ == self.data_buffer@,
    {
        reveal_with_fuel(width_upto, 9);
        let command_buffer = pack_vec::<10>(
            &[
                Field { width: 8, value: OPERATION_CODE as u64 },
                Field { width: 1, value: self.immediate as u64 },
                Field { width: 1, value: self.zoned_no_reset as u64 },
                Field { width: 1, value: self.allow_unrestricted_sanitize_exit as u64 },
                Field { width: 5, value: self.service_action.code() as u64 },
                Field { width: 40, value: 0 },
                Field { width: 16, value: self.data_buffer.len() as u64 },
                Field { width: 8, value: self.control as u64 },
            ],
        );
        Ok(
            ThisCommand {
                command_buffer,
                data_buffer: crate::command::duplicate(self.data_buffer.as_slice()),
            },
        )
    }
}

/// The parameter list of an overwrite, while it is put together.
#[derive(Debug)]
pub struct OverwriteParameterListBuilder<'a> {
    pub parent: &'a mut SanitizeCommand,
    /// Must fit two bits.
    pub test: u8,
    /// Must fit five bits.
    pub overwrite_count: u8,
    /// At most 0xFFFF bytes.
    pub initialization_pattern: Vec<u8>,
    pub invert: bool,
}

impl<'a> OverwriteParameterListBuilder<'a> {
    /// Sets the invert bit.
    pub fn invert(&mut self, value: bool) -> (r: &mut Self)
        ensures
            *r == (OverwriteParameterListBuilder { invert: value, ..*old(self) }),
            *final(self) == *final(r),
    {
        self.invert = value;
        self
    }

    /// Sets the test field: below 0x04.
    pub fn test(&mut self, value: u8) -> (r: &mut Self)
        ensures
            *r == (OverwriteParameterListBuilder { test: value, ..*old(self) }),
            *final(self) == *final(r),
    {
        self.test = value;
        self
    }

    /// Sets the number of overwrite passes: below 0x20.
    pub fn overwrite_count(&mut self, value: u8) -> (r: &mut Self)
        ensures
            *r == (OverwriteParameterListBuilder { overwrite_count: value, ..*old(self) }),
            *final(self) == *final(r),
    {
        self.overwrite_count = value;
        self
    }

    /// Sets the pattern to overwrite with: at most 0xFFFF bytes.
    pub fn initialization_pattern(&mut self, value: &[u8]) -> (r: &mut Self)
        ensures
            r.initialization_pattern@ == value@,
            r.test == old(self).test,
            r.overwrite_count == old(self).overwrite_count,
            r.invert == old(self).invert,
            r.parent == old(self).parent,
            *final(self) == *final(r),
    {
        self.initialization_pattern = crate::command::duplicate(value);
        self
    }

    /// The bound checks of the list, in their order.
    pub open spec fn bounds(&self) -> Seq<Bound> {
        seq![
            Bound { value: self.test as u64, bits: 2, name: "test" },
            Bound { value: self.overwrite_count as u64, bits: 5, name: "overwrite count" },
            Bound {
                value: self.initialization_pattern.len() as u64,
                bits: 16,
                name: "initialization pattern length",
            },
        ]
    }

    /// The header of the list.
    pub open spec fn header(&self) -> OverwriteParameterListHeader {
        OverwriteParameterListHeader {
            invert: self.invert,
            test: self.test,
            overwrite_count: self.overwrite_count,
            initialization_pattern_length: self.initialization_pattern@.len() as u16,
        }
    }

    /// Checks the list and hands it to the command: the header and the
    /// pattern, packed one after the other. Where a check fails, the command
    /// stays as it was.
    pub fn done(self) -> (r: Result<&'a mut SanitizeCommand, Error>)
        ensures
            match first_failure(self.bounds()) {
                Some(e) => r matches Err(err) && err == e && *final(self.parent) == *old(
                    self.parent,
                ),
                None => r matches Ok(command) && command.data_buffer@ == packed(
                    self.header().layout(),
                ) + self.initialization_pattern@ && command.immediate == old(
                    self.parent,
                ).immediate && command.zoned_no_reset == old(self.parent).zoned_no_reset
                    && command.allow_unrestricted_sanitize_exit == old(
                    self.parent,
                ).allow_unrestricted_sanitize_exit && command.service_action == old(
                    self.parent,
                ).service_action && command.control == old(self.parent).control && *final(command)
                    == *final(self.parent),
            },
    {
        check_bounds(
            &[
                Bound { value: self.test as u64, bits: 2, name: "test" },
                Bound { value: self.overwrite_count as u64, bits: 5, name: "overwrite count" },
                Bound {
                    value: self.initialization_pattern.len() as u64,
                    bits: 16,
                    name: "initialization pattern length",
                },
            ],
        )?;
        proof {
            crate::command::lemma_first_failure_none(self.bounds(), 2);
            vstd::arithmetic::power2::lemma2_to64();
        }
        let count = self.initialization_pattern.len();
        let header = OverwriteParameterListHeader {
            invert: self.invert,
            test: self.test,
            overwrite_count: self.overwrite_count,
            initialization_pattern_length: count as u16,
        };
        assert(FlexibleStruct::<[u8; 4], u8>::start(count as int) == 4 + count * 1);
        let mut record = FlexibleStruct::<[u8; 4], u8>::with_body_capacity(header.to_bytes(),
            count);
        let mut i: usize = 0;
        while i < count
            invariant
                i <= count,
                count == self.initialization_pattern@.len(),
                record.wf(),
                record@.capacity == count,
                record@.body@ == packed(header.layout()),
                record@.elements == self.initialization_pattern@.take(i as int),
            decreases count - i,
        {
            record.push(self.initialization_pattern[i]);
            assert(self.initialization_pattern@.take(i as int).push(
                self.initialization_pattern@[i as int],
            ) =~= self.initialization_pattern@.take(i + 1));
            i = i + 1;
        }
        proof {
            assert(self.initialization_pattern@.take(count as int)
                =~= self.initialization_pattern@);
            lemma_bytes_concat(self.initialization_pattern@);
        }
        self.parent.data_buffer = crate::command::duplicate(record.as_bytes());
        Ok(self.parent)
    }
}

/// The bytes of a row of bytes are the row itself.
proof fn lemma_bytes_concat(bytes: Seq<u8>)
    ensures
        crate::data_wrapper::wire_concat(bytes) == bytes,
    decreases bytes.len(),
{
    if bytes.len() > 0 {
        lemma_bytes_concat(bytes.drop_last());
        assert(bytes.drop_last() + seq![bytes.last()] =~= bytes);
    } else {
        assert(bytes =~= Seq::<u8>::empty());
    }
}

impl<H> Scsi<H> {
    /// A sanitize with its options at their defaults.
    pub fn sanitize(&self) -> (r: SanitizeCommand)
        ensures
            r.immediate == false,
            r.zoned_no_reset == false,
            r.allow_unrestricted_sanitize_exit == false,
            r.service_action == ServiceAction::Overwrite,
            r.control == 0,
            r.data_buffer@ == zeros(4),
    {
        SanitizeCommand::new()
    }
}

/// A sanitize: the packed descriptor block and the packed parameter list.
#[derive(Debug)]
pub struct ThisCommand {
    pub command_buffer: Vec<u8>,
    pub data_buffer: Vec<u8>,
}

impl Command for ThisCommand {
    type ReturnType = Result<(), Error>;

    open spec fn direction_spec(&self) -> DataDirection {
        DataDirection::ToDevice
    }

    open spec fn command_spec(&self) -> Seq<u8> {
        self.command_buffer@
    }

    open spec fn data_spec(&self) -> Seq<u8> {
        self.data_buffer@
    }

    open spec fn data_size_spec(&self) -> u32 {
        (self.data_buffer@.len() % 0x1_0000_0000) as u32
    }

    fn direction(&self) -> (r: DataDirection) {
        DataDirection::ToDevice
    }

    fn command(&self) -> (r: Vec<u8>) {
        let r = self.command_buffer.clone();
        assert(r@ =~= self.command_buffer@);
        r
    }

    fn data(&self) -> (r: Vec<u8>) {
        let r = self.data_buffer.clone();
        assert(r@ =~= self.data_buffer@);
        r
    }

    fn data_size(&self) -> (r: u32) {
        (self.data_buffer.len() as u64 % 0x1_0000_0000) as u32
    }

    /// Nothing, unless the transport or the device reported a failure.
    fn process_result(&self, result: ResultData) -> (r: Result<(), Error>)
        ensures
            match r {
                Ok(()) => result.passes(),
                Err(e) => result.checked(Err(e)),
            },
    {
        result.check_errors()
    }
}

} // verus!
