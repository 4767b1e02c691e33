//! REPORT SUPPORTED OPERATION CODES: ask which commands the device supports.

use vstd::prelude::*;
use crate::bitfield::{
    field_value, get_flag, get_u16, get_u32, get_u8, pack_vec, packed, width_upto, zeros, Field,
};
use crate::command::{
    after, check_bounds, chunk, first_failure, get_array, zeroed, Bound, Command,
};
use crate::data_direction::DataDirection;
use crate::error::Error;
use crate::result_data::ResultData;
use crate::scsi::Scsi;

verus! {

pub const OPERATION_CODE: u8 = 0xA3;

pub const SERVICE_ACTION: u8 = 0x0C;

/// The options of a report supported operation codes. They are checked when the
/// command is issued, not when they are set.
#[derive(Clone, Copy, Debug)]
pub struct ReportSupportedOperationCodesCommand {
    pub return_command_timeouts_descriptor: bool,
    /// Must fit three bits.
    pub reporting_options: u8,
    pub requested_operation_code: u8,
    pub requested_service_action: u16,
    pub allocation_length: u32,
    pub control: u8,
}

impl ReportSupportedOperationCodesCommand {
    /// A report supported operation codes with every option zero.
    pub fn new() -> (r: Self)
        ensures
            r.return_command_timeouts_descriptor == false,
            r.reporting_options == 0,
            r.requested_operation_code == 0,
            r.requested_service_action == 0,
            r.allocation_length == 0,
            r.control == 0,
    {
        ReportSupportedOperationCodesCommand {
            return_command_timeouts_descriptor: false,
            reporting_options: 0,
            requested_operation_code: 0,
            requested_service_action: 0,
            allocation_length: 0,
            control: 0,
        }
    }

    /// Says whether the device is to send timeouts.
    pub fn return_command_timeouts_descriptor(&mut self, value: bool) -> (r: &mut Self)
        ensures
            *r == (ReportSupportedOperationCodesCommand {
                return_command_timeouts_descriptor: value,
                ..*old(self)
            }),
            *final(self) == *final(r),
    {
        self.return_command_timeouts_descriptor = value;
        self
    }

    /// Sets the reporting options: below 0x08.
    pub fn reporting_options(&mut self, value: u8) -> (r: &mut Self)
        ensures
            *r == (ReportSupportedOperationCodesCommand { reporting_options: value, ..*old(self) }),
            *final(self) == *final(r),
    {
        self.reporting_options = value;
        self
    }

    /// Sets the operation code that is asked about.
    pub fn requested_operation_code(&mut self, value: u8) -> (r: &mut Self)
        ensures
            *r == (ReportSupportedOperationCodesCommand {
                requested_operation_code: value,
                ..*old(self)
            }),
            *final(self) == *final(r),
    {
        self.requested_operation_code = value;
        self
    }

    /// Sets the service action that is asked about.
    pub fn requested_service_action(&mut self, value: u16) -> (r: &mut Self)
        ensures
            *r == (ReportSupportedOperationCodesCommand {
                requested_service_action: value,
                ..*old(self)
            }),
            *final(self) == *final(r),
    {
        self.requested_service_action = value;
        self
    }

    /// Sets the number of bytes to make room for.
    pub fn allocation_length(&mut self, value: u32) -> (r: &mut Self)
        ensures
            *r == (ReportSupportedOperationCodesCommand { allocation_length: value, ..*old(self) }),
            *final(self) == *final(r),
    {
        self.allocation_length = value;
        self
    }

    /// Sets the control byte.
    pub fn control(&mut self, value: u8) -> (r: &mut Self)
        ensures
            *r == (ReportSupportedOperationCodesCommand { control: value, ..*old(self) }),
            *final(self) == *final(r),
    {
        self.control = value;
        self
    }

    /// The descriptor block of REPORT SUPPORTED OPERATION CODES: twelve bytes.
    pub open spec fn layout(&self) -> Seq<Field> {
        seq![
            Field { width: 8, value: OPERATION_CODE as u64 },
            Field { width: 3, value: 0 },
            Field { width: 5, value: SERVICE_ACTION as u64 },
            Field { width: 1, value: self.return_command_timeouts_descriptor as u64 },
            Field { width: 4, value: 0 },
            Field { width: 3, value: self.reporting_options as u64 },
            Field { width: 8, value: self.requested_operation_code as u64 },
            Field { width: 16, value: self.requested_service_action as u64 },
            Field { width: 32, value: self.allocation_length as u64 },
            Field { width: 8, value: 0 },
            Field { width: 8, value: self.control as u64 },
        ]
    }

    /// The bound checks that `issue` makes, in their order.
    pub open spec fn issue_bounds(&self) -> Seq<Bound> {
        seq![
            Bound { value: self.reporting_options as u64, bits: 3, name: "reporting options" },
        ]
    }

    /// What `issue` finds wrong with the options, if anything: the first
    /// bound that fails.
    pub open spec fn issue_check(&self) -> Option<Error> {
        match first_failure(self.issue_bounds()) {
            Some(e) => Some(e),
            None => {
                None
            },
        }
    }

    /// Checks the reporting options and packs the descriptor block.
    pub fn issue(&self) -> (r: Result<ThisCommand, Error>)
        ensures
            match self.issue_check() {
                Some(e) => r == Err::<ThisCommand, Error>(e),
                None => r matches Ok(c) && c.command_buffer@ == packed(self.layout())
                    && c.reporting_options == self.reporting_options
                    && c.allocation_length == self.allocation_length,
            },
    {
        let bounds = [
            Bound { value: self.reporting_options as u64, bits: 3, name: "reporting options" },
        ];
        assert(bounds@ =~= seq![
            Bound { value: self.reporting_options as u64, bits: 3, name: "reporting options" },
        ]);
        check_bounds(&bounds)?;
        reveal_with_fuel(width_upto, 12);
        let command_buffer = pack_vec::<12>(
            &[
                Field { width: 8, value: OPERATION_CODE as u64 },
                Field { width: 3, value: 0 },
                Field { width: 5, value: SERVICE_ACTION as u64 },
                Field { width: 1, value: self.return_command_timeouts_descriptor as u64 },
                Field { width: 4, value: 0 },
                Field { width: 3, value: self.reporting_options as u64 },
                Field { width: 8, value: self.requested_operation_code as u64 },
                Field { width: 16, value: self.requested_service_action as u64 },
                Field { width: 32, value: self.allocation_length as u64 },
                Field { width: 8, value: 0 },
                Field { width: 8, value: self.control as u64 },
            ],
        );
        Ok(
            ThisCommand {
                command_buffer,
                reporting_options: self.reporting_options,
                allocation_length: self.allocation_length,
            },
        )
    }
}

impl<H> Scsi<H> {
    /// A report supported operation codes with its options at their defaults.
    pub fn report_supported_operation_codes(&self) -> (r: ReportSupportedOperationCodesCommand)
        ensures
            r.return_command_timeouts_descriptor == false,
            r.reporting_options == 0,
            r.requested_operation_code == 0,
            r.requested_service_action == 0,
            r.allocation_length == 0,
            r.control == 0,
    {
        ReportSupportedOperationCodesCommand::new()
    }
}

/// How long a command may take.
#[derive(Clone, Copy, Debug)]
pub struct TimeoutsDescriptor {
    pub command_specific: u8,
    pub nominal_command_processing_timeout: u32,
    pub recommend_command_timeout: u32,
}

impl TimeoutsDescriptor {
    /// What the twelve bytes of a command timeouts descriptor say.
    pub open spec fn parsed(data: Seq<u8>) -> TimeoutsDescriptor {
        TimeoutsDescriptor {
            command_specific: field_value(data, 24, 8) as u8,
            nominal_command_processing_timeout: field_value(data, 32, 32) as u32,
            recommend_command_timeout: field_value(data, 64, 32) as u32,
        }
    }

    /// Reads the record out of the first 12 bytes of `bytes`; missing bytes
    /// count as zero.
    pub fn from_bytes(bytes: &[u8]) -> (r: Self)
        ensures
            r == Self::parsed(chunk(bytes@, 12, 0)),
    {
        let (data, rest) = get_array::<12>(bytes);
        TimeoutsDescriptor {
            command_specific: get_u8(data.as_slice(), 24, 8),
            nominal_command_processing_timeout: get_u32(data.as_slice(), 32, 32),
            recommend_command_timeout: get_u32(data.as_slice(), 64, 32),
        }
    }
}

/// One command that the device supports.
#[derive(Clone, Copy, Debug)]
pub struct CommandDescriptor {
    pub operation_code: u8,
    /// The service action, where the command has one.
    pub service_action: Option<u16>,
    pub cdb_length: u16,
    /// The timeouts, where the device sent them.
    pub timeout_descriptor: Option<TimeoutsDescriptor>,
}

/// Whether the command descriptor at the start of `bytes` is followed by a
/// timeouts descriptor: a bit of its header says so.
pub open spec fn timeouts_follow(bytes: Seq<u8>) -> bool {
    field_value(chunk(bytes, 8, 0), 46, 1) != 0
}

/// The command descriptor at the start of `bytes`: a header of eight bytes
/// and, where the header announces one, a timeouts descriptor of twelve.
/// Missing bytes count as zero.
pub open spec fn first_descriptor(bytes: Seq<u8>) -> CommandDescriptor {
    let header = chunk(bytes, 8, 0);
    CommandDescriptor {
        operation_code: field_value(header, 0, 8) as u8,
        service_action: if field_value(header, 47, 1) != 0 {
            Some(field_value(header, 16, 16) as u16)
        } else {
            None
        },
        cdb_length: field_value(header, 48, 16) as u16,
        timeout_descriptor: if timeouts_follow(bytes) {
            Some(TimeoutsDescriptor::parsed(chunk(after(bytes, 8), 12, 0)))
        } else {
            None
        },
    }
}

/// What is left of `bytes` after the command descriptor at their start.
pub open spec fn after_first_descriptor(bytes: Seq<u8>) -> Seq<u8> {
    if timeouts_follow(bytes) {
        after(after(bytes, 8), 12)
    } else {
        after(bytes, 8)
    }
}

/// The command descriptors that `bytes` hold, one after the other.
pub open spec fn descriptors_spec(bytes: Seq<u8>) -> Seq<CommandDescriptor>
    decreases bytes.len(),
{
    if bytes.len() == 0 {
        Seq::empty()
    } else {
        seq![first_descriptor(bytes)] + descriptors_spec(after_first_descriptor(bytes))
    }
}

/// Four more than `command_data_length`, as far as thirty-two bits hold it.
pub open spec fn required_allocation_length_spec(command_data_length: u32) -> u32 {
    if command_data_length + 4 > u32::MAX {
        u32::MAX
    } else {
        (command_data_length + 4) as u32
    }
}

/// The commands that the device supports.
#[derive(Debug)]
pub struct AllCommands {
    /// The number of bytes that the whole answer takes.
    pub required_allocation_length: u32,
    pub descriptors: Vec<CommandDescriptor>,
}

impl AllCommands {
    /// The bytes of the list of descriptors in an answer: what follows the
    /// four bytes of length, as far as that length goes.
    pub open spec fn list_bytes(bytes: Seq<u8>) -> Seq<u8> {
        let declared = field_value(chunk(bytes, 4, 0), 0, 32);
        let left = after(bytes, 4);
        if declared <= left.len() {
            left.take(declared as int)
        } else {
            left
        }
    }

    /// Whether this is what `bytes` say: four bytes of length, and the
    /// command descriptors in the bytes that the length covers.
    pub open spec fn reads(&self, bytes: Seq<u8>) -> bool {
        &&& self.required_allocation_length == required_allocation_length_spec(
            field_value(chunk(bytes, 4, 0), 0, 32) as u32,
        )
        &&& self.descriptors@ == descriptors_spec(Self::list_bytes(bytes))
    }

    /// Reads the answer that lists all commands.
    pub fn from_bytes(bytes: &[u8]) -> (r: Self)
        ensures
            r.reads(bytes@),
    {
        let (header, rest) = get_array::<4>(bytes);
        let command_data_length = get_u32(header.as_slice(), 0, 32);
        let end = if command_data_length as usize <= rest.len() {
            command_data_length as usize
        } else {
            rest.len()
        };
        let list = vstd::slice::slice_subrange(rest, 0, end);
        assert(list@ =~= Self::list_bytes(bytes@));
        let mut left: &[u8] = list;
        let mut descriptors: Vec<CommandDescriptor> = Vec::new();
        assert(descriptors@ + descriptors_spec(left@) =~= descriptors_spec(list@));
        while left.len() != 0
            invariant
                descriptors@ + descriptors_spec(left@) == descriptors_spec(list@),
            decreases left@.len(),
        {
            let (descriptor_header, after_header) = get_array::<8>(left);
            let service_action = if get_flag(descriptor_header.as_slice(), 47) {
                Some(get_u16(descriptor_header.as_slice(), 16, 16))
            } else {
                None
            };
            let present = get_flag(descriptor_header.as_slice(), 46);
            let timeout_descriptor = if present {
                Some(TimeoutsDescriptor::from_bytes(after_header))
            } else {
                None
            };
            let next = if present {
                let (skipped, after_timeouts) = get_array::<12>(after_header);
                after_timeouts
            } else {
                after_header
            };
            let descriptor = CommandDescriptor {
                operation_code: get_u8(descriptor_header.as_slice(), 0, 8),
                service_action,
                cdb_length: get_u16(descriptor_header.as_slice(), 48, 16),
                timeout_descriptor,
            };
            let ghost before = descriptors@;
            descriptors.push(descriptor);
            proof {
                assert(descriptor == first_descriptor(left@));
                assert(next@ == after_first_descriptor(left@));
                assert(before.push(first_descriptor(left@)) + descriptors_spec(next@) =~= before
                    + (seq![first_descriptor(left@)] + descriptors_spec(next@)));
            }
            left = next;
        }
        assert(descriptors@ + descriptors_spec(left@) =~= descriptors@);
        AllCommands {
            required_allocation_length: if command_data_length > u32::MAX - 4 {
                u32::MAX
            } else {
                command_data_length + 4
            },
            descriptors,
        }
    }
}

/// What the device says of one command.
#[derive(Debug)]
pub struct OneCommand {
    pub support: u8,
    /// Which bits of the descriptor block the device looks at.
    pub cdb_usage_data: Vec<u8>,
    /// The timeouts, where the device sent them.
    pub timeout_descriptor: Option<TimeoutsDescriptor>,
}

impl OneCommand {
    /// The number of bytes of usage data in an answer: as many as its header
    /// declares, or all that are left where fewer are.
    pub open spec fn usage_length(bytes: Seq<u8>) -> nat {
        let declared = field_value(chunk(bytes, 4, 0), 16, 16);
        let left = after(bytes, 4).len();
        if declared <= left {
            declared
        } else {
            left
        }
    }

    /// Whether this is what `bytes` say: a header of four bytes, the usage
    /// data and, where the header announces one, a timeouts descriptor.
    /// Missing bytes count as zero.
    pub open spec fn reads(&self, bytes: Seq<u8>) -> bool {
        let header = chunk(bytes, 4, 0);
        let left = after(bytes, 4);
        &&& self.support == field_value(header, 13, 3)
        &&& self.cdb_usage_data@ == left.take(Self::usage_length(bytes) as int)
        &&& self.timeout_descriptor == (if field_value(header, 8, 1) != 0 {
            Some(
                TimeoutsDescriptor::parsed(
                    chunk(left.skip(Self::usage_length(bytes) as int), 12, 0),
                ),
            )
        } else {
            None
        })
    }

    /// Reads the answer that speaks of one command.
    pub fn from_bytes(bytes: &[u8]) -> (r: Self)
        ensures
            r.reads(bytes@),
    {
        let (header, left) = get_array::<4>(bytes);
        let declared = get_u16(header.as_slice(), 16, 16) as usize;
        let cdb_size = if declared <= left.len() {
            declared
        } else {
            left.len()
        };
        let cdb_usage_data = vstd::slice::slice_to_vec(
            vstd::slice::slice_subrange(left, 0, cdb_size),
        );
        let rest = vstd::slice::slice_subrange(left, cdb_size, left.len());
        let timeout_descriptor = if get_flag(header.as_slice(), 8) {
            Some(TimeoutsDescriptor::from_bytes(rest))
        } else {
            None
        };
        OneCommand { support: get_u8(header.as_slice(), 13, 3), cdb_usage_data, timeout_descriptor }
    }
}

/// What REPORT SUPPORTED OPERATION CODES reports, by reporting options.
#[derive(Debug)]
pub enum CommandResult {
    AllCommands(AllCommands),
    OneCommand(OneCommand),
    /// The bytes of an answer to reporting options that have no reader here.
    Other(Vec<u8>),
}

impl CommandResult {
    /// Whether this is what `bytes` say in answer to `reporting_options`: the
    /// list of all commands for zero, one command for one to three, and the
    /// bytes as they are for anything else.
    pub open spec fn reads(&self, reporting_options: u8, bytes: Seq<u8>) -> bool {
        if reporting_options == 0 {
            *self matches CommandResult::AllCommands(d) && d.reads(bytes)
        } else if reporting_options < 4 {
            *self matches CommandResult::OneCommand(d) && d.reads(bytes)
        } else {
            *self matches CommandResult::Other(d) && d@ == bytes
        }
    }
}

/// A report supported operation codes that passed its check: the packed
/// descriptor block, the reporting options, and the size of the buffer for the
/// answer.
#[derive(Debug)]
pub struct ThisCommand {
    pub command_buffer: Vec<u8>,
    pub reporting_options: u8,
    pub allocation_length: u32,
}

impl Command for ThisCommand {
    type ReturnType = Result<CommandResult, Error>;

    open spec fn direction_spec(&self) -> DataDirection {
        DataDirection::FromDevice
    }

    open spec fn command_spec(&self) -> Seq<u8> {
        self.command_buffer@
    }

    open spec fn data_spec(&self) -> Seq<u8> {
        zeros(self.allocation_length as nat)
    }

    open spec fn data_size_spec(&self) -> u32 {
        self.allocation_length
    }

    fn direction(&self) -> (r: DataDirection) {
        DataDirection::FromDevice
    }

    fn command(&self) -> (r: Vec<u8>) {
        crate::command::duplicate(self.command_buffer.as_slice())
    }

    fn data(&self) -> (r: Vec<u8>) {
        zeroed(self.allocation_length as usize)
    }

    fn data_size(&self) -> (r: u32) {
        self.allocation_length
    }

    /// What the device reports, read as the reporting options have it, unless
    /// the transport or the device reported a failure.
    fn process_result(&self, result: ResultData) -> (r: Result<CommandResult, Error>)
        ensures
            match r {
                Ok(report) => result.passes() && report.reads(
                    self.reporting_options,
                    result.data@,
                ),
                Err(e) => result.checked(Err(e)),
            },
    {
        result.check_errors()?;
        if self.reporting_options == 0 {
            Ok(CommandResult::AllCommands(AllCommands::from_bytes(result.data.as_slice())))
        } else if self.reporting_options < 4 {
            Ok(CommandResult::OneCommand(OneCommand::from_bytes(result.data.as_slice())))
        } else {
            Ok(CommandResult::Other(result.data))
        }
    }
}

} // verus!
