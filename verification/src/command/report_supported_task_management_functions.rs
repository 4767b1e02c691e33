//! REPORT SUPPORTED TASK MANAGEMENT FUNCTIONS: ask which task management
//! functions the device supports.

use vstd::prelude::*;
use crate::bitfield::{field_value, get_flag, get_u32, pack_vec, packed, width_upto, zeros, Field};
use crate::command::{chunk, get_array, zeroed, Command};
use crate::data_direction::DataDirection;
use crate::error::Error;
use crate::result_data::ResultData;
use crate::scsi::Scsi;

verus! {

pub const OPERATION_CODE: u8 = 0xA3;

pub const SERVICE_ACTION: u8 = 0x0D;

pub const PARAMETER_DATA_LENGTH: u32 = 16;

/// The options of a report supported task management functions.
#[derive(Clone, Copy, Debug)]
pub struct ReportSupportedTaskManagementFunctionsCommand {
    pub return_extended_parameter_data: bool,
    pub control: u8,
}

impl ReportSupportedTaskManagementFunctionsCommand {
    /// A report supported task management functions with every option zero.
    pub fn new() -> (r: Self)
        ensures
            r.return_extended_parameter_data == false,
            r.control == 0,
    {
        ReportSupportedTaskManagementFunctionsCommand {
            return_extended_parameter_data: false,
            control: 0,
        }
    }

    /// Says whether the device is to send the extended parameter data, with the
    /// timeouts.
    pub fn return_extended_parameter_data(&mut self, value: bool) -> (r: &mut Self)
        ensures
            *r == (ReportSupportedTaskManagementFunctionsCommand {
                return_extended_parameter_data: value,
                ..*old(self)
            }),
            *final(self) == *final(r),
    {
        self.return_extended_parameter_data = value;
        self
    }

    /// Sets the control byte.
    pub fn control(&mut self, value: u8) -> (r: &mut Self)
        ensures
            *r == (ReportSupportedTaskManagementFunctionsCommand { control: value, ..*old(self) }),
            *final(self) == *final(r),
    {
        self.control = value;
        self
    }

    /// The descriptor block of REPORT SUPPORTED TASK MANAGEMENT FUNCTIONS:
    /// twelve bytes. It asks for the sixteen bytes of extended parameter data.
    pub open spec fn layout(&self) -> Seq<Field> {
        seq![
            Field { width: 8, value: OPERATION_CODE as u64 },
            Field { width: 3, value: 0 },
            Field { width: 5, value: SERVICE_ACTION as u64 },
            Field { width: 1, value: self.return_extended_parameter_data as u64 },
            Field { width: 31, value: 0 },
            Field { width: 32, value: PARAMETER_DATA_LENGTH as u64 },
            Field { width: 8, value: 0 },
            Field { width: 8, value: self.control as u64 },
        ]
    }

    /// Packs the descriptor block. There is nothing to check.
    pub fn issue(&self) -> (r: Result<ThisCommand, Error>)
        ensures
            r matches Ok(c) && c.command_buffer@ == packed(self.layout()),
    {
        reveal_with_fuel(width_upto, 9);
        let command_buffer = pack_vec::<12>(
            &[
                Field { width: 8, value: OPERATION_CODE as u64 },
                Field { width: 3, value: 0 },
                Field { width: 5, value: SERVICE_ACTION as u64 },
                Field { width: 1, value: self.return_extended_parameter_data as u64 },
                Field { width: 31, value: 0 },
                Field { width: 32, value: PARAMETER_DATA_LENGTH as u64 },
                Field { width: 8, value: 0 },
                Field { width: 8, value: self.control as u64 },
            ],
        );
        Ok(ThisCommand { command_buffer })
    }
}

impl<H> Scsi<H> {
    /// A report supported task management functions with its options at their
    /// defaults.
    pub fn report_supported_task_management_functions(&self) -> (r:
        ReportSupportedTaskManagementFunctionsCommand)
        ensures
            r.return_extended_parameter_data == false,
            r.control == 0,
    {
        ReportSupportedTaskManagementFunctionsCommand::new()
    }
}

/// The task management functions that the device supports, and how long they
/// may take.
#[derive(Clone, Copy, Debug)]
pub struct CommandResult {
    pub abort_task_supported: bool,
    pub abort_task_set_supported: bool,
    pub clear_aca_supported: bool,
    pub clear_task_set_supported: bool,
    pub logical_unit_reset_supported: bool,
    pub query_task_supported: bool,
    pub query_asynchronous_event_supported: bool,
    pub query_task_set_supported: bool,
    pub i_t_nexus_reset_supported: bool,
    pub task_management_function_timeouts_valid: bool,
    pub abort_task_timeout_selector: bool,
    pub abort_task_set_timeout_selector: bool,
    pub clear_aca_timeout_selector: bool,
    pub clear_task_set_timeout_selector: bool,
    pub logical_unit_reset_timeout_selector: bool,
    pub query_task_timeout_selector: bool,
    pub query_asynchronous_event_timeout_selector: bool,
    pub query_task_set_timeout_selector: bool,
    pub i_t_nexus_reset_timeout_selector: bool,
    pub task_management_functions_long_timeout: u32,
    pub task_management_functions_short_timeout: u32,
}

impl CommandResult {
    /// What the sixteen bytes of extended parameter data say.
    pub open spec fn parsed(data: Seq<u8>) -> CommandResult {
        CommandResult {
            abort_task_supported: field_value(data, 0, 1) != 0,
            abort_task_set_supported: field_value(data, 1, 1) != 0,
            clear_aca_supported: field_value(data, 2, 1) != 0,
            clear_task_set_supported: field_value(data, 3, 1) != 0,
            logical_unit_reset_supported: field_value(data, 4, 1) != 0,
            query_task_supported: field_value(data, 5, 1) != 0,
            query_asynchronous_event_supported: field_value(data, 13, 1) != 0,
            query_task_set_supported: field_value(data, 14, 1) != 0,
            i_t_nexus_reset_supported: field_value(data, 15, 1) != 0,
            task_management_function_timeouts_valid: field_value(data, 39, 1) != 0,
            abort_task_timeout_selector: field_value(data, 48, 1) != 0,
            abort_task_set_timeout_selector: field_value(data, 49, 1) != 0,
            clear_aca_timeout_selector: field_value(data, 50, 1) != 0,
            clear_task_set_timeout_selector: field_value(data, 51, 1) != 0,
            logical_unit_reset_timeout_selector: field_value(data, 52, 1) != 0,
            query_task_timeout_selector: field_value(data, 53, 1) != 0,
            query_asynchronous_event_timeout_selector: field_value(data, 61, 1) != 0,
            query_task_set_timeout_selector: field_value(data, 62, 1) != 0,
            i_t_nexus_reset_timeout_selector: field_value(data, 63, 1) != 0,
            task_management_functions_long_timeout: field_value(data, 64, 32) as u32,
            task_management_functions_short_timeout: field_value(data, 96, 32) as u32,
        }
    }

    /// Reads the record out of the first 16 bytes of `bytes`; missing bytes
    /// count as zero.
    pub fn from_bytes(bytes: &[u8]) -> (r: Self)
        ensures
            r == Self::parsed(chunk(bytes@, 16, 0)),
    {
        let (data, rest) = get_array::<16>(bytes);
        CommandResult {
            abort_task_supported: get_flag(data.as_slice(), 0),
            abort_task_set_supported: get_flag(data.as_slice(), 1),
            clear_aca_supported: get_flag(data.as_slice(), 2),
            clear_task_set_supported: get_flag(data.as_slice(), 3),
            logical_unit_reset_supported: get_flag(data.as_slice(), 4),
            query_task_supported: get_flag(data.as_slice(), 5),
            query_asynchronous_event_supported: get_flag(data.as_slice(), 13),
            query_task_set_supported: get_flag(data.as_slice(), 14),
            i_t_nexus_reset_supported: get_flag(data.as_slice(), 15),
            task_management_function_timeouts_valid: get_flag(data.as_slice(), 39),
            abort_task_timeout_selector: get_flag(data.as_slice(), 48),
            abort_task_set_timeout_selector: get_flag(data.as_slice(), 49),
            clear_aca_timeout_selector: get_flag(data.as_slice(), 50),
            clear_task_set_timeout_selector: get_flag(data.as_slice(), 51),
            logical_unit_reset_timeout_selector: get_flag(data.as_slice(), 52),
            query_task_timeout_selector: get_flag(data.as_slice(), 53),
            query_asynchronous_event_timeout_selector: get_flag(data.as_slice(), 61),
            query_task_set_timeout_selector: get_flag(data.as_slice(), 62),
            i_t_nexus_reset_timeout_selector: get_flag(data.as_slice(), 63),
            task_management_functions_long_timeout: get_u32(data.as_slice(), 64, 32),
            task_management_functions_short_timeout: get_u32(data.as_slice(), 96, 32),
        }
    }
}

/// A report supported task management functions, packed.
#[derive(Debug)]
pub struct ThisCommand {
    pub command_buffer: Vec<u8>,
}

impl Command for ThisCommand {
    type ReturnType = Result<CommandResult, Error>;

    open spec fn direction_spec(&self) -> DataDirection {
        DataDirection::FromDevice
    }

    open spec fn command_spec(&self) -> Seq<u8> {
        self.command_buffer@
    }

    open spec fn data_spec(&self) -> Seq<u8> {
        zeros(PARAMETER_DATA_LENGTH as nat)
    }

    open spec fn data_size_spec(&self) -> u32 {
        PARAMETER_DATA_LENGTH
    }

    fn direction(&self) -> (r: DataDirection) {
        DataDirection::FromDevice
    }

    fn command(&self) -> (r: Vec<u8>) {
        crate::command::duplicate(self.command_buffer.as_slice())
    }

    fn data(&self) -> (r: Vec<u8>) {
        zeroed(PARAMETER_DATA_LENGTH as usize)
    }

    fn data_size(&self) -> (r: u32) {
        PARAMETER_DATA_LENGTH
    }

    /// What the device supports, read out of the first sixteen bytes that came
    /// back (missing bytes count as zero), unless the transport or the device
    /// reported a failure.
    fn process_result(&self, result: ResultData) -> (r: Result<CommandResult, Error>)
        ensures
            match r {
                Ok(report) => result.passes() && report == CommandResult::parsed(
                    chunk(result.data@, 16, 0),
                ),
                Err(e) => result.checked(Err(e)),
            },
    {
        result.check_errors()?;
        Ok(CommandResult::from_bytes(result.data.as_slice()))
    }
}

} // verus!
