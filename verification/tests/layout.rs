//! The size of every record that travels: descriptor blocks, parameter list
//! headers and descriptors, and the fixed parts of what devices send back.

use scsir::command::ata::AtaPassThroughCommand;
use scsir::command::background_control::BackgroundControlCommand;
use scsir::command::format_unit::{
    BytesFromIndexFormatAddressDescriptor, ExtendedBytesFromIndexAddressDescriptor,
    ExtendedPhysicalSectorAddressDescriptor, FormatUnitCommand,
    InitializationPatternDescriptorHeader, LongBlockFormatAddressDescriptor,
    LongParameterListHeader, PhysicalSectorFormatAddressDescriptor,
    ShortBlockFormatAddressDescriptor,
};
use scsir::command::get_lba_status::GetLbaStatusCommand;
use scsir::command::inquiry::InquiryCommand;
use scsir::command::log_select::LogSelectCommand;
use scsir::command::log_sense::LogSenseCommand;
use scsir::command::mode_select::ModeSelectCommand;
use scsir::command::mode_sense::ModeSenseCommand;
use scsir::command::persistent_reserve_in::{
    PersistentReserveInCommand, ReadFullStatusData, ReadReservationData, ReportCapabilitiesData,
};
use scsir::command::persistent_reserve_out::{
    BasicParameterHeader, PersistentReserveOutCommand, RegisterAndMoveParameterHeader,
};
use scsir::command::read::ReadCommand;
use scsir::command::read_buffer::ReadBufferCommand;
use scsir::command::read_capacity::ReadCapacityCommand;
use scsir::command::read_defect_data::ReadDefectDataCommand;
use scsir::command::reassign_blocks::ReassignBlocksCommand;
use scsir::command::receive_diagnostic_results::ReceiveDiagnosticResultsCommand;
use scsir::command::report_identifying_information::ReportIdentifyingInformationCommand;
use scsir::command::report_luns::ReportLunsCommand;
use scsir::command::report_supported_operation_codes::{
    AllCommands, OneCommand, ReportSupportedOperationCodesCommand,
};
use scsir::command::report_supported_task_management_functions::ReportSupportedTaskManagementFunctionsCommand;
use scsir::command::report_timestamp::ReportTimestampCommand;
use scsir::command::request_sense::RequestSenseCommand;
use scsir::command::sanitize::{OverwriteParameterListHeader, SanitizeCommand};
use scsir::command::security_protocol_in::SecurityProtocolInCommand;
use scsir::command::security_protocol_out::SecurityProtocolOutCommand;
use scsir::command::send_diagnostic::SendDiagnosticCommand;
use scsir::command::set_identifying_information::SetIdentifyingInformationCommand;
use scsir::command::set_timestamp::SetTimestampCommand;
use scsir::command::start_stop_unit::StartStopUnitCommand;
use scsir::command::stream_control::{DataBuffer, StreamControlCommand};
use scsir::command::synchronize_cache::SynchronizeCacheCommand;
use scsir::command::test_unit_ready::TestUnitReadyCommand;
use scsir::command::unmap::{UnmapBlockDescriptor, UnmapCommand, UnmapParameterHeader};
use scsir::command::write_and_verify::WriteAndVerifyCommand;
use scsir::command::write_atomic::WriteAtomicCommand;
use scsir::command::write_long::WriteLongCommand;
use scsir::command::write_same;
use scsir::command::write_stream;
use scsir::command::write_buffer;
use scsir::data_wrapper::FlexibleStruct;
use scsir::Command;

#[test]
fn ata_layout_test() {
    const COMMAND_LENGTH_12: usize = 12;
    const COMMAND_LENGTH_16: usize = 16;
    let command = AtaPassThroughCommand::new();
    assert_eq!(
        command.issue_12().unwrap().command().len(),
        COMMAND_LENGTH_12,
        "Size of: CommandBuffer12"
    );
    assert_eq!(
        command.issue_16().unwrap().command().len(),
        COMMAND_LENGTH_16,
        "Size of: CommandBuffer16"
    );
}

#[test]
fn background_control_layout_test() {
    const COMMAND_LENGTH: usize = 16;
    assert_eq!(
        BackgroundControlCommand::new().issue().unwrap().command().len(),
        COMMAND_LENGTH,
        "Size of: CommandBuffer"
    );
}

#[test]
fn format_unit_layout_test() {
    const COMMAND_LENGTH: usize = 6;
    const SHORT_PARAMETER_LIST_HEADER_LENGTH: usize = 4;
    const LONG_PARAMETER_LIST_HEADER_LENGTH: usize = 8;
    const INITIALIZATION_PATTERN_DESCRIPTOR_HEADER_LENGTH: usize = 4;
    const SHORT_BLOCK_FORMAT_ADDRESS_DESCRIPTOR_LENGTH: usize = 4;
    const EXTENDED_BYTES_FROM_INDEX_ADDRESS_DESCRIPTOR_LENGTH: usize = 8;
    const EXTENDED_PHYSICAL_SECTOR_ADDRESS_DESCRIPTOR_LENGTH: usize = 8;
    const LONG_BLOCK_FORMAT_ADDRESS_DESCRIPTOR_LENGTH: usize = 8;
    const BYTES_FROM_INDEX_FORMAT_ADDRESS_DESCRIPTOR_LENGTH: usize = 8;
    const PHYSICAL_SECTOR_FORMAT_ADDRESS_DESCRIPTOR_LENGTH: usize = 8;

    assert_eq!(
        FormatUnitCommand::new().issue().unwrap().command().len(),
        COMMAND_LENGTH,
        "Size of: CommandBuffer"
    );
    assert_eq!(
        LongParameterListHeader::new().to_short_bytes().len(),
        SHORT_PARAMETER_LIST_HEADER_LENGTH,
        "Size of: ShortParameterListHeader"
    );
    assert_eq!(
        LongParameterListHeader::new().to_bytes().len(),
        LONG_PARAMETER_LIST_HEADER_LENGTH,
        "Size of: LongParameterListHeader"
    );
    assert_eq!(
        InitializationPatternDescriptorHeader::new().to_bytes().len(),
        INITIALIZATION_PATTERN_DESCRIPTOR_HEADER_LENGTH,
        "Size of: InitializationPatternDescriptorHeader"
    );
    assert_eq!(
        ShortBlockFormatAddressDescriptor { short_block_address: 0 }.to_bytes().len(),
        SHORT_BLOCK_FORMAT_ADDRESS_DESCRIPTOR_LENGTH,
        "Size of: ShortBlockFormatAddressDescriptor"
    );
    assert_eq!(
        ExtendedBytesFromIndexAddressDescriptor {
            cylinder_number: 0,
            head_number: 0,
            multi_address_descriptor_start: false,
            bytes_from_index: 0,
        }
        .to_bytes()
        .len(),
        EXTENDED_BYTES_FROM_INDEX_ADDRESS_DESCRIPTOR_LENGTH,
        "Size of: ExtendedBytesFromIndexAddressDescriptor"
    );
    assert_eq!(
        ExtendedPhysicalSectorAddressDescriptor {
            cylinder_number: 0,
            head_number: 0,
            multi_address_descriptor_start: false,
            sector_number: 0,
        }
        .to_bytes()
        .len(),
        EXTENDED_PHYSICAL_SECTOR_ADDRESS_DESCRIPTOR_LENGTH,
        "Size of: ExtendedPhysicalSectorAddressDescriptor"
    );
    assert_eq!(
        LongBlockFormatAddressDescriptor { long_block_address: 0 }.to_bytes().len(),
        LONG_BLOCK_FORMAT_ADDRESS_DESCRIPTOR_LENGTH,
        "Size of: LongBlockFormatAddressDescriptor"
    );
    assert_eq!(
        BytesFromIndexFormatAddressDescriptor {
            cylinder_number: 0,
            head_number: 0,
            bytes_from_index: 0,
        }
        .to_bytes()
        .len(),
        BYTES_FROM_INDEX_FORMAT_ADDRESS_DESCRIPTOR_LENGTH,
        "Size of: BytesFromIndexFormatAddressDescriptor"
    );
    assert_eq!(
        PhysicalSectorFormatAddressDescriptor {
            cylinder_number: 0,
            head_number: 0,
            sector_number: 0,
        }
        .to_bytes()
        .len(),
        PHYSICAL_SECTOR_FORMAT_ADDRESS_DESCRIPTOR_LENGTH,
        "Size of: PhysicalSectorFormatAddressDescriptor"
    );
}

#[test]
fn get_lba_status_layout_test() {
    const COMMAND_LENGTH: usize = 16;
    const PARAMETER_HEADER_LENGTH: usize = 8;
    const DESCRIPTOR_LENGTH: usize = 16;

    let mut command = GetLbaStatusCommand::new();
    let empty = command.issue().unwrap();
    assert_eq!(empty.command().len(), COMMAND_LENGTH, "Size of: CommandBuffer");
    assert_eq!(
        empty.data_size() as usize,
        PARAMETER_HEADER_LENGTH,
        "Size of: ParameterHeader"
    );
    let one = command.descriptor_length(1).issue().unwrap();
    assert_eq!(
        one.data_size() as usize - PARAMETER_HEADER_LENGTH,
        DESCRIPTOR_LENGTH,
        "Size of: Descriptor"
    );
}

#[test]
fn inquiry_layout_test() {
    const COMMAND_LENGTH: usize = 6;
    assert_eq!(
        InquiryCommand::new().issue().unwrap().command().len(),
        COMMAND_LENGTH,
        "Size of: CommandBuffer"
    );
}

#[test]
fn log_select_layout_test() {
    const COMMAND_LENGTH: usize = 10;
    assert_eq!(
        LogSelectCommand::new().issue().unwrap().command().len(),
        COMMAND_LENGTH,
        "Size of: CommandBuffer"
    );
}

#[test]
fn log_sense_layout_test() {
    const COMMAND_LENGTH: usize = 10;
    assert_eq!(
        LogSenseCommand::new().issue().unwrap().command().len(),
        COMMAND_LENGTH,
        "Size of: CommandBuffer"
    );
}

#[test]
fn mode_select_layout_test() {
    const COMMAND_LENGTH_6: usize = 6;
    const COMMAND_LENGTH_10: usize = 10;
    let command = ModeSelectCommand::new();
    assert_eq!(
        command.issue_6().unwrap().command().len(),
        COMMAND_LENGTH_6,
        "Size of: CommandBuffer6"
    );
    assert_eq!(
        command.issue_10().unwrap().command().len(),
        COMMAND_LENGTH_10,
        "Size of: CommandBuffer10"
    );
}

#[test]
fn mode_sense_layout_test() {
    const COMMAND_LENGTH_6: usize = 6;
    const COMMAND_LENGTH_10: usize = 10;
    let command = ModeSenseCommand::new();
    assert_eq!(
        command.issue_6().unwrap().command().len(),
        COMMAND_LENGTH_6,
        "Size of: CommandBuffer6"
    );
    assert_eq!(
        command.issue_10().unwrap().command().len(),
        COMMAND_LENGTH_10,
        "Size of: CommandBuffer10"
    );
}

#[test]
fn persistent_reserve_in_layout_test() {
    const COMMAND_LENGTH: usize = 10;
    const READ_RESERVATION_BITFIELD_LENGTH: usize = 24;
    const REPORT_CAPABILITIES_BITFIELD_LENGTH: usize = 8;
    const READ_FULLSSTATUS_HEADER_BITFIELD_LENGTH: usize = 8;
    const READ_FULLSSTATUS_DESCRIPTOR_HEADER_BITFIELD_LENGTH: usize = 24;

    assert_eq!(
        PersistentReserveInCommand::new().issue().unwrap().command().len(),
        COMMAND_LENGTH,
        "Size of: CommandBuffer"
    );

    // The last field of the record ends with byte 21; two obsolete bytes
    // close it.
    let mut reservation = vec![0u8; READ_RESERVATION_BITFIELD_LENGTH];
    reservation[21] = 0x5A;
    let data = ReadReservationData::from_bytes(&reservation);
    assert_eq!(
        (data.reservation_scope, data.reservation_type, reservation.len()),
        (0x5, 0xA, 24),
        "Size of: ReadReservationBitfield"
    );

    // The last field of the record is the low bit of byte 5; two reserved
    // bytes close it.
    let mut capabilities = vec![0u8; REPORT_CAPABILITIES_BITFIELD_LENGTH];
    capabilities[5] = 0x01;
    let data = ReportCapabilitiesData::from_bytes(&capabilities);
    assert_eq!(
        (data.exclusive_access_all_registrants, capabilities.len()),
        (true, 8),
        "Size of: ReportCapabilitiesBitfield"
    );

    // A header and one descriptor header, and not a byte more, hold one
    // registration.
    let mut status = vec![
        0u8;
        READ_FULLSSTATUS_HEADER_BITFIELD_LENGTH
            + READ_FULLSSTATUS_DESCRIPTOR_HEADER_BITFIELD_LENGTH
    ];
    status[8 + 19] = 0x07;
    let data = ReadFullStatusData::from_bytes(&status);
    assert_eq!(data.descriptors.len(), 1, "Size of: ReadFullsstatusHeaderBitfield");
    assert_eq!(
        data.descriptors[0].relative_target_port_identifier,
        0x07,
        "Size of: ReadFullsstatusDescriptorHeaderBitfield"
    );
}

#[test]
fn persistent_reserve_out_layout_test() {
    const COMMAND_LENGTH: usize = 10;
    const BASIC_PARAMETER_HEADER_LENGTH: usize = 24;
    const REGISTER_AND_MOVE_PARAMETER_HEADER_LENGTH: usize = 24;

    assert_eq!(
        PersistentReserveOutCommand::new().issue().unwrap().command().len(),
        COMMAND_LENGTH,
        "Size of: CommandBuffer"
    );
    assert_eq!(
        BasicParameterHeader::new().to_bytes().len(),
        BASIC_PARAMETER_HEADER_LENGTH,
        "Size of: BasicParameterHeader"
    );
    assert_eq!(
        RegisterAndMoveParameterHeader::new().to_bytes().len(),
        REGISTER_AND_MOVE_PARAMETER_HEADER_LENGTH,
        "Size of: RegisterAndMoveParameterHeader"
    );
}

#[test]
fn read_layout_test() {
    const COMMAND_LENGTH_10: usize = 10;
    const COMMAND_LENGTH_12: usize = 12;
    const COMMAND_LENGTH_16: usize = 16;
    const COMMAND_LENGTH_32: usize = 32;
    let command = ReadCommand::new();
    assert_eq!(
        command.issue_10().unwrap().command().len(),
        COMMAND_LENGTH_10,
        "Size of: CommandBuffer10"
    );
    assert_eq!(
        command.issue_12().unwrap().command().len(),
        COMMAND_LENGTH_12,
        "Size of: CommandBuffer12"
    );
    assert_eq!(
        command.issue_16().unwrap().command().len(),
        COMMAND_LENGTH_16,
        "Size of: CommandBuffer16"
    );
    assert_eq!(
        command.issue_32().unwrap().command().len(),
        COMMAND_LENGTH_32,
        "Size of: CommandBuffer32"
    );
}

#[test]
fn read_buffer_layout_test() {
    const COMMAND_LENGTH_10: usize = 10;
    const COMMAND_LENGTH_16: usize = 16;
    let command = ReadBufferCommand::new();
    assert_eq!(
        command.issue_10().unwrap().command().len(),
        COMMAND_LENGTH_10,
        "Size of: CommandBuffer10"
    );
    assert_eq!(
        command.issue_16().unwrap().command().len(),
        COMMAND_LENGTH_16,
        "Size of: CommandBuffer16"
    );
}

#[test]
fn read_capacity_layout_test() {
    const COMMAND_LENGTH_10: usize = 10;
    const COMMAND_LENGTH_16: usize = 16;
    const DATA_LENGTH_10: usize = 8;
    const DATA_LENGTH_16: usize = 32;
    let command = ReadCapacityCommand::new();
    let short = command.issue_10().unwrap();
    let long = command.issue_16().unwrap();
    assert_eq!(short.command().len(), COMMAND_LENGTH_10, "Size of: CommandBuffer10");
    assert_eq!(long.command().len(), COMMAND_LENGTH_16, "Size of: CommandBuffer16");
    assert_eq!(short.data().len(), DATA_LENGTH_10, "Size of: DataBuffer10");
    assert_eq!(long.data().len(), DATA_LENGTH_16, "Size of: DataBuffer16");
}

#[test]
fn read_defect_data_layout_test() {
    const COMMAND_LENGTH_10: usize = 10;
    const COMMAND_LENGTH_12: usize = 12;
    const DATA_HEADER_LENGTH_10: usize = 4;
    const DATA_HEADER_LENGTH_12: usize = 8;
    let command = ReadDefectDataCommand::new();
    let short = command.issue_10().unwrap();
    let long = command.issue_12().unwrap();
    assert_eq!(short.command().len(), COMMAND_LENGTH_10, "Size of: CommandBuffer10");
    assert_eq!(long.command().len(), COMMAND_LENGTH_12, "Size of: CommandBuffer12");
    assert_eq!(short.data().len(), DATA_HEADER_LENGTH_10, "Size of: DataBufferHeader10");
    assert_eq!(long.data().len(), DATA_HEADER_LENGTH_12, "Size of: DataBufferHeader12");
}

#[test]
fn reassign_blocks_layout_test() {
    const COMMAND_LENGTH: usize = 6;
    assert_eq!(
        ReassignBlocksCommand::new().issue().unwrap().command().len(),
        COMMAND_LENGTH,
        "Size of: CommandBuffer"
    );
}

#[test]
fn receive_diagnostic_results_layout_test() {
    const COMMAND_LENGTH: usize = 6;
    assert_eq!(
        ReceiveDiagnosticResultsCommand::new().issue().unwrap().command().len(),
        COMMAND_LENGTH,
        "Size of: CommandBuffer"
    );
}

#[test]
fn report_identifying_information_layout_test() {
    const COMMAND_LENGTH: usize = 12;
    assert_eq!(
        ReportIdentifyingInformationCommand::new().issue().unwrap().command().len(),
        COMMAND_LENGTH,
        "Size of: CommandBuffer"
    );
}

#[test]
fn report_luns_layout_test() {
    const COMMAND_LENGTH: usize = 12;
    assert_eq!(
        ReportLunsCommand::new().issue().unwrap().command().len(),
        COMMAND_LENGTH,
        "Size of: CommandBuffer"
    );
}

#[test]
fn report_supported_operation_codes_layout_test() {
    const COMMAND_LENGTH: usize = 12;
    const ALL_COMMANDS_PARAMETER_DATA_HEADER_LENGTH: usize = 4;
    const COMMAND_DESCRIPTOR_HEADER_LENGTH: usize = 8;
    const ONE_COMMAND_PARAMETER_DATA_HEADER_LENGTH: usize = 4;
    const COMMAND_TIMEOUTS_DESCRIPTOR_LENGTH: usize = 12;

    assert_eq!(
        ReportSupportedOperationCodesCommand::new().issue().unwrap().command().len(),
        COMMAND_LENGTH,
        "Size of: CommandBuffer"
    );

    // A header that declares twenty bytes, a command descriptor that
    // announces timeouts, and the timeouts: one command, and nothing left.
    let mut all = vec![
        0u8;
        ALL_COMMANDS_PARAMETER_DATA_HEADER_LENGTH
            + COMMAND_DESCRIPTOR_HEADER_LENGTH
            + COMMAND_TIMEOUTS_DESCRIPTOR_LENGTH
    ];
    all[3] = 20;
    all[4] = 0x28;
    all[4 + 5] = 0x02;
    all[4 + 7] = 10;
    all[4 + 8 + 11] = 0x3C;
    let data = AllCommands::from_bytes(&all);
    assert_eq!(
        data.required_allocation_length as usize,
        20 + ALL_COMMANDS_PARAMETER_DATA_HEADER_LENGTH,
        "Size of: AllCommandsParameterDataHeader"
    );
    assert_eq!(
        (data.descriptors.len(), data.descriptors[0].operation_code, data.descriptors[0].cdb_length),
        (1, 0x28, 10),
        "Size of: CommandDescriptorHeader"
    );
    assert_eq!(
        data.descriptors[0].timeout_descriptor.unwrap().recommend_command_timeout,
        0x3C,
        "Size of: CommandTimeoutsDescriptor"
    );

    // A header that declares two bytes of usage data and announces timeouts.
    let mut one = vec![
        0u8;
        ONE_COMMAND_PARAMETER_DATA_HEADER_LENGTH + 2 + COMMAND_TIMEOUTS_DESCRIPTOR_LENGTH
    ];
    one[1] = 0x83;
    one[3] = 2;
    one[4] = 0x12;
    one[5] = 0xFF;
    one[6 + 3] = 0x09;
    let data = OneCommand::from_bytes(&one);
    assert_eq!(
        (data.support, data.cdb_usage_data.clone()),
        (3, vec![0x12, 0xFF]),
        "Size of: OneCommandParameterDataHeader"
    );
    assert_eq!(data.timeout_descriptor.unwrap().command_specific, 0x09);
}

#[test]
fn report_supported_task_management_functions_layout_test() {
    const COMMAND_LENGTH: usize = 12;
    const PARAMETER_LENGTH: usize = 16;
    let command = ReportSupportedTaskManagementFunctionsCommand::new().issue().unwrap();
    assert_eq!(command.command().len(), COMMAND_LENGTH, "Size of: CommandBuffer");
    assert_eq!(
        command.data().len(),
        PARAMETER_LENGTH,
        "Size of: ReportSupportedTaskManagementFunctionsExtendedParameterData"
    );
}

#[test]
fn report_timestamp_layout_test() {
    const COMMAND_LENGTH: usize = 12;
    const PARAMETER_LENGTH: usize = 12;
    let command = ReportTimestampCommand::new().issue().unwrap();
    assert_eq!(command.command().len(), COMMAND_LENGTH, "Size of: CommandBuffer");
    assert_eq!(command.data().len(), PARAMETER_LENGTH, "Size of: ReportTimestampParameterData");
}

#[test]
fn request_sense_layout_test() {
    const COMMAND_LENGTH: usize = 6;
    assert_eq!(
        RequestSenseCommand::new().issue().unwrap().command().len(),
        COMMAND_LENGTH,
        "Size of: CommandBuffer"
    );
}

#[test]
fn sanitize_layout_test() {
    const COMMAND_LENGTH: usize = 10;
    const PARAMETER_HEADER_LENGTH: usize = 4;
    assert_eq!(
        SanitizeCommand::new().issue().unwrap().command().len(),
        COMMAND_LENGTH,
        "Size of: CommandBuffer"
    );
    assert_eq!(
        OverwriteParameterListHeader {
            invert: false,
            test: 0,
            overwrite_count: 0,
            initialization_pattern_length: 0,
        }
        .to_bytes()
        .len(),
        PARAMETER_HEADER_LENGTH,
        "Size of: OverwriteParameterListHeader"
    );
}

#[test]
fn security_protocol_in_layout_test() {
    const COMMAND_LENGTH: usize = 12;
    assert_eq!(
        SecurityProtocolInCommand::new().issue().unwrap().command().len(),
        COMMAND_LENGTH,
        "Size of: CommandBuffer"
    );
}

#[test]
fn security_protocol_out_layout_test() {
    const COMMAND_LENGTH: usize = 12;
    assert_eq!(
        SecurityProtocolOutCommand::new().issue().unwrap().command().len(),
        COMMAND_LENGTH,
        "Size of: CommandBuffer"
    );
}

#[test]
fn send_diagnostic_layout_test() {
    const COMMAND_LENGTH: usize = 6;
    assert_eq!(
        SendDiagnosticCommand::new().issue().unwrap().command().len(),
        COMMAND_LENGTH,
        "Size of: CommandBuffer"
    );
}

#[test]
fn set_identifying_information_layout_test() {
    const COMMAND_LENGTH: usize = 12;
    assert_eq!(
        SetIdentifyingInformationCommand::new().issue().unwrap().command().len(),
        COMMAND_LENGTH,
        "Size of: CommandBuffer"
    );
}

#[test]
fn set_timestamp_layout_test() {
    const COMMAND_LENGTH: usize = 12;
    assert_eq!(
        SetTimestampCommand::new().issue().unwrap().command().len(),
        COMMAND_LENGTH,
        "Size of: CommandBuffer"
    );
}

#[test]
fn start_stop_unit_layout_test() {
    const COMMAND_LENGTH: usize = 6;
    assert_eq!(
        StartStopUnitCommand::new().issue().unwrap().command().len(),
        COMMAND_LENGTH,
        "Size of: CommandBuffer"
    );
}

#[test]
fn stream_control_layout_test() {
    const COMMAND_LENGTH: usize = 16;
    const DATA_LENGTH: usize = 8;
    assert_eq!(
        StreamControlCommand::new().issue().unwrap().command().len(),
        COMMAND_LENGTH,
        "Size of: CommandBuffer"
    );
    assert_eq!(DataBuffer::new().to_bytes().len(), DATA_LENGTH, "Size of: DataBuffer");
}

#[test]
fn synchronize_cache_layout_test() {
    const COMMAND_LENGTH_10: usize = 10;
    const COMMAND_LENGTH_16: usize = 16;
    let command = SynchronizeCacheCommand::new();
    assert_eq!(
        command.issue_10().unwrap().command().len(),
        COMMAND_LENGTH_10,
        "Size of: CommandBuffer10"
    );
    assert_eq!(
        command.issue_16().unwrap().command().len(),
        COMMAND_LENGTH_16,
        "Size of: CommandBuffer16"
    );
}

#[test]
fn test_unit_ready_layout_test() {
    const COMMAND_LENGTH: usize = 6;
    assert_eq!(
        TestUnitReadyCommand::new().issue().unwrap().command().len(),
        COMMAND_LENGTH,
        "Size of: CommandBuffer"
    );
}

#[test]
fn unmap_layout_test() {
    const SG_UNMAP_CMD_LEN: usize = 10;
    const SG_UNMAP_PARAMETER_1_LEN: usize = 8 + 16;
    const SG_UNMAP_PARAMETER_2_LEN: usize = 8 + 16 * 2;

    assert_eq!(
        UnmapCommand::new().issue().unwrap().command().len(),
        SG_UNMAP_CMD_LEN,
        "Size of: CommandBuffer"
    );

    let mut temp = FlexibleStruct::<[u8; 8], [u8; 16]>::new();
    let header = UnmapParameterHeader {
        unmap_block_descriptor_data_length: 0x0123,
        unmap_data_length: 0x4567,
    }
    .to_bytes();

    let block1 = UnmapBlockDescriptor {
        number_of_logical_blocks: 0x8998,
        unmap_logical_block_address: 0x7654,
    }
    .to_bytes();
    let block2 = UnmapBlockDescriptor {
        number_of_logical_blocks: 0x3210,
        unmap_logical_block_address: 0x0123,
    }
    .to_bytes();

    temp.set_body(header);

    temp.push(block1);

    assert_eq!(
        temp.total_size(),
        SG_UNMAP_PARAMETER_1_LEN,
        "Size of UnmapParameterList with 1 element"
    );

    temp.push(block2);

    assert_eq!(
        temp.total_size(),
        SG_UNMAP_PARAMETER_2_LEN,
        "Size of UnmapParameterList with 2 element"
    );

    assert_eq!(
        &temp.as_bytes()[..header.len()],
        &header,
        "UnmapParameterHeader comparation"
    );

    assert_eq!(
        &temp.as_bytes()[header.len()..header.len() + block1.len()],
        &block1,
        "UnmapBlockDescriptor 1 comparation"
    );

    assert_eq!(
        &temp.as_bytes()[header.len() + block1.len()..header.len() + block1.len() + block2.len()],
        &block2,
        "UnmapBlockDescriptor 2 comparation"
    );
}

#[test]
fn write_and_verify_layout_test() {
    const COMMAND_LENGTH_10: usize = 10;
    const COMMAND_LENGTH_12: usize = 12;
    const COMMAND_LENGTH_16: usize = 16;
    const COMMAND_LENGTH_32: usize = 32;
    let command = WriteAndVerifyCommand::new();
    assert_eq!(
        command.issue_10().unwrap().command().len(),
        COMMAND_LENGTH_10,
        "Size of: CommandBuffer10"
    );
    assert_eq!(
        command.issue_12().unwrap().command().len(),
        COMMAND_LENGTH_12,
        "Size of: CommandBuffer12"
    );
    assert_eq!(
        command.issue_16().unwrap().command().len(),
        COMMAND_LENGTH_16,
        "Size of: CommandBuffer16"
    );
    assert_eq!(
        command.issue_32().unwrap().command().len(),
        COMMAND_LENGTH_32,
        "Size of: CommandBuffer32"
    );
}

#[test]
fn write_atomic_layout_test() {
    const COMMAND_LENGTH_16: usize = 16;
    const COMMAND_LENGTH_32: usize = 32;
    let command = WriteAtomicCommand::new();
    assert_eq!(
        command.issue_16().unwrap().command().len(),
        COMMAND_LENGTH_16,
        "Size of: CommandBuffer16"
    );
    assert_eq!(
        command.issue_32().unwrap().command().len(),
        COMMAND_LENGTH_32,
        "Size of: CommandBuffer32"
    );
}

#[test]
fn write_buffer_layout_test() {
    const COMMAND_LENGTH: usize = 10;
    assert_eq!(
        write_buffer::ReadBufferCommand::new().issue().unwrap().command().len(),
        COMMAND_LENGTH,
        "Size of: CommandBuffer"
    );
}

#[test]
fn write_long_layout_test() {
    const COMMAND_LENGTH_10: usize = 10;
    const COMMAND_LENGTH_16: usize = 16;
    let command = WriteLongCommand::new();
    assert_eq!(
        command.issue_10().unwrap().command().len(),
        COMMAND_LENGTH_10,
        "Size of: CommandBuffer10"
    );
    assert_eq!(
        command.issue_16().unwrap().command().len(),
        COMMAND_LENGTH_16,
        "Size of: CommandBuffer16"
    );
}

#[test]
fn write_same_layout_test() {
    const COMMAND_LENGTH_10: usize = 10;
    const COMMAND_LENGTH_16: usize = 16;
    const COMMAND_LENGTH_32: usize = 32;
    let command = write_same::WriteSameCommand::new();
    assert_eq!(
        command.issue_10().unwrap().command().len(),
        COMMAND_LENGTH_10,
        "Size of: CommandBuffer10"
    );
    assert_eq!(
        command.issue_16().unwrap().command().len(),
        COMMAND_LENGTH_16,
        "Size of: CommandBuffer16"
    );
    assert_eq!(
        command.issue_32().unwrap().command().len(),
        COMMAND_LENGTH_32,
        "Size of: CommandBuffer32"
    );
}

#[test]
fn write_stream_layout_test() {
    const COMMAND_LENGTH_16: usize = 16;
    const COMMAND_LENGTH_32: usize = 32;
    let command = write_stream::WriteSameCommand::new();
    assert_eq!(
        command.issue_16().unwrap().command().len(),
        COMMAND_LENGTH_16,
        "Size of: CommandBuffer16"
    );
    assert_eq!(
        command.issue_32().unwrap().command().len(),
        COMMAND_LENGTH_32,
        "Size of: CommandBuffer32"
    );
}
