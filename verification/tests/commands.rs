//! Every command: the bytes of its descriptor block and of what it sends,
//! what it makes of what comes back, and what it refuses.

use scsir::command::ata::{AtaPassThroughCommand, AtaProtocol, SatDirection};
use scsir::command::background_control::BackgroundControlCommand;
use scsir::command::format_unit::{
    BytesFromIndexFormatAddressDescriptor, DefectListItem, ExtendedBytesFromIndexAddressDescriptor,
    ExtendedPhysicalSectorAddressDescriptor, FormatUnitCommand, PhysicalSectorFormatAddressDescriptor,
};
use scsir::command::get_lba_status::{GetLbaStatusCommand, ProvisioningStatus};
use scsir::command::inquiry::InquiryCommand;
use scsir::command::log_select::LogSelectCommand;
use scsir::command::log_sense::LogSenseCommand;
use scsir::command::mode_select::ModeSelectCommand;
use scsir::command::mode_sense::{ModeSenseCommand, PageControl};
use scsir::command::persistent_reserve_in::{self, PersistentReserveInCommand};
use scsir::command::persistent_reserve_out::{self, PersistentReserveOutCommand};
use scsir::command::read::ReadCommand;
use scsir::command::read_buffer::ReadBufferCommand;
use scsir::command::read_capacity::ReadCapacityCommand;
use scsir::command::read_defect_data::{DefectList, ReadDefectDataCommand};
use scsir::command::reassign_blocks::ReassignBlocksCommand;
use scsir::command::receive_diagnostic_results::ReceiveDiagnosticResultsCommand;
use scsir::command::report_identifying_information::ReportIdentifyingInformationCommand;
use scsir::command::report_luns::ReportLunsCommand;
use scsir::command::report_supported_operation_codes::{self, ReportSupportedOperationCodesCommand};
use scsir::command::report_supported_task_management_functions::ReportSupportedTaskManagementFunctionsCommand;
use scsir::command::report_timestamp::ReportTimestampCommand;
use scsir::command::request_sense::RequestSenseCommand;
use scsir::command::sanitize::{self, SanitizeCommand};
use scsir::command::security_protocol_in::SecurityProtocolInCommand;
use scsir::command::security_protocol_out::SecurityProtocolOutCommand;
use scsir::command::send_diagnostic::SendDiagnosticCommand;
use scsir::command::set_identifying_information::SetIdentifyingInformationCommand;
use scsir::command::set_timestamp::SetTimestampCommand;
use scsir::command::start_stop_unit::StartStopUnitCommand;
use scsir::command::stream_control::StreamControlCommand;
use scsir::command::synchronize_cache::SynchronizeCacheCommand;
use scsir::command::test_unit_ready::TestUnitReadyCommand;
use scsir::command::unmap::UnmapCommand;
use scsir::command::write_and_verify::WriteAndVerifyCommand;
use scsir::command::write_atomic::WriteAtomicCommand;
use scsir::command::write_long::WriteLongCommand;
use std::marker::PhantomData;
use scsir::result_data::Status;
use scsir::command::sense::SenseData;
use scsir::{Command, DataDirection, Error, ResultData};

fn good(data: Vec<u8>) -> ResultData {
    ResultData {
        ioctl_result: 0,
        os_error: 0,
        transfered_data_length: data.len(),
        data,
        transfered_sense_length: 0,
        sense_buffer: SenseData::Absent,
        status: Status::Good,
        host_status: 0,
        driver_status: 0,
    }
}

fn transport_failure(code: i32) -> ResultData {
    let mut result = good(vec![]);
    result.ioctl_result = -1;
    result.os_error = code;
    result
}

fn device_failure() -> ResultData {
    let mut result = good(vec![]);
    result.status = Status::CheckCondition;
    result.transfered_sense_length = 2;
    result.sense_buffer = SenseData::Present(vec![0x70, 0x00]);
    result
}

fn out_of_bounds_of(error: Option<Error>) -> (&'static str, u64, u64) {
    match error {
        Some(Error::ArgumentOutOfBounds(e)) => (e.name, e.max, e.given),
        other => panic!("no bound error: {:?}", other),
    }
}

fn out_of_bounds<T>(result: Result<T, Error>) -> (&'static str, u64, u64) {
    out_of_bounds_of(result.err())
}

fn bad_argument<T>(result: Result<T, Error>) -> &'static str {
    match result.err() {
        Some(Error::BadArgument(message)) => message,
        other => panic!("no bad argument: {:?}", other),
    }
}

#[test]
fn read_10_of_eight_blocks_at_block_256() {
    let mut command = ReadCommand::new();
    command.logical_block_address(0x0000_0100).transfer_length(0x0008);
    let unit = command.issue_10().unwrap();
    assert_eq!(unit.command(), vec![0x28, 0x00, 0x00, 0x00, 0x01, 0x00, 0x00, 0x00, 0x08, 0x00]);
    assert_eq!(unit.command(), vec![0x28, 0x00, 0x00, 0x00, 0x01, 0x00, 0x00, 0x00, 0x08, 0x00]);
    assert_eq!(unit.command().len(), 10);
    assert_eq!(unit.direction(), DataDirection::FromDevice);
    assert_eq!(unit.data_size(), 8 * 512);
    assert_eq!(unit.data(), vec![0u8; 8 * 512]);
}

#[test]
fn read_10_packs_every_field() {
    let mut command = ReadCommand::new();
    command
        .control(0xC1)
        .group_number(0x1F)
        .read_protect(5)
        .disable_page_out(true)
        .force_unit_access(false)
        .rebuild_assist_recovery_control(true)
        .logical_block_address(0x0102_0304)
        .transfer_length(0x0506)
        .logical_block_size(1);
    let unit = command.issue_10().unwrap();
    assert_eq!(unit.command(), vec![0x28, 0xB4, 0x01, 0x02, 0x03, 0x04, 0x1F, 0x05, 0x06, 0xC1]);
    assert_eq!(unit.allocation_length, 0x0506);
}

#[test]
fn read_12_packs_every_field() {
    let mut command = ReadCommand::new();
    command
        .control(0x7E)
        .group_number(0x15)
        .read_protect(7)
        .force_unit_access(true)
        .logical_block_address(0xFFFF_FFFF)
        .transfer_length(0x0102_0304)
        .logical_block_size(1);
    let unit = command.issue_12().unwrap();
    assert_eq!(unit.command(), vec![0xA8, 0xE8, 0xFF, 0xFF, 0xFF, 0xFF, 0x01, 0x02, 0x03, 0x04, 0x15, 0x7E]);
}

#[test]
fn read_16_packs_every_field() {
    let mut command = ReadCommand::new();
    command
        .control(0x01)
        .group_number(0x3F)
        .read_protect(1)
        .disable_page_out(true)
        .logical_block_address(0x0102_0304_0506_0708)
        .transfer_length(0x0A0B_0C0D)
        .dld_0(true)
        .dld_1(false)
        .dld_2(true)
        .logical_block_size(1);
    let unit = command.issue_16().unwrap();
    assert_eq!(unit.command(), vec![0x88, 0x31, 0x01, 0x02, 0x03, 0x04, 0x05, 0x06, 0x07, 0x08, 0x0A, 0x0B, 0x0C, 0x0D, 0x7F, 0x01]);
}

#[test]
fn read_32_packs_every_field() {
    let mut command = ReadCommand::new();
    command
        .control(0x80)
        .group_number(0x0A)
        .read_protect(2)
        .rebuild_assist_recovery_control(true)
        .logical_block_address(0xF1F2_F3F4_F5F6_F7F8)
        .expected_initial_logical_block_reference_tag(0x1122_3344)
        .expected_logical_block_application_tag(0x5566)
        .logical_block_application_tag_mask(0x7788)
        .transfer_length(0x99AA_BBCC)
        .logical_block_size(1);
    let unit = command.issue_32().unwrap();
    assert_eq!(unit.command(), vec![0x7F, 0x80, 0x00, 0x00, 0x00, 0x00, 0x0A, 0x18, 0x00, 0x09, 0x44, 0x00, 0xF1, 0xF2, 0xF3, 0xF4, 0xF5, 0xF6, 0xF7, 0xF8, 0x11, 0x22, 0x33, 0x44, 0x55, 0x66, 0x77, 0x88, 0x99, 0xAA, 0xBB, 0xCC]);
}

#[test]
fn read_refuses_what_a_form_cannot_hold() {
    let mut command = ReadCommand::new();
    command.read_protect(8);
    assert_eq!(out_of_bounds(command.issue_10()), ("read protect", 7, 8));
    command.read_protect(7).group_number(0x20);
    assert_eq!(out_of_bounds(command.issue_10()), ("group number", 0x1F, 0x20));
    assert_eq!(out_of_bounds(command.issue_32()), ("group number", 0x1F, 0x20));
    assert!(command.issue_16().is_ok());
    command.group_number(0x40);
    assert_eq!(out_of_bounds(command.issue_16()), ("group number", 0x3F, 0x40));
    command.group_number(0).logical_block_address(0x1_0000_0000);
    assert_eq!(
        out_of_bounds(command.issue_10()),
        ("logical block address", 0xFFFF_FFFF, 0x1_0000_0000)
    );
    assert_eq!(
        out_of_bounds(command.issue_12()),
        ("logical block address", 0xFFFF_FFFF, 0x1_0000_0000)
    );
    assert!(command.issue_16().is_ok());
    command.logical_block_address(0).transfer_length(0x1_0000).logical_block_size(1);
    assert_eq!(out_of_bounds(command.issue_10()), ("transfer length", 0xFFFF, 0x1_0000));
    assert!(command.issue_12().is_ok());
    command.transfer_length(0x80_0000).logical_block_size(512);
    assert_eq!(
        out_of_bounds(command.issue_12()),
        ("total transfer bytes", 0xFFFF_FFFF, 0x1_0000_0000)
    );
    command.transfer_length(0x7F_FFFF);
    assert_eq!(command.issue_12().unwrap().allocation_length, 0xFFFF_FE00);
}

#[test]
fn read_refuses_options_of_other_forms() {
    let mut command = ReadCommand::new();
    command.dld_1(true);
    assert_eq!(bad_argument(command.issue_10()), "DLDs are not allowed here");
    assert_eq!(bad_argument(command.issue_12()), "DLDs are not allowed here");
    assert_eq!(bad_argument(command.issue_32()), "DLDs are not allowed here");
    assert!(command.issue_16().is_ok());
    command.dld_1(false).logical_block_application_tag_mask(1);
    assert_eq!(
        bad_argument(command.issue_10()),
        "expected tags and mask are not allowed here"
    );
    assert_eq!(
        bad_argument(command.issue_16()),
        "expected tags and mask are not allowed here"
    );
    assert!(command.issue_32().is_ok());
    // The bounds come first.
    command.read_protect(0xFF).dld_0(true);
    assert_eq!(out_of_bounds(command.issue_10()), ("read protect", 7, 0xFF));
}

#[test]
fn read_hands_back_the_blocks() {
    let unit = ReadCommand::new().issue_10().unwrap();
    assert_eq!(unit.process_result(good(vec![1, 2, 3])).unwrap(), vec![1, 2, 3]);
    assert!(matches!(unit.process_result(transport_failure(5)), Err(Error::Io(5))));
    assert!(matches!(
        unit.process_result(device_failure()),
        Err(Error::Sense { status: Status::CheckCondition, .. })
    ));
}

#[test]
fn test_unit_ready_packs() {
    let mut command = TestUnitReadyCommand::new();
    command.control(0xA5);
    let unit = command.issue().unwrap();
    assert_eq!(unit.command(), vec![0x00, 0x00, 0x00, 0x00, 0x00, 0xA5]);
    assert_eq!(unit.direction(), DataDirection::NoData);
    assert_eq!(unit.data_size(), 0);
    assert!(unit.data().is_empty());
    assert!(unit.process_result(good(vec![])).is_ok());
    assert!(matches!(unit.process_result(transport_failure(13)), Err(Error::Io(13))));
}

#[test]
fn start_stop_unit_packs() {
    let mut command = StartStopUnitCommand::new();
    command
        .immediate(true)
        .power_condition_modifer(0xA)
        .power_condition(0x5)
        .no_flush(true)
        .load_eject(false)
        .start(true)
        .control(0x11);
    let unit = command.issue().unwrap();
    assert_eq!(unit.command(), vec![0x1B, 0x01, 0x00, 0x0A, 0x55, 0x11]);
    command.power_condition(0x10);
    assert_eq!(out_of_bounds(command.issue()), ("power condition", 0xF, 0x10));
    command.power_condition_modifer(0x10);
    assert_eq!(out_of_bounds(command.issue()), ("power condition modifer", 0xF, 0x10));
}

#[test]
fn synchronize_cache_10_packs() {
    let mut command = SynchronizeCacheCommand::new();
    command
        .immediate(true)
        .group_number(0x1A)
        .logical_block_address(0x8070_6050)
        .number_of_blocks(0x4030)
        .control(0x20);
    let unit = command.issue_10().unwrap();
    assert_eq!(unit.command(), vec![0x35, 0x02, 0x80, 0x70, 0x60, 0x50, 0x1A, 0x40, 0x30, 0x20]);
}

#[test]
fn synchronize_cache_16_packs() {
    let mut command = SynchronizeCacheCommand::new();
    command
        .group_number(0x01)
        .logical_block_address(0x8070_6050_4030_2010)
        .number_of_blocks(0x0908_0706)
        .control(0xFF);
    let unit = command.issue_16().unwrap();
    assert_eq!(unit.command(), vec![0x91, 0x00, 0x80, 0x70, 0x60, 0x50, 0x40, 0x30, 0x20, 0x10, 0x09, 0x08, 0x07, 0x06, 0x01, 0xFF]);
    assert_eq!(
        out_of_bounds(command.issue_10()),
        ("logical block address", 0xFFFF_FFFF, 0x8070_6050_4030_2010)
    );
    command.logical_block_address(0);
    assert_eq!(out_of_bounds(command.issue_10()), ("number of blocks", 0xFFFF, 0x0908_0706));
    command.group_number(0x20);
    assert_eq!(out_of_bounds(command.issue_16()), ("group number", 0x1F, 0x20));
}

#[test]
fn send_diagnostic_packs() {
    let mut command = SendDiagnosticCommand::new();
    command
        .self_test_code(6)
        .page_format(true)
        .self_test(false)
        .scsi_target_device_offline(true)
        .unit_offline(true)
        .control(0x42)
        .parameter(&[1, 2, 3]);
    let unit = command.issue().unwrap();
    assert_eq!(unit.command(), vec![0x1D, 0xD3, 0x00, 0x00, 0x03, 0x42]);
    assert_eq!(unit.direction(), DataDirection::ToDevice);
    assert_eq!(unit.data(), vec![1, 2, 3]);
    assert_eq!(unit.data_size(), 3);
    command.self_test_code(8);
    assert_eq!(out_of_bounds(command.issue()), ("self test code", 7, 8));
    command.self_test_code(0).parameter(&vec![0u8; 0x1_0000]);
    assert_eq!(out_of_bounds(command.issue()), ("parameter list length", 0xFFFF, 0x1_0000));
}

#[test]
fn write_long_10_packs() {
    let mut command = WriteLongCommand::new();
    command.wr_uncor(true).logical_block_address(0x0A0B_0C0D).control(3).parameter(&[9; 0x0102]);
    let unit = command.issue_10().unwrap();
    assert_eq!(unit.command(), vec![0x3F, 0x40, 0x0A, 0x0B, 0x0C, 0x0D, 0x00, 0x01, 0x02, 0x03]);
    assert_eq!(unit.data(), vec![9; 0x0102]);
    command.logical_block_address(0x1_0000_0000);
    assert_eq!(
        out_of_bounds(command.issue_10()),
        ("logical block address", 0xFFFF_FFFF, 0x1_0000_0000)
    );
}

#[test]
fn write_long_16_packs() {
    let mut command = WriteLongCommand::new();
    command.logical_block_address(0x0A0B_0C0D_0E0F_1011).control(0x30).parameter(&[9; 2]);
    let unit = command.issue_16().unwrap();
    assert_eq!(unit.command(), vec![0x9F, 0x11, 0x0A, 0x0B, 0x0C, 0x0D, 0x0E, 0x0F, 0x10, 0x11, 0x00, 0x00, 0x00, 0x02, 0x00, 0x30]);
    command.parameter(&vec![0u8; 0x1_0000]);
    assert_eq!(out_of_bounds(command.issue_16()), ("parameter length", 0xFFFF, 0x1_0000));
}

#[test]
fn write_buffer_packs() {
    let mut command = scsir::command::write_buffer::ReadBufferCommand::new();
    command
        .mode_specific(5)
        .mode(0x1C)
        .buffer_id(0xB1)
        .buffer_offset(0x00A1_B2C3)
        .control(0x0F)
        .parameter(&[0xEE; 0x0304]);
    let unit = command.issue().unwrap();
    assert_eq!(unit.command(), vec![0x3B, 0xBC, 0xB1, 0xA1, 0xB2, 0xC3, 0x00, 0x03, 0x04, 0x0F]);
    assert_eq!(unit.data().len(), 0x0304);
    command.buffer_offset(0x0100_0000);
    assert_eq!(out_of_bounds(command.issue()), ("buffer offset", 0xFF_FFFF, 0x0100_0000));
    command.mode(0x20);
    assert_eq!(out_of_bounds(command.issue()), ("mode", 0x1F, 0x20));
    command.mode_specific(8);
    assert_eq!(out_of_bounds(command.issue()), ("mode specific", 7, 8));
}

#[test]
fn read_buffer_10_packs() {
    let mut command = ReadBufferCommand::new();
    command
        .mode_specific(1)
        .mode(0x02)
        .buffer_offset(0x00FF_EEDD)
        .allocation_length(0x0000_0102)
        .buffer_id(7)
        .control(9);
    let unit = command.issue_10().unwrap();
    assert_eq!(unit.command(), vec![0x3C, 0x22, 0x07, 0xFF, 0xEE, 0xDD, 0x00, 0x01, 0x02, 0x09]);
    assert_eq!(unit.data_size(), 0x102);
    assert_eq!(unit.data(), vec![0u8; 0x102]);
    assert_eq!(unit.process_result(good(vec![5; 4])).unwrap(), vec![5; 4]);
    command.allocation_length(0x0100_0000);
    assert_eq!(
        out_of_bounds(command.issue_10()),
        ("allocation length", 0xFF_FFFF, 0x0100_0000)
    );
    assert!(command.issue_16().is_ok());
}

#[test]
fn read_buffer_16_packs() {
    let mut command = ReadBufferCommand::new();
    command
        .mode_specific(7)
        .mode(0x1F)
        .buffer_offset(0x0102_0304_0506_0708)
        .allocation_length(0x0000_00C8)
        .buffer_id(0x3D)
        .control(0x81);
    let unit = command.issue_16().unwrap();
    assert_eq!(unit.command(), vec![0x9B, 0xFF, 0x01, 0x02, 0x03, 0x04, 0x05, 0x06, 0x07, 0x08, 0x00, 0x00, 0x00, 0xC8, 0x3D, 0x81]);
    assert_eq!(
        out_of_bounds(command.issue_10()),
        ("buffer offset", 0xFF_FFFF, 0x0102_0304_0506_0708)
    );
}

#[test]
fn security_protocol_in_packs() {
    let mut command = SecurityProtocolInCommand::new();
    command
        .security_protocol(0xEF)
        .security_protocol_specific(0x1234)
        .inc_512(true)
        .allocation_length(3)
        .control(0x55);
    let unit = command.issue().unwrap();
    assert_eq!(unit.command(), vec![0xA2, 0xEF, 0x12, 0x34, 0x80, 0x00, 0x00, 0x00, 0x00, 0x03, 0x00, 0x55]);
    assert_eq!(unit.data_size(), 3 * 512);
    assert_eq!(unit.data().len(), 3 * 512);
    command.allocation_length(0x007F_FFFF);
    assert_eq!(command.issue().unwrap().data_size(), 0xFFFF_FE00);
    command.allocation_length(0x0080_0000);
    assert_eq!(out_of_bounds(command.issue()), ("allocation length", 0x007F_FFFF, 0x0080_0000));
    command.inc_512(false);
    assert_eq!(command.issue().unwrap().data_size(), 0x0080_0000);
    command.allocation_length(77);
    assert_eq!(command.issue().unwrap().data_size(), 77);
    assert_eq!(command.issue().unwrap().data().len(), 77);
}

#[test]
fn security_protocol_out_packs() {
    let mut command = SecurityProtocolOutCommand::new();
    command
        .security_protocol(0x01)
        .security_protocol_specific(0xFEDC)
        .inc_512(true)
        .control(0x02)
        .parameter(&vec![0xAB; 1024]);
    let unit = command.issue().unwrap();
    assert_eq!(unit.command(), vec![0xB5, 0x01, 0xFE, 0xDC, 0x80, 0x00, 0x00, 0x00, 0x00, 0x02, 0x00, 0x02]);
    assert_eq!(unit.data_size(), 1024);
    command.parameter(&vec![0xAB; 1000]);
    assert_eq!(bad_argument(command.issue()), "parameter length is not a multiple of 512");
    command.inc_512(false);
    let unit = command.issue().unwrap();
    assert_eq!(&unit.command()[6..10], &[0, 0, 0x03, 0xE8]);
}

#[test]
fn set_timestamp_packs() {
    let mut command = SetTimestampCommand::new();
    command.control(0x99).parameter(&[0; 12]);
    let unit = command.issue().unwrap();
    assert_eq!(unit.command(), vec![0xA4, 0x0F, 0x00, 0x00, 0x00, 0x00, 0x00, 0x00, 0x00, 0x0C, 0x00, 0x99]);
    assert_eq!(unit.data(), vec![0; 12]);
}

#[test]
fn report_timestamp_packs_and_reads() {
    let mut command = ReportTimestampCommand::new();
    command.control(0x77);
    let unit = command.issue().unwrap();
    assert_eq!(unit.command(), vec![0xA3, 0x0F, 0x00, 0x00, 0x00, 0x00, 0x00, 0x00, 0x00, 0x0C, 0x00, 0x77]);
    assert_eq!(unit.data_size(), 12);
    let answer = vec![0x00, 0x0A, 0xFD, 0x00, 0x01, 0x02, 0x03, 0x04, 0x05, 0xFF, 0xFF, 0xFF];
    let clock = unit.process_result(good(answer)).unwrap();
    assert_eq!(clock.timestamp_origin, 5);
    assert_eq!(clock.timestamp, 0x0102_0304_05FF);
    // Bytes that did not come count as zero.
    let clock = unit.process_result(good(vec![0, 10, 0x02, 0, 0xAA])).unwrap();
    assert_eq!((clock.timestamp_origin, clock.timestamp), (2, 0xAA00_0000_0000));
}

#[test]
fn report_luns_packs_and_reads() {
    let mut command = ReportLunsCommand::new();
    command.select_report(0x02).control(0x10).descriptor_length(3);
    let unit = command.issue().unwrap();
    assert_eq!(unit.command(), vec![0xA0, 0x00, 0x02, 0x00, 0x00, 0x00, 0x00, 0x00, 0x00, 0x20, 0x00, 0x10]);
    assert_eq!(unit.data_size(), 32);
    let mut answer = vec![0, 0, 0, 16, 0xFF, 0xFF, 0xFF, 0xFF];
    answer.extend_from_slice(&0x0001_0000_0000_0000u64.to_be_bytes());
    answer.extend_from_slice(&0x0102_0304_0506_0708u64.to_be_bytes());
    answer.extend_from_slice(&[0xEE, 0xDD]);
    let list = unit.process_result(good(answer)).unwrap();
    assert_eq!(list.total_descriptor_length, 16);
    assert_eq!(
        list.descriptors,
        vec![0x0001_0000_0000_0000, 0x0102_0304_0506_0708, 0xEEDD_0000_0000_0000]
    );
    let list = unit.process_result(good(vec![0, 0, 1])).unwrap();
    assert_eq!((list.total_descriptor_length, list.descriptors.len()), (0x100, 0));
    command.descriptor_length(0x1FFF_FFFE);
    assert_eq!(command.issue().unwrap().data_size(), 0xFFFF_FFF8);
    command.descriptor_length(0x1FFF_FFFF);
    assert_eq!(out_of_bounds(command.issue()), ("descriptor length", 0x1FFF_FFFE, 0x1FFF_FFFF));
}

#[test]
fn write_and_verify_10_packs() {
    let mut command = WriteAndVerifyCommand::new();
    command
        .control(0x04)
        .group_number(0x11)
        .write_protect(6)
        .disable_page_out(true)
        .byte_check(2)
        .logical_block_address(0x0708_090A)
        .logical_block_size(4)
        .parameter(&[0x5A; 12]);
    let unit = command.issue_10().unwrap();
    assert_eq!(unit.command(), vec![0x2E, 0xD4, 0x07, 0x08, 0x09, 0x0A, 0x11, 0x00, 0x03, 0x04]);
    assert_eq!(unit.direction(), DataDirection::ToDevice);
    assert_eq!(unit.data(), vec![0x5A; 12]);
    assert_eq!(unit.data_size(), 12);
}

#[test]
fn write_and_verify_12_16_32_pack() {
    let mut command = WriteAndVerifyCommand::new();
    command
        .control(0x04)
        .group_number(0x1F)
        .write_protect(1)
        .byte_check(3)
        .logical_block_address(0x0708_090A)
        .logical_block_size(512)
        .parameter(&vec![0; 1024]);
    assert_eq!(command.issue_12().unwrap().command(), vec![0xAE, 0x26, 0x07, 0x08, 0x09, 0x0A, 0x00, 0x00, 0x00, 0x02, 0x1F, 0x04]);
    assert_eq!(command.issue_16().unwrap().command(), vec![0x8E, 0x26, 0x00, 0x00, 0x00, 0x00, 0x07, 0x08, 0x09, 0x0A, 0x00, 0x00, 0x00, 0x02, 0x1F, 0x04]);
    command
        .expected_initial_logical_block_reference_tag(0xA1A2_A3A4)
        .expected_logical_block_application_tag(0xB1B2)
        .logical_block_application_tag_mask(0xC1C2);
    let unit = command.issue_32().unwrap();
    assert_eq!(unit.command(), vec![0x7F, 0x04, 0x00, 0x00, 0x00, 0x00, 0x1F, 0x18, 0x00, 0x0C, 0x26, 0x00, 0x00, 0x00, 0x00, 0x00, 0x07, 0x08, 0x09, 0x0A, 0xA1, 0xA2, 0xA3, 0xA4, 0xB1, 0xB2, 0xC1, 0xC2, 0x00, 0x00, 0x00, 0x02]);
    assert_eq!(
        bad_argument(command.issue_16()),
        "expected tags and mask are not allowed here"
    );
}

#[test]
fn write_and_verify_checks_the_data() {
    let mut command = WriteAndVerifyCommand::new();
    command.logical_block_size(512).parameter(&vec![0; 513]);
    assert!(matches!(
        command.issue_10(),
        Err(Error::BadArgumentValue {
            message: "parameter length should be a multiple of logical block size, which is",
            value: 512,
        })
    ));
    command.logical_block_size(1).parameter(&vec![0; 0x1_0000]);
    assert_eq!(out_of_bounds(command.issue_10()), ("parameter length", 0xFFFF, 0x1_0000));
    assert!(command.issue_12().is_ok());
    command.logical_block_size(3).parameter(&vec![0; 3 * 0x1_0000]);
    assert_eq!(
        out_of_bounds(command.issue_10()),
        ("parameter length", 3 * 0xFFFF, 3 * 0x1_0000)
    );
    command.logical_block_size(512).parameter(&vec![0; 33_554_432]);
    assert_eq!(
        out_of_bounds(command.issue_10()),
        ("parameter length", 33_553_920, 33_554_432)
    );
    command.logical_block_size(3);
    command.parameter(&[]).byte_check(4);
    assert_eq!(out_of_bounds(command.issue_10()), ("byte check", 3, 4));
    command.write_protect(8);
    assert_eq!(out_of_bounds(command.issue_10()), ("verify protect", 7, 8));
}

#[test]
fn write_atomic_16_and_32_pack() {
    let mut command = WriteAtomicCommand::new();
    command
        .control(0x21)
        .atomic_boundary(0x0203)
        .group_number(0x1E)
        .write_protect(4)
        .disable_page_out(true)
        .force_unit_access(true)
        .logical_block_address(0x1112_1314_1516_1718)
        .logical_block_size(2)
        .parameter(&[0; 10]);
    assert_eq!(command.issue_16().unwrap().command(), vec![0x9C, 0x98, 0x11, 0x12, 0x13, 0x14, 0x15, 0x16, 0x17, 0x18, 0x02, 0x03, 0x00, 0x05, 0x1E, 0x21]);
    command.expected_logical_block_application_tag(0x0F0E);
    let unit = command.issue_32().unwrap();
    assert_eq!(unit.command(), vec![0x7F, 0x21, 0x00, 0x00, 0x02, 0x03, 0x1E, 0x18, 0x00, 0x0F, 0x98, 0x00, 0x11, 0x12, 0x13, 0x14, 0x15, 0x16, 0x17, 0x18, 0x00, 0x00, 0x00, 0x00, 0x0F, 0x0E, 0x00, 0x00, 0x00, 0x00, 0x00, 0x05]);
    command.parameter(&vec![0; 2 * 0x1_0000]);
    command.expected_logical_block_application_tag(0);
    assert_eq!(
        out_of_bounds(command.issue_16()),
        ("parameter length", 2 * 0xFFFF, 2 * 0x1_0000)
    );
    assert!(command.issue_32().is_ok());
}

#[test]
fn write_stream_16_and_32_pack() {
    let mut command = scsir::command::write_stream::WriteSameCommand::new();
    command
        .control(0x21)
        .stream_identifier(0x0203)
        .group_number(0x3E)
        .write_protect(4)
        .force_unit_access(true)
        .logical_block_address(0x1112_1314_1516_1718)
        .logical_block_size(2)
        .parameter(&[0; 10]);
    assert_eq!(command.issue_16().unwrap().command(), vec![0x9A, 0x88, 0x11, 0x12, 0x13, 0x14, 0x15, 0x16, 0x17, 0x18, 0x02, 0x03, 0x00, 0x05, 0x3E, 0x21]);
    command.logical_block_application_tag_mask(0x0F0E);
    let unit = command.issue_32().unwrap();
    assert_eq!(unit.command(), vec![0x7F, 0x21, 0x00, 0x00, 0x02, 0x03, 0x3E, 0x18, 0x00, 0x10, 0x88, 0x00, 0x11, 0x12, 0x13, 0x14, 0x15, 0x16, 0x17, 0x18, 0x00, 0x00, 0x00, 0x00, 0x00, 0x00, 0x0F, 0x0E, 0x00, 0x00, 0x00, 0x05]);
    command.group_number(0x40);
    assert_eq!(out_of_bounds(command.issue_32()), ("group number", 0x3F, 0x40));
}

#[test]
fn write_same_10_16_32_pack() {
    let mut command = scsir::command::write_same::WriteSameCommand::new();
    command
        .control(0x08)
        .group_number(0x0F)
        .write_protect(3)
        .anchor(true)
        .unmap(true)
        .logical_block_address(0x2122_2324)
        .number_of_blocks(0x3132)
        .parameter(&[7; 512]);
    assert_eq!(command.issue_10().unwrap().command(), vec![0x41, 0x78, 0x21, 0x22, 0x23, 0x24, 0x0F, 0x31, 0x32, 0x08]);
    command.no_data_out_buffer(true);
    assert_eq!(bad_argument(command.issue_10()), "no data out buffer is not allowed here");
    assert_eq!(command.issue_16().unwrap().command(), vec![0x93, 0x79, 0x00, 0x00, 0x00, 0x00, 0x21, 0x22, 0x23, 0x24, 0x00, 0x00, 0x31, 0x32, 0x0F, 0x08]);
    command.expected_initial_logical_block_reference_tag(0x4142_4344);
    let unit = command.issue_32().unwrap();
    assert_eq!(unit.command(), vec![0x7F, 0x08, 0x00, 0x00, 0x00, 0x00, 0x0F, 0x18, 0x00, 0x0D, 0x79, 0x00, 0x00, 0x00, 0x00, 0x00, 0x21, 0x22, 0x23, 0x24, 0x41, 0x42, 0x43, 0x44, 0x00, 0x00, 0x00, 0x00, 0x00, 0x00, 0x31, 0x32]);
    assert_eq!(unit.data(), vec![7; 512]);
    command.number_of_blocks(0x1_0000).no_data_out_buffer(false);
    command.expected_initial_logical_block_reference_tag(0);
    assert_eq!(
        out_of_bounds(command.issue_10()),
        ("number of blocks length", 0xFFFF, 0x1_0000)
    );
}

#[test]
fn ata_12_packs() {
    let mut command = AtaPassThroughCommand::new();
    command
        .command(SatDirection::FromDevice, AtaProtocol::PioDataIn, 0xEC)
        .device(0xA0)
        .control(0x03)
        .features(0xF1)
        .lba(0x00C3_B2A1)
        .count(1024);
    let unit = command.issue_12().unwrap();
    assert_eq!(unit.command(), vec![0xA1, 0x08, 0x0E, 0xF1, 0x02, 0xA1, 0xB2, 0xC3, 0xA0, 0xEC, 0x00, 0x03]);
    assert_eq!(unit.direction(), DataDirection::FromDevice);
    assert_eq!(unit.data(), vec![0u8; 1024]);
    assert_eq!(unit.data_size(), 1024);
    assert_eq!(unit.process_result(good(vec![1, 2])).unwrap(), Some(vec![1, 2]));
    command.features(0x100);
    assert_eq!(out_of_bounds(command.issue_12()), ("features", 0xFF, 0x100));
    assert!(command.issue_16().is_ok());
    command.features(0).lba(0x0100_0000);
    assert_eq!(out_of_bounds(command.issue_12()), ("lba", 0xFF_FFFF, 0x0100_0000));
    assert_eq!(out_of_bounds(command.issue_16()), ("lba", 0xFF_FFFF, 0x0100_0000));
}

#[test]
fn ata_16_packs() {
    let mut command = AtaPassThroughCommand::new();
    command
        .command(SatDirection::ToDevice, AtaProtocol::UdmaDataOut, 0x35)
        .device(0x40)
        .control(0x80)
        .features(0xF1E2)
        .lba(0x00C3_B2A1)
        .parameter(&[0x11; 512]);
    let unit = command.issue_16().unwrap();
    assert_eq!(unit.command(), vec![0x85, 0x16, 0x06, 0xF1, 0xE2, 0x00, 0x01, 0x00, 0xA1, 0x00, 0xB2, 0x00, 0xC3, 0x40, 0x35, 0x80]);
    assert_eq!(unit.direction(), DataDirection::ToDevice);
    assert_eq!(unit.data(), vec![0x11; 512]);
    assert_eq!(unit.process_result(good(vec![1, 2])).unwrap(), None);
    // The data is filled up with zeros, or cut, to the count that was set.
    command.count(1024);
    let mut padded = vec![0x11; 512];
    padded.resize(1024, 0);
    assert_eq!(command.issue_16().unwrap().data(), padded);
    command.count(0);
    assert!(command.issue_16().unwrap().data().is_empty());
}

#[test]
fn ata_counts_the_blocks_of_long_data() {
    let mut command = AtaPassThroughCommand::new();
    command
        .command(SatDirection::ToDevice, AtaProtocol::UdmaDataOut, 0x35)
        .parameter(&vec![0x22; 0x1_0000]);
    let unit = command.issue_12().unwrap();
    assert_eq!(unit.command()[4], 128);
    assert_eq!(unit.data(), vec![0x22; 0x1_0000]);
    assert_eq!(unit.data_size(), 0x1_0000);
    let unit = command.issue_16().unwrap();
    assert_eq!(&unit.command()[5..7], &[0, 128]);
    command.parameter(&vec![0x22; 255 * 512]);
    assert_eq!(command.issue_12().unwrap().command()[4], 255);
    assert_eq!(command.issue_12().unwrap().data().len(), 255 * 512);
    command.parameter(&vec![0x22; 256 * 512]);
    assert_eq!(out_of_bounds(command.issue_12()), ("count", 0xFF, 0x100));
    assert_eq!(out_of_bounds(command.issue_16()), ("count", 0xFF, 0x100));
}

#[test]
fn ata_protocol_and_direction_codes() {
    let protocols = [
        AtaProtocol::HardwareReset,
        AtaProtocol::SoftwareReset,
        AtaProtocol::Reserved02,
        AtaProtocol::NonData,
        AtaProtocol::PioDataIn,
        AtaProtocol::PioDataOut,
        AtaProtocol::Dma,
        AtaProtocol::Reserved07,
        AtaProtocol::ExecuteDeviceDiagnostic,
        AtaProtocol::DeviceReset,
        AtaProtocol::UdmaDataIn,
        AtaProtocol::UdmaDataOut,
        AtaProtocol::Ncq,
        AtaProtocol::Reserved0D,
        AtaProtocol::Reserved0E,
        AtaProtocol::ReturnResponseInformation,
    ];
    for (code, protocol) in protocols.iter().enumerate() {
        assert_eq!(protocol.code() as usize, code);
    }
    assert_eq!(SatDirection::ToDevice.code(), 0);
    assert_eq!(SatDirection::FromDevice.code(), 1);
    assert_eq!(SatDirection::ToDevice.to_data_direction(), DataDirection::ToDevice);
    assert_eq!(SatDirection::FromDevice.to_data_direction(), DataDirection::FromDevice);
}

#[test]
fn background_control_packs() {
    let mut command = BackgroundControlCommand::new();
    command.background_operation_control(2).background_operation_time(0x64).control(0x0C);
    let unit = command.issue().unwrap();
    assert_eq!(unit.command(), vec![0x9E, 0x15, 0x80, 0x64, 0x00, 0x00, 0x00, 0x00, 0x00, 0x00, 0x00, 0x00, 0x00, 0x00, 0x00, 0x0C]);
    assert_eq!(unit.direction(), DataDirection::NoData);
    command.background_operation_control(4);
    assert_eq!(out_of_bounds(command.issue()), ("background operation control", 3, 4));
}

#[test]
fn format_unit_without_a_parameter_list() {
    let mut command = FormatUnitCommand::new();
    command
        .format_protection_information(2)
        .complete_list(true)
        .defect_list_format(5)
        .vendor_specific(0xAB)
        .fast_format(1)
        .control(0x1D);
    let unit = command.issue().unwrap();
    assert_eq!(unit.command(), vec![0x04, 0x8D, 0xAB, 0x00, 0x01, 0x1D]);
    assert!(unit.data().is_empty());
    assert_eq!(unit.data_size(), 0);
    command.fast_format(4);
    assert_eq!(out_of_bounds(command.issue()), ("fast format", 3, 4));
    command.defect_list_format(8);
    assert_eq!(out_of_bounds(command.issue()), ("defect list format", 7, 8));
    command.format_protection_information(4);
    assert_eq!(out_of_bounds(command.issue()), ("format protection information", 3, 4));
}

#[test]
fn format_unit_with_a_long_list() {
    let mut command = FormatUnitCommand::new();
    command.format_data(true).defect_list_format(3);
    {
        let mut list = command.parameter();
        {
            let mut header = list.long_parameter_list_header();
            header
                .protection_fields_usage(5)
                .format_options_valid(true)
                .disable_primary(false)
                .disable_certification(true)
                .stop_format(true)
                .initialization_pattern(true)
                .immediate(true)
                .vendor_specific(false)
                .protection_interval_exponent(9);
            header.done().unwrap();
        }
        {
            let mut pattern = list.initialization_pattern_descriptor();
            pattern.security_initialize(true).initialization_pattern_type(0x02);
            pattern.initialization_pattern(&[0xDE, 0xAD]).initialization_pattern(&[0xBE]);
            pattern.done().unwrap();
        }
        {
            let mut defects = list.defect_list();
            defects
                .add_long_block_format_address_descriptor(0x0102_0304_0506_0708)
                .add_long_block_format_address_descriptor(0x1112_1314_1516_1718);
            defects.done().unwrap();
        }
        list.done().unwrap();
    }
    let unit = command.issue().unwrap();
    assert_eq!(unit.command(), vec![0x04, 0x33, 0x00, 0x00, 0x00, 0x00]);
    let mut expected: Vec<u8> = vec![0x05, 0xBA, 0x00, 0x09, 0x00, 0x00, 0x00, 0x10];
    expected.extend_from_slice(&[0x20, 0x02, 0x00, 0x03]);
    expected.extend_from_slice(&[0xDE, 0xAD, 0xBE]);
    expected.extend_from_slice(&0x0102_0304_0506_0708u64.to_be_bytes());
    expected.extend_from_slice(&0x1112_1314_1516_1718u64.to_be_bytes());
    assert_eq!(unit.data(), expected);
    assert_eq!(unit.data_size() as usize, expected.len());
    assert_eq!(unit.direction(), DataDirection::ToDevice);
}

#[test]
fn format_unit_with_a_short_list() {
    let mut command = FormatUnitCommand::new();
    command.format_data(true);
    {
        let mut list = command.parameter();
        {
            let mut header = list.short_parameter_list_header();
            header.protection_fields_usage(7).disable_primary(true).vendor_specific(true);
            header.done().unwrap();
        }
        {
            let mut defects = list.defect_list();
            defects.add_short_block_format_address_descriptor(0xA1A2_A3A4);
            defects
                .add_short_block_format_address_descriptor(0xB1B2_B3B4)
                .add_short_block_format_address_descriptor(0xC1C2_C3C4);
            defects.done().unwrap();
        }
        list.done().unwrap();
    }
    let unit = command.issue().unwrap();
    assert_eq!(unit.command(), vec![0x04, 0x10, 0x00, 0x00, 0x00, 0x00]);
    let mut expected: Vec<u8> = vec![0x07, 0x41, 0x00, 0x0C];
    expected.extend_from_slice(&[0xA1, 0xA2, 0xA3, 0xA4, 0xB1, 0xB2, 0xB3, 0xB4, 0xC1, 0xC2, 0xC3, 0xC4]);
    assert_eq!(unit.data(), expected);
}

#[test]
fn format_unit_descriptor_records() {
    let record = ExtendedBytesFromIndexAddressDescriptor {
        cylinder_number: 0x00A1_B2C3,
        head_number: 0xD4,
        multi_address_descriptor_start: true,
        bytes_from_index: 0x0E5F_6071,
    };
    assert_eq!(record.to_bytes(), [0xA1, 0xB2, 0xC3, 0xD4, 0x8E, 0x5F, 0x60, 0x71]);
    let back = ExtendedBytesFromIndexAddressDescriptor::from_bytes(&record.to_bytes());
    assert_eq!(
        (back.cylinder_number, back.head_number, back.multi_address_descriptor_start, back.bytes_from_index),
        (0x00A1_B2C3, 0xD4, true, 0x0E5F_6071)
    );
    let record = ExtendedPhysicalSectorAddressDescriptor {
        cylinder_number: 0x0000_0001,
        head_number: 0x02,
        multi_address_descriptor_start: false,
        sector_number: 0x0FFF_FFFF,
    };
    assert_eq!(record.to_bytes(), [0x00, 0x00, 0x01, 0x02, 0x0F, 0xFF, 0xFF, 0xFF]);
    let record = BytesFromIndexFormatAddressDescriptor {
        cylinder_number: 0x00FF_FFFF,
        head_number: 0x80,
        bytes_from_index: 0x0102_0304,
    };
    assert_eq!(record.to_bytes(), [0xFF, 0xFF, 0xFF, 0x80, 0x01, 0x02, 0x03, 0x04]);
    let record = PhysicalSectorFormatAddressDescriptor {
        cylinder_number: 0x0011_2233,
        head_number: 0x44,
        sector_number: 0x5566_7788,
    };
    assert_eq!(record.to_bytes(), [0x11, 0x22, 0x33, 0x44, 0x55, 0x66, 0x77, 0x88]);
    let back = PhysicalSectorFormatAddressDescriptor::from_bytes(&record.to_bytes());
    assert_eq!(
        (back.cylinder_number, back.head_number, back.sector_number),
        (0x0011_2233, 0x44, 0x5566_7788)
    );
}

#[test]
fn format_unit_refuses_bad_lists() {
    let mut command = FormatUnitCommand::new();
    let mut list = command.parameter();
    {
        let mut defects = list.defect_list();
        assert_eq!(
            out_of_bounds_of(
                defects
                    .add_extended_bytes_from_index_address_descriptor_checked(0x0100_0000, 0, false, 0)
                    .err()
            ),
            ("cylinder number", 0xFF_FFFF, 0x0100_0000)
        );
        assert_eq!(
            out_of_bounds_of(
                defects
                    .add_extended_bytes_from_index_address_descriptor_checked(0, 0, false, 0x1000_0000)
                    .err()
            ),
            ("bytes from index", 0x0FFF_FFFF, 0x1000_0000)
        );
        assert_eq!(
            out_of_bounds_of(
                defects
                    .add_extended_physical_sector_address_descriptor_checked(0, 0, false, 0x1000_0000)
                    .err()
            ),
            ("sector number", 0x0FFF_FFFF, 0x1000_0000)
        );
        assert_eq!(
            out_of_bounds_of(
                defects.add_bytes_from_index_format_address_descriptor_checked(0x0100_0000, 0, 0).err()
            ),
            ("cylinder number", 0xFF_FFFF, 0x0100_0000)
        );
        assert_eq!(
            out_of_bounds_of(
                defects.add_physical_sector_format_address_descriptor_checked(0x0100_0000, 0, 0).err()
            ),
            ("cylinder number", 0xFF_FFFF, 0x0100_0000)
        );
        assert!(defects.defect_list.is_empty());
        defects.add_short_block_format_address_descriptor(1);
        defects.add_long_block_format_address_descriptor(2);
        assert!(matches!(defects.done(), Err(Error::BadArgument("Cannot mix descriptor types"))));
    }
    {
        let mut defects = list.defect_list();
        defects.add_custom_descriptor(&[1, 2, 3]).add_custom_descriptor(&[4]);
        let list = defects.done().unwrap();
        assert_eq!(list.header_buffer.defect_list_length, 4);
        assert!(matches!(&list.defect_list[1], DefectListItem::CustomDescriptor(bytes) if bytes == &[4]));
    }
    {
        // The short header, which a fresh list has, counts in sixteen bits.
        let mut defects = list.defect_list();
        defects.add_custom_descriptor(&vec![0; 0x1_0000]);
        assert_eq!(
            out_of_bounds_of(defects.done().err()),
            ("defect list length", 0xFFFF, 0x1_0000)
        );
    }
    {
        let mut header = list.long_parameter_list_header();
        header.protection_interval_exponent(0x10);
        assert_eq!(
            out_of_bounds_of(header.done().err()),
            ("protection interval exponent", 0xF, 0x10)
        );
    }
    {
        let mut header = list.short_parameter_list_header();
        header.protection_fields_usage(8);
        assert_eq!(out_of_bounds_of(header.done().err()), ("protection fields usage", 7, 8));
    }
    {
        let mut pattern = list.initialization_pattern_descriptor();
        pattern.initialization_pattern(&vec![0; 0x1_0000]);
        assert_eq!(
            out_of_bounds_of(pattern.done().err()),
            ("initialization pattern length", 0xFFFF, 0x1_0000)
        );
    }
    {
        list.long_parameter_list_header().done().unwrap();
        let mut defects = list.defect_list();
        defects.add_custom_descriptor(&vec![0; 0x1_0000]);
        assert_eq!(defects.done().unwrap().header_buffer.defect_list_length, 0x1_0000);
    }
    // A defect list too long for the short header is caught when the command
    // is issued with it.
    let command = list.done().unwrap();
    command.format_data(true);
    command.longlist = false;
    assert_eq!(out_of_bounds(command.issue()), ("defect list length", 0xFFFF, 0x1_0000));
}

#[test]
fn get_lba_status_packs_and_reads() {
    let mut command = GetLbaStatusCommand::new();
    command.starting_logical_block_address(0x0102_0304_0506_0708).control(0x06).descriptor_length(2);
    let unit = command.issue().unwrap();
    assert_eq!(unit.command(), vec![0x9E, 0x12, 0x01, 0x02, 0x03, 0x04, 0x05, 0x06, 0x07, 0x08, 0x00, 0x00, 0x00, 0x28, 0x00, 0x06]);
    assert_eq!(unit.data_size(), 40);
    assert_eq!(unit.data().len(), 40);
    let mut answer = vec![0x00, 0x00, 0x00, 0x34, 0x00, 0x00, 0x00, 0x00];
    answer.extend_from_slice(&[0x00, 0x00, 0x00, 0x00, 0x00, 0x00, 0x00, 0x10, 0x00, 0x00, 0x00, 0x20, 0x01, 0x00, 0x00, 0x00]);
    answer.extend_from_slice(&[0x00, 0x00, 0x00, 0x00, 0x00, 0x00, 0x00, 0x30, 0x00, 0x00, 0x00, 0x40, 0x09, 0x00, 0x00, 0x00]);
    let report = unit.process_result(good(answer)).unwrap();
    assert_eq!(report.total_descripter_length, 3);
    assert_eq!(report.lba_status_descriptors.len(), 2);
    assert_eq!(report.lba_status_descriptors[0].logical_block_address, 0x10);
    assert_eq!(report.lba_status_descriptors[0].number_of_logical_blocks, 0x20);
    assert_eq!(report.lba_status_descriptors[0].provisioning_status, ProvisioningStatus::Deallocated);
    assert_eq!(report.lba_status_descriptors[1].provisioning_status, ProvisioningStatus::Other(9));
    let report = unit.process_result(good(vec![0, 0, 0, 2])).unwrap();
    assert_eq!((report.total_descripter_length, report.lba_status_descriptors.len()), (0, 0));
    assert_eq!(ProvisioningStatus::from_code(0), ProvisioningStatus::MappedOrUnknown);
    assert_eq!(ProvisioningStatus::from_code(2), ProvisioningStatus::Anchored);
    command.descriptor_length(0x0FFF_FFFF);
    assert_eq!(command.issue().unwrap().data_size(), 0xFFFF_FFF8);
    command.descriptor_length(0x1000_0000);
    assert_eq!(out_of_bounds(command.issue()), ("descriptor length", 0x0FFF_FFFF, 0x1000_0000));
}

#[test]
fn inquiry_packs_and_reads() {
    let mut command = InquiryCommand::new();
    command.page_code(Some(0x83)).allocation_length(0x0124);
    let unit = command.issue().unwrap();
    assert_eq!(unit.command(), vec![0x12, 0x01, 0x83, 0x01, 0x24, 0x00]);
    assert_eq!(unit.direction(), DataDirection::FromDevice);
    assert_eq!(unit.data_size(), 0x0124);
    assert_eq!(unit.data().len(), 0x0124);
    let mut answer = vec![0xAA; 0x0124];
    answer[0] = 1;
    assert_eq!(unit.process_result(good(answer.clone())).unwrap(), answer);
    // What came back is cut or filled up to what was asked for.
    let short = unit.process_result(good(vec![7, 8])).unwrap();
    assert_eq!((short.len(), short[0], short[1], short[2]), (0x0124, 7, 8, 0));
    command.page_code(None);
    assert_eq!(command.issue().unwrap().command(), vec![0x12, 0x00, 0x00, 0x01, 0x24, 0x00]);
}

#[test]
fn inquiry_as_a_header_and_elements() {
    let command = InquiryCommand::new();
    let unit = command.issue_flex::<u16, u32>(3).unwrap();
    assert_eq!(unit.command(), vec![0x12, 0x00, 0x00, 0x00, 14, 0x00]);
    assert_eq!(unit.data_size(), 14);
    let answer = vec![0x12, 0x34, 0, 0, 0, 1, 0, 0, 0, 2, 0, 0, 0, 3];
    let record = unit.process_result(good(answer.clone())).unwrap();
    assert_eq!(record.get_body(), 0x1234);
    assert_eq!(record.elements_to_vec(), vec![1, 2, 3]);
    assert_eq!(record.as_bytes(), &answer[..]);
    let unit = command.issue_generic::<u16, u32>(3).unwrap();
    assert_eq!(unit.process_result(good(answer)).unwrap(), (0x1234, vec![1, 2, 3]));
    assert!(matches!(unit.process_result(transport_failure(1)), Err(Error::Io(1))));
    assert_eq!(
        out_of_bounds_of(command.issue_flex::<u16, u32>(0x4000).err()),
        ("Expected element length", (0xFFFF - 2) / 4, 0x4000)
    );
    assert!(command.issue_flex::<u16, u32>((0xFFFF - 2) / 4).is_ok());
    assert!(command.issue_flex::<u16, ()>(1_000_000).is_err());
    assert_eq!(command.issue_flex::<u16, ()>(0xFFFD).unwrap().data_size(), 2);
}

#[test]
fn log_sense_packs_and_reads() {
    let mut command = LogSenseCommand::new();
    command
        .saving_parameters(true)
        .page_control(2)
        .page_code(0x2F)
        .subpage_code(0xF0)
        .parameter_pointer(0x0A0B)
        .allocation_length(0x0010)
        .control(0x60);
    let unit = command.issue().unwrap();
    assert_eq!(unit.command(), vec![0x4D, 0x01, 0xAF, 0xF0, 0x00, 0x0A, 0x0B, 0x00, 0x10, 0x60]);
    assert_eq!(unit.data_size(), 0x10);
    assert_eq!(unit.process_result(good(vec![3; 0x10])).unwrap(), vec![3; 0x10]);
    let flex = command.issue_flex::<[u8; 4], u16>(2).unwrap();
    assert_eq!(&flex.command()[7..9], &[0, 8]);
    let record = flex.process_result(good(vec![1, 2, 3, 4, 0, 5, 0, 6])).unwrap();
    assert_eq!((record.get_body(), record.elements_to_vec()), ([1, 2, 3, 4], vec![5, 6]));
    assert_eq!(
        out_of_bounds_of(command.issue_flex::<[u8; 4], u16>(0x8000).err()),
        ("Expected element length", (0xFFFF - 4) / 2, 0x8000)
    );
    command.page_code(0x40);
    assert_eq!(out_of_bounds(command.issue()), ("page code", 0x3F, 0x40));
    command.page_control(4);
    assert_eq!(out_of_bounds(command.issue()), ("page control", 3, 4));
}

#[test]
fn log_select_packs() {
    let mut command = LogSelectCommand::new();
    command
        .parameter_code_reset(true)
        .save_parameters(true)
        .page_control(1)
        .page_code(0x3F)
        .subpage_code(0x0F)
        .control(0x70)
        .parameter(&[1, 2, 3, 4, 5]);
    let unit = command.issue().unwrap();
    assert_eq!(unit.command(), vec![0x4C, 0x03, 0x7F, 0x0F, 0x00, 0x00, 0x00, 0x00, 0x05, 0x70]);
    assert_eq!(unit.data(), vec![1, 2, 3, 4, 5]);
    let unit = command.issue_generic(&0x0A0B_0C0Du32).unwrap();
    assert_eq!(unit.data(), vec![0x0A, 0x0B, 0x0C, 0x0D]);
    assert_eq!(&unit.command()[7..9], &[0, 4]);
    command.parameter(&vec![0; 0x1_0000]);
    assert_eq!(out_of_bounds(command.issue()), ("parameter list length", 0xFFFF, 0x1_0000));
}

#[test]
fn mode_select_packs() {
    let mut command = ModeSelectCommand::new();
    command.page_format(true).revert_to_defaults(true).saved_pages(true).control(0x0A).parameter(&[0; 0xFF]);
    let unit = command.issue_6().unwrap();
    assert_eq!(unit.command(), vec![0x15, 0x13, 0x00, 0x00, 0xFF, 0x0A]);
    assert_eq!(bad_argument(command.issue_10()), "revert to defaults is not allowed here");
    command.revert_to_defaults(false).parameter(&[0; 0x100]);
    assert_eq!(out_of_bounds(command.issue_6()), ("parameter length", 0xFF, 0x100));
    assert_eq!(command.issue_10().unwrap().command(), vec![0x55, 0x11, 0x00, 0x00, 0x00, 0x00, 0x00, 0x01, 0x00, 0x0A]);
}

#[test]
fn mode_sense_packs() {
    let mut command = ModeSenseCommand::new();
    command
        .disable_block_descriptors(true)
        .page_control(PageControl::Default)
        .page_code(0x3F)
        .subpage_code(0xFF)
        .allocation_length(0x00C0)
        .control(0x05);
    let unit = command.issue_6().unwrap();
    assert_eq!(unit.command(), vec![0x1A, 0x08, 0xBF, 0xFF, 0xC0, 0x05]);
    assert_eq!(unit.data_size(), 0xC0);
    command.long_lba_accepted(true);
    assert_eq!(bad_argument(command.issue_6()), "long lba accepted is not allowed here");
    command.allocation_length(0x0100).page_control(PageControl::Saved);
    assert_eq!(out_of_bounds(command.issue_6()), ("allocation length", 0xFF, 0x100));
    assert_eq!(command.issue_10().unwrap().command(), vec![0x5A, 0x18, 0xFF, 0xFF, 0x00, 0x00, 0x00, 0x01, 0x00, 0x05]);
    command.page_code(0x40);
    assert_eq!(out_of_bounds(command.issue_10()), ("page code", 0x3F, 0x40));
    assert_eq!(
        (PageControl::Current.code(), PageControl::Changeable.code()),
        (0, 1)
    );
}

#[test]
fn persistent_reserve_in_packs() {
    let mut command = PersistentReserveInCommand::new();
    command
        .service_action(persistent_reserve_in::ServiceAction::ReadFullStatus)
        .allocation_length(0x0208)
        .control(0x0B);
    let unit = command.issue().unwrap();
    assert_eq!(unit.command(), vec![0x5E, 0x03, 0x00, 0x00, 0x00, 0x00, 0x00, 0x02, 0x08, 0x0B]);
    assert_eq!(unit.data_size(), 0x0208);
    command.service_action(persistent_reserve_in::ServiceAction::Other(0x20));
    assert_eq!(out_of_bounds(command.issue()), ("service action", 0x1F, 0x20));
    command.service_action(persistent_reserve_in::ServiceAction::Other(0x1F));
    assert_eq!(command.issue().unwrap().command()[1], 0x1F);
    assert_eq!(u8::from(persistent_reserve_in::ServiceAction::ReadKeys), 0);
    assert_eq!(u8::from(persistent_reserve_in::ServiceAction::ReadReservation), 1);
    assert_eq!(u8::from(persistent_reserve_in::ServiceAction::ReportCapabilities), 2);
}

#[test]
fn persistent_reserve_in_reads_every_answer() {
    let mut command = PersistentReserveInCommand::new();
    command.allocation_length(64);

    let mut keys = vec![0, 0, 0, 7, 0xFF, 0xFF, 0xFF, 0xFC];
    keys.extend_from_slice(&0x0102_0304_0506_0708u64.to_be_bytes());
    keys.extend_from_slice(&[0x11, 0x22]);
    match command.issue().unwrap().process_result(good(keys)).unwrap() {
        persistent_reserve_in::CommandResult::ReadKeys(data) => {
            assert_eq!(data.persistent_reservations_generation, 7);
            assert_eq!(data.required_length, u32::MAX);
            assert_eq!(data.reservation_keys, vec![0x0102_0304_0506_0708, 0x1122_0000_0000_0000]);
        }
        _ => panic!("read keys"),
    }

    command.service_action(persistent_reserve_in::ServiceAction::ReadReservation);
    let reservation = vec![0x01, 0x02, 0x03, 0x04, 0x00, 0x00, 0x00, 0x10, 0xA1, 0xA2, 0xA3, 0xA4, 0xA5, 0xA6, 0xA7, 0xA8, 0xFF, 0xFF, 0xFF, 0xFF, 0x00, 0xC3, 0xFF, 0xFF];
    match command.issue().unwrap().process_result(good(reservation)).unwrap() {
        persistent_reserve_in::CommandResult::ReadReservation(data) => {
            assert_eq!(data.persistent_reservations_generation, 0x0102_0304);
            assert_eq!(data.reservation_key, 0xA1A2_A3A4_A5A6_A7A8);
            assert_eq!((data.reservation_scope, data.reservation_type), (0xC, 0x3));
        }
        _ => panic!("read reservation"),
    }

    command.service_action(persistent_reserve_in::ServiceAction::ReportCapabilities);
    let capabilities = vec![0x00, 0x08, 0x89, 0x50, 0xA2, 0x00, 0x00, 0x00];
    match command.issue().unwrap().process_result(good(capabilities)).unwrap() {
        persistent_reserve_in::CommandResult::ReportCapabilities(data) => {
            assert!(data.replace_lost_reservation_capable);
            assert!(!data.compatible_reservation_handling);
            assert!(data.specify_initiator_ports_capable);
            assert!(!data.target_ports_capable);
            assert!(data.persist_through_power_loss_capable);
            assert!(!data.type_mask_valid);
            assert_eq!(data.allow_commands, 5);
            assert!(!data.persist_through_power_loss_activated);
            assert!(data.write_exclusive_all_registrants);
            assert!(!data.exclusive_access_registrants_only);
            assert!(data.write_exclusive_registrants_only);
            assert!(!data.exclusive_access);
            assert!(data.write_exclusive);
            assert!(!data.exclusive_access_all_registrants);
        }
        _ => panic!("report capabilities"),
    }

    command.service_action(persistent_reserve_in::ServiceAction::ReadFullStatus);
    let mut status = vec![0, 0, 0, 9, 0, 0, 0, 60];
    status.extend_from_slice(&[0x00, 0x00, 0x00, 0x00, 0x00, 0x00, 0x00, 0x11, 0x00, 0x00, 0x00, 0x00, 0x02, 0x27, 0x00, 0x00, 0x00, 0x00, 0x03, 0x04, 0x00, 0x00, 0x00, 0x03]);
    status.extend_from_slice(&[0xAA, 0xBB, 0xCC]);
    status.extend_from_slice(&[0x00, 0x00, 0x00, 0x00, 0x00, 0x00, 0x00, 0x22, 0x00, 0x00, 0x00, 0x00, 0x01, 0x00, 0x00, 0x00, 0x00, 0x00, 0x00, 0x00, 0x00, 0x00, 0x00, 0x64]);
    status.extend_from_slice(&[0xDD]);
    match command.issue().unwrap().process_result(good(status)).unwrap() {
        persistent_reserve_in::CommandResult::ReadFullStatus(data) => {
            assert_eq!(data.persistent_reservations_generation, 9);
            assert_eq!(data.required_length, 68);
            assert_eq!(data.descriptors.len(), 2);
            let first = &data.descriptors[0];
            assert_eq!(first.reservation_key, 0x11);
            assert!(first.all_target_ports && !first.reservation_holder);
            assert_eq!((first.reservation_scope, first.reservation_type), (2, 7));
            assert_eq!(first.relative_target_port_identifier, 0x0304);
            assert_eq!(first.transportid, vec![0xAA, 0xBB, 0xCC]);
            let second = &data.descriptors[1];
            assert_eq!(second.reservation_key, 0x22);
            assert!(second.reservation_holder);
            assert_eq!(second.transportid, vec![0xDD]);
        }
        _ => panic!("read full status"),
    }

    command.service_action(persistent_reserve_in::ServiceAction::Other(9));
    match command.issue().unwrap().process_result(good(vec![1, 2, 3])).unwrap() {
        persistent_reserve_in::CommandResult::Raw(bytes) => assert_eq!(bytes, vec![1, 2, 3]),
        _ => panic!("raw"),
    }
    assert!(matches!(
        command.issue().unwrap().process_result(device_failure()),
        Err(Error::Sense { .. })
    ));
}

#[test]
fn persistent_reserve_out_packs() {
    let mut command = PersistentReserveOutCommand::new();
    command
        .service_action(persistent_reserve_out::ServiceAction::RegisterAndMove)
        .reservation_scope(0xA)
        .reservation_type(0x5)
        .control(0x0E);
    {
        let mut list = command.parameter();
        {
            let mut data = list.register_and_move_parameter();
            data.reservation_key(0x0102_0304_0506_0708)
                .service_action_reservation_key(0x1112_1314_1516_1718)
                .unregister(true)
                .activate_persist_through_power_loss(true)
                .relative_target_port_identifier(0x2122)
                .transport_id_list(&[9, 8, 7]);
            data.done();
        }
        list.done();
    }
    let unit = command.issue().unwrap();
    assert_eq!(unit.command(), vec![0x5F, 0x07, 0xA5, 0x00, 0x00, 0x00, 0x00, 0x00, 0x1B, 0x0E]);
    let mut expected: Vec<u8> = vec![0x01, 0x02, 0x03, 0x04, 0x05, 0x06, 0x07, 0x08, 0x11, 0x12, 0x13, 0x14, 0x15, 0x16, 0x17, 0x18, 0x00, 0x03, 0x21, 0x22, 0x00, 0x00, 0x00, 0x03];
    expected.extend_from_slice(&[9, 8, 7]);
    assert_eq!(unit.data(), expected);
    assert_eq!(unit.direction(), DataDirection::ToDevice);
    assert_eq!(unit.data_size(), 27);
    command.reservation_type(0x10);
    assert_eq!(out_of_bounds(command.issue()), ("reservation type", 0xF, 0x10));
    command.reservation_scope(0x10);
    assert_eq!(out_of_bounds(command.issue()), ("reservation scope", 0xF, 0x10));
    command.service_action(persistent_reserve_out::ServiceAction::Other(0xFF));
    assert_eq!(out_of_bounds(command.issue()), ("service action", 0x1F, 0xFF));
    assert_eq!(u8::from(persistent_reserve_out::ServiceAction::ReplaceLostReservation), 8);
    assert_eq!(u8::from(persistent_reserve_out::ServiceAction::Register), 0);
}

#[test]
fn persistent_reserve_out_basic_parameter() {
    let mut command = PersistentReserveOutCommand::new();
    let mut list = command.parameter();
    {
        let mut data = list.basic_parameter();
        data.reservation_key(0xF1F2_F3F4_F5F6_F7F8)
            .service_action_reservation_key(1)
            .all_target_ports(true)
            .activate_persist_through_power_loss(true)
            .transport_id_list(&[1, 2, 3, 4, 5]);
        data.done();
    }
    let header: Vec<u8> = vec![0xF1, 0xF2, 0xF3, 0xF4, 0xF5, 0xF6, 0xF7, 0xF8, 0x00, 0x00, 0x00, 0x00, 0x00, 0x00, 0x00, 0x01, 0x00, 0x00, 0x00, 0x00, 0x05, 0x00, 0x00, 0x00];
    assert_eq!(list.data_buffer, header);
    {
        let mut data = list.basic_parameter();
        data.specify_initiator_ports(true).transport_id_list(&[1, 2, 3, 4, 5]);
        data.done();
    }
    let mut expected: Vec<u8> = vec![0x00, 0x00, 0x00, 0x00, 0x00, 0x00, 0x00, 0x00, 0x00, 0x00, 0x00, 0x00, 0x00, 0x00, 0x00, 0x00, 0x00, 0x00, 0x00, 0x00, 0x08, 0x00, 0x00, 0x00];
    expected.extend_from_slice(&[0, 0, 0, 5, 1, 2, 3, 4, 5]);
    assert_eq!(list.data_buffer, expected);
    assert_eq!(list.done().data_buffer, expected);
}

#[test]
fn read_capacity_packs_and_reads() {
    let mut command = ReadCapacityCommand::new();
    command.control(0x44);
    let unit = command.issue_10().unwrap();
    assert_eq!(unit.command(), vec![0x25, 0x00, 0x00, 0x00, 0x00, 0x00, 0x00, 0x00, 0x00, 0x44]);
    let capacity = unit
        .process_result(good(vec![0x00, 0x0F, 0xFF, 0xFF, 0x00, 0x00, 0x02, 0x00]))
        .unwrap();
    assert_eq!(capacity.returned_logical_block_address, 0x000F_FFFF);
    assert_eq!(capacity.block_length_in_bytes, 512);
    let unit = command.issue_16().unwrap();
    assert_eq!(unit.command(), vec![0x9E, 0x10, 0x00, 0x00, 0x00, 0x00, 0x00, 0x00, 0x00, 0x00, 0x00, 0x00, 0x00, 0x20, 0x00, 0x44]);
    assert_eq!(unit.data_size(), 32);
    let answer = vec![0x00, 0x00, 0x01, 0x02, 0x03, 0x04, 0x05, 0x06, 0x00, 0x00, 0x10, 0x00, 0x2B, 0xA3, 0xAA, 0xBC, 0x00, 0x00, 0x00, 0x00, 0x00, 0x00, 0x00, 0x00, 0x00, 0x00, 0x00, 0x00, 0x00, 0x00, 0x00, 0x00];
    let capacity = unit.process_result(good(answer)).unwrap();
    assert_eq!(capacity.returned_logical_block_address, 0x0000_0102_0304_0506);
    assert_eq!(capacity.logical_block_length_in_bytes, 4096);
    assert_eq!(capacity.read_capacity_basis, 2);
    assert_eq!(capacity.protection_type, 5);
    assert!(capacity.protection_enabled);
    assert_eq!(capacity.p_i_exponent, 0xA);
    assert_eq!(capacity.logical_blocks_per_physical_block_exponent, 3);
    assert!(capacity.logical_block_provisioning_management_enabled);
    assert!(!capacity.logical_block_provisioning_read_zeros);
    assert_eq!(capacity.lowest_aligned_logical_block_address, 0x2ABC);
    assert!(matches!(unit.process_result(transport_failure(19)), Err(Error::Io(19))));
}

#[test]
fn read_defect_data_packs() {
    let mut command = ReadDefectDataCommand::new();
    command
        .request_primary_defect_list(true)
        .request_grown_defect_list(true)
        .defect_list_format(4)
        .descriptor_length(3)
        .control(0x31);
    let unit = command.issue_10().unwrap();
    assert_eq!(unit.command(), vec![0x37, 0x00, 0x1C, 0x00, 0x00, 0x00, 0x00, 0x00, 0x1C, 0x31]);
    assert_eq!(unit.data_size(), 28);
    assert_eq!(command.get_defect_list_item_size(), 8);
    command.address_descriptor_index(0x0A0B_0C0D);
    assert_eq!(
        bad_argument(command.issue_10()),
        "address descriptor index is not allowed here"
    );
    let unit = command.issue_12().unwrap();
    assert_eq!(unit.command(), vec![0xB7, 0x1C, 0x0A, 0x0B, 0x0C, 0x0D, 0x00, 0x00, 0x00, 0x20, 0x00, 0x31]);
    assert_eq!(unit.data_size(), 32);
    command.address_descriptor_index(0).descriptor_length(8192);
    assert_eq!(
        out_of_bounds(command.issue_10()),
        ("Expected descriptor length", (0xFFFF - 4) / 8, 8192)
    );
    command.descriptor_length(8191);
    assert_eq!(command.issue_10().unwrap().data_size(), 4 + 8191 * 8);
    command.defect_list_format(0).descriptor_length(0x4000);
    assert_eq!(
        out_of_bounds(command.issue_10()),
        ("Expected descriptor length", (0xFFFF - 4) / 4, 0x4000)
    );
    command.defect_list_format(7).descriptor_length(0xFFFC);
    assert_eq!(
        out_of_bounds(command.issue_10()),
        ("Expected descriptor length", 0xFFFF - 4, 0xFFFC)
    );
    command.defect_list_format(8);
    assert_eq!(out_of_bounds(command.issue_12()), ("defect list format", 7, 8));
}

#[test]
fn read_defect_data_reads_every_format() {
    let mut command = ReadDefectDataCommand::new();
    command.descriptor_length(2);

    let mut answer = vec![0x00, 0x10, 0x00, 0x14];
    answer.extend_from_slice(&[0, 0, 0, 1, 0, 0, 0, 2, 0xFF]);
    let report = command.issue_10().unwrap().process_result(good(answer)).unwrap();
    assert!(report.primary_defect_list_valid && !report.grown_defect_list_valid);
    assert_eq!(report.total_descriptor_length, 5);
    match report.descriptors {
        DefectList::ShortBlockFormat(list) => {
            let addresses: Vec<u32> = list.iter().map(|d| d.short_block_address).collect();
            assert_eq!(addresses, vec![1, 2, 0xFF00_0000]);
        }
        _ => panic!("short block format"),
    }

    command.defect_list_format(1);
    let mut answer = vec![0x00, 0x09, 0x00, 0x00, 0x01, 0x00, 0x00, 0x10];
    answer.extend_from_slice(&[0x01, 0x02, 0x03, 0x04, 0x80, 0x50, 0x60, 0x70]);
    let report = command.issue_12().unwrap().process_result(good(answer)).unwrap();
    assert!(!report.primary_defect_list_valid && report.grown_defect_list_valid);
    assert_eq!(report.total_descriptor_length, 0x0100_0010 / 8);
    match report.descriptors {
        DefectList::ExtendedBytesFromIndex(list) => {
            assert_eq!(list.len(), 1);
            assert_eq!(list[0].cylinder_number, 0x01_0203);
            assert_eq!(list[0].head_number, 4);
            assert!(list[0].multi_address_descriptor_start);
            assert_eq!(list[0].bytes_from_index, 0x050_6070);
        }
        _ => panic!("extended bytes from index"),
    }

    command.defect_list_format(2);
    let mut answer = vec![0; 8];
    answer.extend_from_slice(&[0x0A, 0x0B, 0x0C, 0x0D, 0x00, 0xE0, 0xF1, 0x01]);
    match command.issue_12().unwrap().process_result(good(answer)).unwrap().descriptors {
        DefectList::ExtendedPhysicalSector(list) => {
            assert_eq!(
                (list[0].cylinder_number, list[0].head_number, list[0].sector_number),
                (0x0A_0B0C, 0x0D, 0x0E0_F101)
            );
            assert!(!list[0].multi_address_descriptor_start);
        }
        _ => panic!("extended physical sector"),
    }

    command.defect_list_format(3);
    let mut answer = vec![0; 8];
    answer.extend_from_slice(&0x0102_0304_0506_0708u64.to_be_bytes());
    match command.issue_12().unwrap().process_result(good(answer)).unwrap().descriptors {
        DefectList::LongBlockFormat(list) => {
            assert_eq!(list.len(), 1);
            assert_eq!(list[0].long_block_address, 0x0102_0304_0506_0708);
        }
        _ => panic!("long block format"),
    }

    command.defect_list_format(4);
    let mut answer = vec![0; 4];
    answer.extend_from_slice(&[0, 0, 1, 2, 0, 0, 0, 3]);
    match command.issue_10().unwrap().process_result(good(answer)).unwrap().descriptors {
        DefectList::BytesFromIndexFormat(list) => {
            assert_eq!(
                (list[0].cylinder_number, list[0].head_number, list[0].bytes_from_index),
                (1, 2, 3)
            );
        }
        _ => panic!("bytes from index format"),
    }

    command.defect_list_format(5);
    let mut answer = vec![0; 4];
    answer.extend_from_slice(&[0, 0, 1, 2, 0, 0, 0, 3]);
    match command.issue_10().unwrap().process_result(good(answer)).unwrap().descriptors {
        DefectList::PhysicalSectorFormat(list) => {
            assert_eq!(
                (list[0].cylinder_number, list[0].head_number, list[0].sector_number),
                (1, 2, 3)
            );
        }
        _ => panic!("physical sector format"),
    }

    command.defect_list_format(6);
    match command.issue_10().unwrap().process_result(good(vec![0, 0, 0, 9, 5, 6])).unwrap() {
        report => {
            assert_eq!(report.total_descriptor_length, 9);
            assert!(matches!(report.descriptors, DefectList::Custom(bytes) if bytes == vec![5, 6]));
        }
    }
    assert!(matches!(
        command.issue_10().unwrap().process_result(transport_failure(2)),
        Err(Error::Io(2))
    ));
}

#[test]
fn reassign_blocks_packs() {
    let mut command = ReassignBlocksCommand::new();
    command.control(0x12);
    {
        let mut list = command.parameter();
        list.long_lba_list(&[0x0102_0304_0506_0708, 1]);
        list.done().unwrap();
    }
    let unit = command.issue().unwrap();
    assert_eq!(unit.command(), vec![0x07, 0x03, 0x00, 0x00, 0x00, 0x12]);
    assert_eq!(
        unit.data(),
        vec![0, 0, 0, 16, 1, 2, 3, 4, 5, 6, 7, 8, 0, 0, 0, 0, 0, 0, 0, 1]
    );
    {
        let mut list = command.parameter();
        list.short_lba_list(&[0xA1A2_A3A4, 5]);
        list.done().unwrap();
    }
    let unit = command.issue().unwrap();
    assert_eq!(unit.command(), vec![0x07, 0x00, 0x00, 0x00, 0x00, 0x12]);
    assert_eq!(unit.data(), vec![0, 0, 0, 8, 0xA1, 0xA2, 0xA3, 0xA4, 0, 0, 0, 5]);
    {
        let mut list = command.parameter();
        list.short_lba_list(&vec![0u32; 0x4000]);
        assert_eq!(
            out_of_bounds_of(list.done().err()),
            ("parameter length", 0xFFFF, 0x1_0000)
        );
    }
    assert_eq!(command.issue().unwrap().data().len(), 12);
}

#[test]
fn receive_diagnostic_results_packs() {
    let mut command = ReceiveDiagnosticResultsCommand::new();
    command.page_code(Some(0x0A)).allocation_length(0x0304).control(0x08);
    let unit = command.issue().unwrap();
    assert_eq!(unit.command(), vec![0x1C, 0x01, 0x0A, 0x03, 0x04, 0x08]);
    assert_eq!(unit.data_size(), 0x0304);
    assert_eq!(unit.process_result(good(vec![1])).unwrap(), vec![1]);
    command.page_code(None);
    assert_eq!(command.issue().unwrap().command(), vec![0x1C, 0x00, 0x00, 0x03, 0x04, 0x08]);
}

#[test]
fn report_identifying_information_packs() {
    let mut command = ReportIdentifyingInformationCommand::new();
    command.allocation_length(0x0102_0304).information_type(0x7F).control(0x09);
    let unit = command.issue().unwrap();
    assert_eq!(unit.command(), vec![0xA3, 0x05, 0x00, 0x00, 0x00, 0x00, 0x01, 0x02, 0x03, 0x04, 0xFE, 0x09]);
    assert_eq!(unit.data_size(), 0x0102_0304);
    command.information_type(0x80);
    assert_eq!(out_of_bounds(command.issue()), ("information type", 0x7F, 0x80));
}

#[test]
fn set_identifying_information_packs() {
    let mut command = SetIdentifyingInformationCommand::new();
    command.information_type(0x01).control(0x0D).parameter(b"a name");
    let unit = command.issue().unwrap();
    assert_eq!(unit.command(), vec![0xA4, 0x06, 0x00, 0x00, 0x00, 0x00, 0x00, 0x00, 0x00, 0x06, 0x02, 0x0D]);
    assert_eq!(unit.data(), b"a name".to_vec());
    command.information_type(0xFF);
    assert_eq!(out_of_bounds(command.issue()), ("information type", 0x7F, 0xFF));
}

#[test]
fn report_supported_operation_codes_packs_and_reads() {
    let mut command = ReportSupportedOperationCodesCommand::new();
    command
        .return_command_timeouts_descriptor(true)
        .reporting_options(0)
        .requested_operation_code(0x9E)
        .requested_service_action(0x0010)
        .allocation_length(0x0000_0400)
        .control(0x0F);
    let unit = command.issue().unwrap();
    assert_eq!(unit.command(), vec![0xA3, 0x0C, 0x80, 0x9E, 0x00, 0x10, 0x00, 0x00, 0x04, 0x00, 0x00, 0x0F]);
    let mut answer = vec![0x00, 0x00, 0x00, 0x1C];
    answer.extend_from_slice(&[0x12, 0x00, 0xFF, 0xFF, 0x00, 0x00, 0x00, 0x06]);
    answer.extend_from_slice(&[0x9E, 0x00, 0x00, 0x10, 0x00, 0x03, 0x00, 0x10]);
    answer.extend_from_slice(&[0x00, 0x0A, 0x00, 0x21, 0x01, 0x02, 0x03, 0x04, 0x05, 0x06, 0x07, 0x08]);
    answer.extend_from_slice(&[0xFF; 8]);
    match unit.process_result(good(answer)).unwrap() {
        report_supported_operation_codes::CommandResult::AllCommands(all) => {
            assert_eq!(all.required_allocation_length, 32);
            assert_eq!(all.descriptors.len(), 2);
            assert_eq!(all.descriptors[0].operation_code, 0x12);
            assert_eq!(all.descriptors[0].service_action, None);
            assert_eq!(all.descriptors[0].cdb_length, 6);
            assert!(all.descriptors[0].timeout_descriptor.is_none());
            assert_eq!(all.descriptors[1].operation_code, 0x9E);
            assert_eq!(all.descriptors[1].service_action, Some(0x0010));
            assert_eq!(all.descriptors[1].cdb_length, 16);
            let timeouts = all.descriptors[1].timeout_descriptor.unwrap();
            assert_eq!(timeouts.command_specific, 0x21);
            assert_eq!(timeouts.nominal_command_processing_timeout, 0x0102_0304);
            assert_eq!(timeouts.recommend_command_timeout, 0x0506_0708);
        }
        _ => panic!("all commands"),
    }
    command.reporting_options(3);
    assert_eq!(command.issue().unwrap().command()[2], 0x83);
    match command.issue().unwrap().process_result(good(vec![0, 0x05, 0, 1, 0xEE])).unwrap() {
        report_supported_operation_codes::CommandResult::OneCommand(one) => {
            assert_eq!(one.support, 5);
            assert_eq!(one.cdb_usage_data, vec![0xEE]);
            assert!(one.timeout_descriptor.is_none());
        }
        _ => panic!("one command"),
    }
    command.reporting_options(4);
    match command.issue().unwrap().process_result(good(vec![4, 5])).unwrap() {
        report_supported_operation_codes::CommandResult::Other(bytes) => assert_eq!(bytes, vec![4, 5]),
        _ => panic!("other"),
    }
    command.reporting_options(8);
    assert_eq!(out_of_bounds(command.issue()), ("reporting options", 7, 8));
}

#[test]
fn report_supported_task_management_functions_packs_and_reads() {
    let mut command = ReportSupportedTaskManagementFunctionsCommand::new();
    command.return_extended_parameter_data(true).control(0x2A);
    let unit = command.issue().unwrap();
    assert_eq!(unit.command(), vec![0xA3, 0x0D, 0x80, 0x00, 0x00, 0x00, 0x00, 0x00, 0x00, 0x10, 0x00, 0x2A]);
    assert_eq!(unit.data_size(), 16);
    let answer = vec![0xA8, 0x05, 0x00, 0x0C, 0x01, 0x00, 0x54, 0x02, 0x11, 0x22, 0x33, 0x44, 0x55, 0x66, 0x77, 0x88];
    let report = unit.process_result(good(answer)).unwrap();
    assert!(report.abort_task_supported);
    assert!(!report.abort_task_set_supported);
    assert!(report.clear_aca_supported);
    assert!(!report.clear_task_set_supported);
    assert!(report.logical_unit_reset_supported);
    assert!(!report.query_task_supported);
    assert!(report.query_asynchronous_event_supported);
    assert!(!report.query_task_set_supported);
    assert!(report.i_t_nexus_reset_supported);
    assert!(report.task_management_function_timeouts_valid);
    assert!(!report.abort_task_timeout_selector);
    assert!(report.abort_task_set_timeout_selector);
    assert!(!report.clear_aca_timeout_selector);
    assert!(report.clear_task_set_timeout_selector);
    assert!(!report.logical_unit_reset_timeout_selector);
    assert!(report.query_task_timeout_selector);
    assert!(!report.query_asynchronous_event_timeout_selector);
    assert!(report.query_task_set_timeout_selector);
    assert!(!report.i_t_nexus_reset_timeout_selector);
    assert_eq!(report.task_management_functions_long_timeout, 0x1122_3344);
    assert_eq!(report.task_management_functions_short_timeout, 0x5566_7788);
}

#[test]
fn request_sense_packs_and_reads() {
    let mut command = RequestSenseCommand::new();
    command.descriptor_format(true).control(0x18);
    let unit = command.issue().unwrap();
    assert_eq!(unit.command(), vec![0x03, 0x01, 0x00, 0x00, 0xFC, 0x18]);
    assert_eq!(unit.data_size(), 252);
    assert_eq!(unit.data().len(), 252);
    let mut result = good(vec![0x72, 0x05, 0x24, 0x00, 0xFF]);
    result.transfered_data_length = 4;
    match unit.process_result(result).unwrap() {
        SenseData::Present(bytes) => assert_eq!(bytes, vec![0x72, 0x05, 0x24, 0x00]),
        SenseData::Absent => panic!("sense data"),
    }
    let mut result = good(vec![0x72, 0x05]);
    result.transfered_data_length = 0;
    assert!(matches!(unit.process_result(result).unwrap(), SenseData::Absent));
}

#[test]
fn sanitize_packs() {
    let mut command = SanitizeCommand::new();
    command
        .immediate(true)
        .zoned_no_reset(false)
        .allow_unrestricted_sanitize_exit(true)
        .service_action(sanitize::ServiceAction::ExitFailureMode)
        .control(0x07);
    let unit = command.issue().unwrap();
    assert_eq!(unit.command(), vec![0x43, 0xBF, 0x00, 0x00, 0x00, 0x00, 0x00, 0x00, 0x04, 0x07]);
    assert_eq!(unit.data(), vec![0, 0, 0, 0]);
    {
        let mut list = command.parameter();
        list.invert(true).test(2).overwrite_count(0x15).initialization_pattern(&[0xDE, 0xAD, 0xBE]);
        list.done().unwrap();
    }
    command.service_action(sanitize::ServiceAction::Overwrite);
    let unit = command.issue().unwrap();
    assert_eq!(unit.command(), vec![0x43, 0xA1, 0x00, 0x00, 0x00, 0x00, 0x00, 0x00, 0x07, 0x07]);
    let mut expected: Vec<u8> = vec![0xD5, 0x00, 0x00, 0x03];
    expected.extend_from_slice(&[0xDE, 0xAD, 0xBE]);
    assert_eq!(unit.data(), expected);
    assert_eq!(unit.data_size(), 7);
    {
        let mut list = command.parameter();
        list.test(4);
        assert_eq!(out_of_bounds_of(list.done().err()), ("test", 3, 4));
    }
    {
        let mut list = command.parameter();
        list.overwrite_count(0x20);
        assert_eq!(out_of_bounds_of(list.done().err()), ("overwrite count", 0x1F, 0x20));
    }
    {
        let mut list = command.parameter();
        list.initialization_pattern(&vec![0; 0x1_0000]);
        assert_eq!(
            out_of_bounds_of(list.done().err()),
            ("initialization pattern length", 0xFFFF, 0x1_0000)
        );
    }
    assert_eq!(command.issue().unwrap().data(), expected);
    assert_eq!(sanitize::ServiceAction::BlockErase.code(), 2);
    assert_eq!(sanitize::ServiceAction::CryptographicErase.code(), 3);
}

#[test]
fn stream_control_packs() {
    let mut command = StreamControlCommand::new();
    command.stream_control(2).stream_identifier(0x0A0B).control(0x0C);
    let unit = command.issue().unwrap();
    assert_eq!(unit.command(), vec![0x9E, 0x54, 0x00, 0x00, 0x0A, 0x0B, 0x00, 0x00, 0x00, 0x00, 0x00, 0x00, 0x00, 0x00, 0x00, 0x0C]);
    assert_eq!(unit.data(), vec![0; 8]);
    assert_eq!(unit.data_size(), 8);
    assert_eq!(unit.direction(), DataDirection::ToDevice);
    {
        let mut data = command.parameter();
        data.assigned_stream_identifier(0x1234);
        data.done().unwrap();
    }
    assert_eq!(command.issue().unwrap().data(), vec![0x07, 0x00, 0x00, 0x00, 0x12, 0x34, 0x00, 0x00]);
    command.stream_control(4);
    assert_eq!(out_of_bounds(command.issue()), ("stream control", 3, 4));
}

#[test]
fn unmap_packs() {
    let mut command = UnmapCommand::new();
    command.anchor(true).group_number(0x1B).control(0x03);
    {
        let mut list = command.parameter();
        list.add_block_descriptor(0x0102_0304_0506_0708, 0x1112_1314)
            .add_block_descriptor(0x2122_2324_2526_2728, 0x3132_3334);
        list.done().unwrap();
    }
    let unit = command.issue().unwrap();
    assert_eq!(unit.command(), vec![0x42, 0x01, 0x00, 0x00, 0x00, 0x00, 0x1B, 0x00, 0x28, 0x03]);
    let mut expected: Vec<u8> = vec![0x00, 0x26, 0x00, 0x20, 0x00, 0x00, 0x00, 0x00];
    expected.extend_from_slice(&[0x01, 0x02, 0x03, 0x04, 0x05, 0x06, 0x07, 0x08, 0x11, 0x12, 0x13, 0x14, 0x00, 0x00, 0x00, 0x00]);
    expected.extend_from_slice(&[0x21, 0x22, 0x23, 0x24, 0x25, 0x26, 0x27, 0x28, 0x31, 0x32, 0x33, 0x34, 0x00, 0x00, 0x00, 0x00]);
    assert_eq!(unit.data(), expected);
    assert_eq!(unit.data_size(), 40);
    assert_eq!(unit.direction(), DataDirection::ToDevice);
    {
        let mut list = command.parameter();
        for i in 0..4096u32 {
            list.add_block_descriptor(i as u64, 1);
        }
        assert_eq!(
            out_of_bounds_of(list.done().err()),
            ("parameter list length", 0xFFFF, 8 + 16 * 4096)
        );
    }
    assert_eq!(command.issue().unwrap().data(), expected);
    {
        let mut list = command.parameter();
        for i in 0..4095u32 {
            list.add_block_descriptor(i as u64, 1);
        }
        list.done().unwrap();
    }
    let unit = command.issue().unwrap();
    assert_eq!(unit.data().len(), 8 + 16 * 4095);
    assert_eq!(&unit.command()[7..9], &[0xFF, 0xF8]);
    assert_eq!(&unit.data()[..4], &[0xFF, 0xF6, 0xFF, 0xF0]);
    command.group_number(0x20);
    assert_eq!(out_of_bounds(command.issue()), ("group number", 0x1F, 0x20));
    // A fresh command sends a header of zeros.
    let unit = UnmapCommand::new().issue().unwrap();
    assert_eq!(unit.data(), vec![0; 8]);
    assert_eq!(&unit.command()[7..9], &[0, 0]);
}

#[test]
fn a_transfer_unit_that_asks_for_too_much_is_refused() {
    let unit = scsir::command::inquiry::ThisCommand::<u16, u32> {
        command_buffer: vec![0x12, 0, 0, 0xFF, 0xFF, 0],
        element_length: 0x4000,
        phantom_data: PhantomData,
    };
    assert_eq!(unit.data_size(), 0xFFFF);
    assert_eq!(bad_argument(unit.process_result(good(vec![]))), "element length is out of bounds");
    assert!(matches!(unit.process_result(transport_failure(4)), Err(Error::Io(4))));
    let unit = scsir::command::log_sense::ThisCommand::<(), u8> {
        command_buffer: vec![],
        element_length: 0x1_0000,
        phantom_data: PhantomData,
    };
    assert_eq!(bad_argument(unit.process_result(good(vec![]))), "element length is out of bounds");
}

#[test]
fn a_copy_of_a_builder_issues_the_same() {
    let mut command = SendDiagnosticCommand::new();
    command.self_test_code(3).control(0x40).parameter(&[1, 2, 3]);
    let copy = command.clone();
    command.parameter(&[9]);
    let unit = copy.issue().unwrap();
    assert_eq!(unit.command(), vec![0x1D, 0x60, 0x00, 0x00, 0x03, 0x40]);
    assert_eq!(unit.data(), vec![1, 2, 3]);
    assert_eq!(command.issue().unwrap().data(), vec![9]);
    assert_eq!(command.issue().unwrap().command(), vec![0x1D, 0x60, 0x00, 0x00, 0x01, 0x40]);
}

#[test]
fn builders_hang_on_the_device() {
    let scsi = scsir::Scsi::from_descriptor(std::path::PathBuf::from("/dev/sg1"), (), true, true)
        .unwrap();
    assert_eq!(scsi.read().issue_10().unwrap().command()[0], 0x28);
    assert_eq!(scsi.test_unit_ready().issue().unwrap().command(), vec![0; 6]);
    assert_eq!(scsi.inquiry().issue().unwrap().command()[0], 0x12);
    assert_eq!(scsi.unmap().issue().unwrap().command()[0], 0x42);
    assert_eq!(scsi.format_unit().issue().unwrap().command()[0], 0x04);
    assert_eq!(scsi.ata_passthru().issue_16().unwrap().command()[0], 0x85);
    assert_eq!(scsi.write_same().issue_16().unwrap().command()[0], 0x93);
    assert_eq!(scsi.write_stream().issue_16().unwrap().command()[0], 0x9A);
    assert_eq!(scsi.write_buffer().issue().unwrap().command()[0], 0x3B);
    assert_eq!(scsi.read_buffer().issue_10().unwrap().command()[0], 0x3C);
    assert_eq!(scsi.persistent_reserve_out().issue().unwrap().command()[0], 0x5F);
    assert_eq!(scsi.sanitize().issue().unwrap().command()[0], 0x43);
    assert_eq!(scsi.request_sense().issue().unwrap().command()[0], 0x03);
}
