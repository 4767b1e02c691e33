//! The bound check, the pieces that received bytes are cut into, the two
//! checks on what a transfer brought back, and the passthrough headers.

use scsir::command::{
    be_u64_chunks, bitfield_bound_check, blocks_to_bytes, blocks_to_len, check_bounds,
    count_chunks, fits_bits, get_array, get_chunk, payload, stream_control, transfer_check,
    Bound, Command,
};
use scsir::os::{linux, windows};
use scsir::result_data::Status;
use scsir::command::sense::{SenseData, MAX_SENSE_BUFFER_LENGTH};
use scsir::{DataDirection, Error, ResultData, Scsi};
use std::path::PathBuf;
use std::time::Duration;

fn bound_error(result: Result<(), Error>) -> (&'static str, u64, u64) {
    match result {
        Err(Error::ArgumentOutOfBounds(e)) => (e.name, e.max, e.given),
        other => panic!("no bound error: {:?}", other),
    }
}

fn envelope(ioctl_result: i32, status: Status, sense: Option<Vec<u8>>) -> ResultData {
    ResultData {
        ioctl_result,
        os_error: 9,
        transfered_data_length: 3,
        data: vec![1, 2, 3],
        transfered_sense_length: sense.as_ref().map(|s| s.len()).unwrap_or(0),
        sense_buffer: match sense {
            Some(bytes) => SenseData::Present(bytes),
            None => SenseData::Absent,
        },
        status,
        host_status: 0,
        driver_status: 0,
    }
}

#[test]
fn two_hundred_and_fifty_six_does_not_fit_eight_bits() {
    assert_eq!(bound_error(bitfield_bound_check(256, 8, "value")), ("value", 255, 256));
    assert!(bitfield_bound_check(255, 8, "value").is_ok());
}

#[test]
fn a_value_fits_when_it_is_below_two_to_the_width() {
    for width in 0..64u32 {
        let limit = 1u64 << width;
        assert!(bitfield_bound_check(limit - 1, width, "x").is_ok());
        assert_eq!(bound_error(bitfield_bound_check(limit, width, "x")), ("x", limit - 1, limit));
        assert_eq!(
            bound_error(bitfield_bound_check(u64::MAX, width, "y")),
            ("y", limit - 1, u64::MAX)
        );
        assert!(fits_bits(limit - 1, width));
        assert!(!fits_bits(limit, width));
    }
    assert!(bitfield_bound_check(0, 0, "nothing").is_ok());
    assert_eq!(bound_error(bitfield_bound_check(1, 0, "nothing")), ("nothing", 0, 1));
    for width in [64u32, 65, 128, u32::MAX] {
        assert!(bitfield_bound_check(u64::MAX, width, "wide").is_ok());
        assert!(fits_bits(u64::MAX, width));
    }
}

#[test]
fn the_first_bound_that_fails_is_reported() {
    let bounds = [
        Bound { value: 7, bits: 3, name: "first" },
        Bound { value: 8, bits: 3, name: "second" },
        Bound { value: 9, bits: 3, name: "third" },
    ];
    assert_eq!(bound_error(check_bounds(&bounds)), ("second", 7, 8));
    assert!(check_bounds(&bounds[..1]).is_ok());
    assert!(check_bounds(&[]).is_ok());
    assert_eq!(bound_error(check_bounds(&bounds[2..])), ("third", 7, 9));
}

#[test]
fn data_is_checked_against_the_block_size() {
    assert!(transfer_check(1024, 512, 16).is_ok());
    assert!(transfer_check(0, 512, 16).is_ok());
    assert!(matches!(
        transfer_check(1000, 512, 16),
        Err(Error::BadArgumentValue {
            message: "parameter length should be a multiple of logical block size, which is",
            value: 512,
        })
    ));
    assert_eq!(
        bound_error(transfer_check(0x1_0000 * 2, 2, 16)),
        ("parameter length", 0xFFFF * 2, 0x2_0000)
    );
    assert!(transfer_check(0xFFFF * 2, 2, 16).is_ok());
    assert_eq!(bound_error(transfer_check(4, 4, 0)), ("parameter length", 0, 4));
    assert_eq!(
        bound_error(transfer_check(33_554_432, 512, 16)),
        ("parameter length", 33_553_920, 33_554_432)
    );
}

#[test]
fn received_bytes_are_cut_into_pieces() {
    let bytes = [1u8, 2, 3, 4, 5];
    let (head, rest) = get_array::<2>(&bytes);
    assert_eq!((head, rest), ([1, 2], &[3u8, 4, 5][..]));
    let (head, rest) = get_array::<5>(&bytes);
    assert_eq!((head, rest.len()), ([1, 2, 3, 4, 5], 0));
    let (head, rest) = get_array::<7>(&bytes);
    assert_eq!((head, rest.len()), ([1, 2, 3, 4, 5, 0, 0], 0));
    let (head, rest) = get_array::<0>(&bytes);
    assert_eq!((head.len(), rest), (0, &bytes[..]));
    let (head, rest) = get_array::<3>(&[]);
    assert_eq!((head, rest.len()), ([0, 0, 0], 0));

    assert_eq!(count_chunks::<2>(&bytes), 3);
    assert_eq!(count_chunks::<5>(&bytes), 1);
    assert_eq!(count_chunks::<6>(&bytes), 1);
    assert_eq!(count_chunks::<1>(&bytes), 5);
    assert_eq!(count_chunks::<4>(&[]), 0);
    assert_eq!(get_chunk::<2>(&bytes, 0), [1, 2]);
    assert_eq!(get_chunk::<2>(&bytes, 1), [3, 4]);
    assert_eq!(get_chunk::<2>(&bytes, 2), [5, 0]);

    assert_eq!(
        be_u64_chunks(&[0, 0, 0, 0, 0, 0, 0, 1, 0xFF]),
        vec![1, 0xFF00_0000_0000_0000]
    );
    assert!(be_u64_chunks(&[]).is_empty());
}

#[test]
fn blocks_are_counted_without_overflow() {
    assert_eq!(blocks_to_bytes(0), 0);
    assert_eq!(blocks_to_bytes(3), 1536);
    assert_eq!(blocks_to_bytes(0x007F_FFFF), 0xFFFF_FE00);
    assert_eq!(blocks_to_bytes(0x0080_0000), u32::MAX);
    assert_eq!(blocks_to_bytes(u32::MAX), u32::MAX);
    assert_eq!(blocks_to_len(3), 1536);
}

#[test]
fn status_bytes_have_names() {
    let named: [(u8, Status); 11] = [
        (0x00, Status::Good),
        (0x02, Status::CheckCondition),
        (0x04, Status::ConditionMet),
        (0x08, Status::Busy),
        (0x10, Status::Intermediate),
        (0x14, Status::IntermediateConditionMet),
        (0x18, Status::ReservationConflict),
        (0x22, Status::CommandTerminated),
        (0x28, Status::TaskSetFull),
        (0x30, Status::AcaActive),
        (0x40, Status::TaskAborted),
    ];
    for (code, status) in named {
        assert_eq!(Status::from_code(code), status);
        assert_eq!(status.code(), code);
    }
    for code in 0..=255u8 {
        assert_eq!(Status::from_code(code).code(), code);
    }
    assert_eq!(Status::from_code(0x01), Status::Other(0x01));
}

#[test]
fn a_transport_failure_is_never_a_device_error() {
    // The transport failed, and the device fields say failure too.
    let result = envelope(-1, Status::CheckCondition, Some(vec![0x70, 0, 5]));
    assert!(matches!(result.check_ioctl_error(), Err(Error::Io(9))));
    assert!(matches!(result.check_errors(), Err(Error::Io(9))));
    let result = envelope(1, Status::Good, None);
    assert!(matches!(result.check_errors(), Err(Error::Io(9))));
}

#[test]
fn a_device_failure_carries_status_and_sense() {
    let result = envelope(0, Status::CheckCondition, Some(vec![0x70, 0, 5]));
    assert!(result.check_ioctl_error().is_ok());
    match result.check_common_error() {
        Err(Error::Sense { status, sense: SenseData::Present(bytes) }) => {
            assert_eq!(status, Status::CheckCondition);
            assert_eq!(bytes, vec![0x70, 0, 5]);
        }
        other => panic!("no device error: {:?}", other),
    }
    match result.check_errors() {
        Err(Error::Sense { status, sense: SenseData::Present(bytes) }) => {
            assert_eq!(status, Status::CheckCondition);
            assert_eq!(bytes, vec![0x70, 0, 5]);
        }
        other => panic!("no device error: {:?}", other),
    }
    // A bad status without sense data, and sense data beside a good status.
    let result = envelope(0, Status::Busy, None);
    assert!(matches!(
        result.check_errors(),
        Err(Error::Sense { status: Status::Busy, sense: SenseData::Absent })
    ));
    let result = envelope(0, Status::Good, Some(vec![0xF0]));
    assert!(matches!(
        result.check_errors(),
        Err(Error::Sense { status: Status::Good, sense: SenseData::Present(_) })
    ));
    let result = envelope(0, Status::Good, None);
    assert!(result.check_ioctl_error().is_ok());
    assert!(result.check_common_error().is_ok());
    assert!(result.check_errors().is_ok());
    assert_eq!(result.data(), &vec![1, 2, 3]);
}

#[test]
fn sense_data_is_what_the_device_wrote() {
    let buffer = [0x70u8, 0x00, 0x05, 0x00];
    assert!(matches!(SenseData::parse(&buffer, 0), SenseData::Absent));
    assert!(matches!(SenseData::parse(&[], 4), SenseData::Absent));
    match SenseData::parse(&buffer, 3) {
        SenseData::Present(bytes) => assert_eq!(bytes, vec![0x70, 0x00, 0x05]),
        SenseData::Absent => panic!("sense data"),
    }
    match SenseData::parse(&buffer, 9) {
        SenseData::Present(bytes) => assert_eq!(bytes, buffer.to_vec()),
        SenseData::Absent => panic!("sense data"),
    }
    assert!(SenseData::parse(&buffer, 1).is_present());
    assert!(!SenseData::Absent.is_present());
    assert!(matches!(
        SenseData::Present(vec![1, 2]).duplicate(),
        SenseData::Present(bytes) if bytes == vec![1, 2]
    ));
    assert_eq!(MAX_SENSE_BUFFER_LENGTH, 252);
}

#[test]
fn the_linux_header_of_a_transfer() {
    let request = linux::request(10, DataDirection::FromDevice, 4096, 60_000);
    assert_eq!(request.interface_id, 'S' as i32);
    assert_eq!(request.data_direction, -3);
    assert_eq!(request.command_length, 10);
    assert_eq!(request.max_sense_buffer_length, 252);
    assert_eq!(request.iovec_count, 0);
    assert_eq!(request.data_length, 4096);
    assert!(request.with_data);
    assert_eq!(request.timeout, 60_000);
    assert_eq!(request.flags, 0);
    assert_eq!(request.pack_id, 0);

    // No payload pointer for a transfer of no bytes.
    let request = linux::request(6, DataDirection::NoData, 0, 1);
    assert!(!request.with_data);
    assert_eq!(request.data_direction, -1);
    // The timeout is cut to the field, not wrapped.
    assert_eq!(linux::request(6, DataDirection::NoData, 0, u32::MAX as u128 + 1).timeout, u32::MAX);
    assert_eq!(linux::request(6, DataDirection::NoData, 0, u128::MAX).timeout, u32::MAX);
    assert_eq!(linux::clamp_millis(u32::MAX as u128), u32::MAX);
    assert_eq!(linux::clamp_millis(0), 0);

    assert_eq!(linux::direction_code(DataDirection::ToDevice), -2);
    assert_eq!(linux::direction_code(DataDirection::ToFromDevice), -4);
    assert_eq!(linux::direction_code(DataDirection::Unknown), -5);
    assert!(linux::is_scsi_version(30000));
    assert!(linux::is_scsi_version(40045));
    assert!(!linux::is_scsi_version(29999));
    assert_eq!((linux::SG_IO, linux::SG_GET_VERSION_NUM), (0x2285, 0x2282));
}

#[test]
fn the_linux_outcome_of_a_transfer() {
    let request = linux::request(10, DataDirection::FromDevice, 4096, 1000);
    let mut sense = vec![0u8; MAX_SENSE_BUFFER_LENGTH];
    sense[0] = 0x72;
    sense[1] = 0x05;
    let reply = linux::SgIoReply {
        ioctl_result: 0,
        os_error: 0,
        status: 0x02,
        masked_status: 0x01,
        message_status: 0,
        sense_buffer_written: 2,
        host_status: 7,
        driver_status: 8,
        residual_count: 96,
        duration: 0,
        info: 0,
    };
    let result = linux::result(&request, &reply, &sense, vec![5; 4096]);
    assert_eq!(result.ioctl_result, 0);
    assert_eq!(result.transfered_data_length, 4000);
    assert_eq!(result.transfered_sense_length, 2);
    assert!(matches!(&result.sense_buffer, SenseData::Present(bytes) if bytes == &[0x72, 0x05]));
    assert_eq!(result.status, Status::CheckCondition);
    assert_eq!((result.host_status, result.driver_status), (7, 8));
    assert_eq!(result.data.len(), 4096);
    assert!(matches!(result.check_errors(), Err(Error::Sense { .. })));

    // No sense length and no sense record where the device wrote none.
    let quiet = linux::SgIoReply { status: 0, sense_buffer_written: 0, residual_count: 0, ..reply };
    let result = linux::result(&request, &quiet, &sense, vec![]);
    assert_eq!(result.transfered_sense_length, 0);
    assert!(matches!(result.sense_buffer, SenseData::Absent));
    assert_eq!(result.transfered_data_length, 4096);
    assert!(result.check_errors().is_ok());

    let failed = linux::SgIoReply { ioctl_result: -1, os_error: 13, ..reply };
    let result = linux::result(&request, &failed, &sense, vec![]);
    assert!(matches!(result.check_errors(), Err(Error::Io(13))));
}

#[test]
fn the_windows_header_of_a_transfer() {
    let request = windows::request(&[0x28, 1, 2, 3], DataDirection::FromDevice, 512, 60);
    assert_eq!(request.cdb_length, 4);
    assert_eq!(request.sense_info_length, 252);
    assert_eq!(request.data_in, 1);
    assert_eq!(request.data_transfer_length, 512);
    assert_eq!(request.time_out_value, 60);
    assert!(request.with_data);
    assert_eq!(request.cdb, [0x28, 1, 2, 3, 0, 0, 0, 0, 0, 0, 0, 0, 0, 0, 0, 0]);

    let request = windows::request(&[0; 16], DataDirection::NoData, 0, 0);
    assert!(!request.with_data);
    assert_eq!(request.data_in, 2);
    // At least a second, and cut to the field, not wrapped.
    assert_eq!(request.time_out_value, 1);
    assert_eq!(windows::clamp_seconds(u64::MAX), u32::MAX);
    assert_eq!(windows::clamp_seconds(u32::MAX as u64 + 1), u32::MAX);
    assert_eq!(windows::clamp_seconds(1), 1);
    assert_eq!(windows::direction_code(DataDirection::ToDevice), 0);
    assert_eq!(windows::direction_code(DataDirection::ToFromDevice), 3);
    assert_eq!(windows::direction_code(DataDirection::Unknown), 2);
    assert_eq!(windows::IOCTL_SCSI_PASS_THROUGH_DIRECT, 315412);
    assert_eq!(windows::IOCTL_SCSI_GET_ADDRESS, 266264);
}

#[test]
fn the_windows_outcome_of_a_transfer() {
    let reply = windows::PassThroughReply {
        success: true,
        os_error: 0,
        scsi_status: 0x08,
        sense_info_length: 0,
        data_transfer_length: 100,
    };
    let result = windows::result(&reply, &[0; 252], vec![1; 512]);
    assert_eq!(result.ioctl_result, 0);
    assert_eq!(result.transfered_data_length, 100);
    assert_eq!(result.status, Status::Busy);
    assert!(matches!(result.sense_buffer, SenseData::Absent));
    assert!(matches!(result.check_errors(), Err(Error::Sense { status: Status::Busy, .. })));

    let failed = windows::PassThroughReply { success: false, os_error: 5, ..reply };
    let result = windows::result(&failed, &[0; 252], vec![]);
    assert_eq!(result.ioctl_result, -1);
    assert!(matches!(result.check_errors(), Err(Error::Io(5))));
}

#[test]
fn a_device_is_taken_over_only_if_it_is_a_scsi_block_device() {
    let path = PathBuf::from("/dev/sg0");
    assert!(matches!(
        Scsi::from_descriptor(path.clone(), 3, false, true),
        Err(Error::NotBlockDevice(p)) if p == path
    ));
    assert!(matches!(
        Scsi::from_descriptor(path.clone(), 3, false, false),
        Err(Error::NotBlockDevice(p)) if p == path
    ));
    assert!(matches!(
        Scsi::from_descriptor(path.clone(), 3, true, false),
        Err(Error::NotScsiDevice(p)) if p == path
    ));
    let mut scsi = Scsi::from_descriptor(path.clone(), 3, true, true).unwrap();
    assert_eq!(scsi.path(), &path);
    assert_eq!(*scsi.file_descriptor(), 3);
    assert_eq!(scsi.timeout(), Duration::from_millis(60_000));
    scsi.set_timeout(Duration::from_millis(1500));
    assert_eq!(scsi.timeout(), Duration::from_millis(1500));
    assert_eq!(scsi.path(), &path);

    let mut command = scsi.read();
    command.transfer_length(1);
    let unit = command.issue_10().unwrap();
    let request = scsi.sg_io_request(&unit);
    assert_eq!(request.command_length, 10);
    assert_eq!(request.data_direction, -3);
    assert_eq!(request.data_length, 512);
    assert_eq!(request.timeout, 1500);
    let request = scsi.pass_through_request(&unit);
    assert_eq!(request.cdb_length, 10);
    assert_eq!(request.data_in, 1);
    assert_eq!(&request.cdb[..2], &[0x28, 0]);
    // Half a second more than one second is one whole second.
    assert_eq!(request.time_out_value, 1);
    scsi.set_timeout(Duration::from_millis(999));
    assert_eq!(scsi.pass_through_request(&unit).time_out_value, 1);
    scsi.set_timeout(Duration::from_secs(u64::MAX));
    assert_eq!(scsi.pass_through_request(&unit).time_out_value, u32::MAX);
    assert_eq!(scsi.sg_io_request(&unit).timeout, u32::MAX);
}

#[test]
fn the_payload_is_filled_up_to_the_requested_size() {
    let short = stream_control::ThisCommand { command_buffer: vec![0; 16], data_buffer: vec![1, 2, 3] };
    assert_eq!(short.data_size(), 8);
    assert_eq!(payload(&short), vec![1, 2, 3, 0, 0, 0, 0, 0]);
    let exact = stream_control::ThisCommand {
        command_buffer: vec![0; 16],
        data_buffer: vec![8, 7, 6, 5, 4, 3, 2, 1],
    };
    assert_eq!(payload(&exact), vec![8, 7, 6, 5, 4, 3, 2, 1]);
    let long = stream_control::ThisCommand { command_buffer: vec![0; 16], data_buffer: vec![5; 10] };
    assert_eq!(payload(&long), vec![5; 10]);
}

#[test]
fn a_device_that_returns_no_address_is_no_scsi_device() {
    assert!(!windows::is_scsi_address(0));
    assert!(windows::is_scsi_address(1));
    assert!(windows::is_scsi_address(8));
    assert!(windows::is_scsi_address(u32::MAX));
}
