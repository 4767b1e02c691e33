//! PERSISTENT RESERVE IN: read the registrations and reservations of the
//! device.

use vstd::prelude::*;
use crate::bitfield::{
    field_value, get_field, get_flag, get_u16, get_u32, get_u8, pack_vec, packed, width_upto, zeros,
    Field,
};
use crate::command::{
    after, be_u64_chunks, be_u64_chunks_spec, check_bounds, chunk, first_failure, get_array, zeroed,
    Bound, Command,
};
use crate::data_direction::DataDirection;
use crate::error::Error;
use crate::result_data::ResultData;
use crate::scsi::Scsi;

verus! {

pub const OPERATION_CODE: u8 = 0x5E;

/// The options of a persistent reserve in. They are checked when the command is
/// issued, not when they are set.
#[derive(Clone, Copy, Debug)]
pub struct PersistentReserveInCommand {
    /// Its code must fit five bits.
    pub service_action: ServiceAction,
    pub allocation_length: u16,
    pub control: u8,
}

impl PersistentReserveInCommand {
    /// A persistent reserve in that reads the keys into no room.
    pub fn new() -> (r: Self)
        ensures
            r.service_action == ServiceAction::ReadKeys,
            r.allocation_length == 0,
            r.control == 0,
    {
        PersistentReserveInCommand {
            service_action: ServiceAction::ReadKeys,
            allocation_length: 0,
            control: 0,
        }
    }

    /// Sets the service action: its code must be below 0x20.
    pub fn service_action(&mut self, value: ServiceAction) -> (r: &mut Self)
        ensures
            *r == (PersistentReserveInCommand { service_action: value, ..*old(self) }),
            *final(self) == *final(r),
    {
        self.service_action = value;
        self
    }

    /// Sets the number of bytes to make room for.
    pub fn allocation_length(&mut self, value: u16) -> (r: &mut Self)
        ensures
            *r == (PersistentReserveInCommand { allocation_length: value, ..*old(self) }),
            *final(self) == *final(r),
    {
        self.allocation_length = value;
        self
    }

    /// Sets the control byte.
    pub fn control(&mut self, value: u8) -> (r: &mut Self)
        ensures
            *r == (PersistentReserveInCommand { control: value, ..*old(self) }),
            *final(self) == *final(r),
    {
        self.control = value;
        self
    }

    /// The descriptor block of PERSISTENT RESERVE IN: ten bytes.
    pub open spec fn layout(&self) -> Seq<Field> {
        seq![
            Field { width: 8, value: OPERATION_CODE as u64 },
            Field { width: 3, value: 0 },
            Field { width: 5, value: self.service_action.code() as u64 },
            Field { width: 40, value: 0 },
            Field { width: 16, value: self.allocation_length as u64 },
            Field { width: 8, value: self.control as u64 },
        ]
    }

    /// The bound checks that `issue` makes, in their order.
    pub open spec fn issue_bounds(&self) -> Seq<Bound> {
        seq![Bound { value: self.service_action.code() as u64, bits: 5, name: "service action" }]
    }

    /// What `issue` finds wrong with the options, if anything: the first
    /// bound that fails.
    pub open spec fn issue_check(&self) -> Option<Error> {
        match first_failure(self.issue_bounds()) {
            Some(e) => Some(e),
            None => {
                None
            },
        }
    }

    /// Checks the service action and packs the descriptor block.
    pub fn issue(&self) -> (r: Result<ThisCommand, Error>)
        ensures
            match self.issue_check() {
                Some(e) => r == Err::<ThisCommand, Error>(e),
                None => r matches Ok(c) && c.command_buffer@ == packed(self.layout())
                    && c.service_action == self.service_action
                        && c.allocation_length == self.allocation_length,
            },
    {
        let bounds = [
            Bound { value: u8::from(self.service_action) as u64, bits: 5, name: "service action" },
        ];
        assert(bounds@ =~= self.issue_bounds());
        check_bounds(&bounds)?;
        reveal_with_fuel(width_upto, 7);
        let command_buffer = pack_vec::<10>(
            &[
                Field { width: 8, value: OPERATION_CODE as u64 },
                Field { width: 3, value: 0 },
                Field { width: 5, value: u8::from(self.service_action) as u64 },
                Field { width: 40, value: 0 },
                Field { width: 16, value: self.allocation_length as u64 },
                Field { width: 8, value: self.control as u64 },
            ],
        );
        Ok(
            ThisCommand {
                command_buffer,
                service_action: self.service_action,
                allocation_length: self.allocation_length,
            },
        )
    }
}

impl<H> Scsi<H> {
    /// A persistent reserve in with its options at their defaults.
    pub fn persistent_reserve_in(&self) -> (r: PersistentReserveInCommand)
        ensures
            r.service_action == ServiceAction::ReadKeys,
            r.allocation_length == 0,
            r.control == 0,
    {
        PersistentReserveInCommand::new()
    }
}

/// The sub-operations of PERSISTENT RESERVE IN.
#[derive(Clone, Copy, Debug, PartialEq, Eq, Structural)]
pub enum ServiceAction {
    ReadKeys,
    ReadReservation,
    ReportCapabilities,
    ReadFullStatus,
    /// A service action that has no name here, by its code.
    Other(u8),
}

impl ServiceAction {
    /// The code of the service action in the descriptor block.
    pub open spec fn code(self) -> u8 {
        match self {
            ServiceAction::ReadKeys => 0x00,
            ServiceAction::ReadReservation => 0x01,
            ServiceAction::ReportCapabilities => 0x02,
            ServiceAction::ReadFullStatus => 0x03,
            ServiceAction::Other(x) => x,
        }
    }
}

impl From<ServiceAction> for u8 {
    /// The code of the service action in the descriptor block.
    fn from(value: ServiceAction) -> (r: u8) {
        match value {
            ServiceAction::ReadKeys => 0x00,
            ServiceAction::ReadReservation => 0x01,
            ServiceAction::ReportCapabilities => 0x02,
            ServiceAction::ReadFullStatus => 0x03,
            ServiceAction::Other(x) => x,
        }
    }
}

impl vstd::std_specs::convert::FromSpecImpl<ServiceAction> for u8 {
    open spec fn obeys_from_spec() -> bool {
        true
    }

    open spec fn from_spec(value: ServiceAction) -> u8 {
        value.code()
    }
}

/// The length that the device asks for: the additional length that its
/// answer declares and the eight bytes before it, as far as thirty-two bits
/// hold the sum.
pub open spec fn required_length_spec(additional_length: u32) -> u32 {
    if additional_length + 8 > u32::MAX {
        u32::MAX
    } else {
        (additional_length + 8) as u32
    }
}

fn required_length(additional_length: u32) -> (r: u32)
    ensures
        r == required_length_spec(additional_length),
{
    if additional_length > u32::MAX - 8 {
        u32::MAX
    } else {
        additional_length + 8
    }
}

/// What the READ KEYS service action reports.
#[derive(Debug)]
pub struct ReadKeysData {
    pub persistent_reservations_generation: u32,
    /// The number of bytes that the whole answer takes.
    pub required_length: u32,
    pub reservation_keys: Vec<u64>,
}

impl ReadKeysData {
    /// Whether this is what `bytes` say: four bytes of generation, four bytes
    /// of additional length, and one key for every eight bytes after them.
    /// Missing bytes count as zero.
    pub open spec fn reads(&self, bytes: Seq<u8>) -> bool {
        &&& self.persistent_reservations_generation == field_value(chunk(bytes, 8, 0), 0, 32)
        &&& self.required_length == required_length_spec(
            field_value(chunk(bytes, 8, 0), 32, 32) as u32,
        )
        &&& self.reservation_keys@ == be_u64_chunks_spec(after(bytes, 8))
    }

    /// Reads the answer to READ KEYS.
    pub fn from_bytes(bytes: &[u8]) -> (r: Self)
        ensures
            r.reads(bytes@),
    {
        let (header, rest) = get_array::<8>(bytes);
        ReadKeysData {
            persistent_reservations_generation: get_u32(header.as_slice(), 0, 32),
            required_length: required_length(get_u32(header.as_slice(), 32, 32)),
            reservation_keys: be_u64_chunks(rest),
        }
    }
}

/// What the READ RESERVATION service action reports.
#[derive(Clone, Copy, Debug)]
pub struct ReadReservationData {
    pub persistent_reservations_generation: u32,
    pub reservation_key: u64,
    pub reservation_scope: u8,
    pub reservation_type: u8,
}

impl ReadReservationData {
    /// What the twenty-four bytes of parameter data say.
    pub open spec fn parsed(data: Seq<u8>) -> ReadReservationData {
        ReadReservationData {
            persistent_reservations_generation: field_value(data, 0, 32) as u32,
            reservation_key: field_value(data, 64, 64) as u64,
            reservation_scope: field_value(data, 168, 4) as u8,
            reservation_type: field_value(data, 172, 4) as u8,
        }
    }

    /// Reads the record out of the first 24 bytes of `bytes`; missing bytes
    /// count as zero.
    pub fn from_bytes(bytes: &[u8]) -> (r: Self)
        ensures
            r == Self::parsed(chunk(bytes@, 24, 0)),
    {
        let (data, rest) = get_array::<24>(bytes);
        ReadReservationData {
            persistent_reservations_generation: get_u32(data.as_slice(), 0, 32),
            reservation_key: get_field(data.as_slice(), 64, 64),
            reservation_scope: get_u8(data.as_slice(), 168, 4),
            reservation_type: get_u8(data.as_slice(), 172, 4),
        }
    }
}

/// What the REPORT CAPABILITIES service action reports.
#[derive(Clone, Copy, Debug)]
pub struct ReportCapabilitiesData {
    pub replace_lost_reservation_capable: bool,
    pub compatible_reservation_handling: bool,
    pub specify_initiator_ports_capable: bool,
    pub target_ports_capable: bool,
    pub persist_through_power_loss_capable: bool,
    pub type_mask_valid: bool,
    pub allow_commands: u8,
    pub persist_through_power_loss_activated: bool,
    pub write_exclusive_all_registrants: bool,
    pub exclusive_access_registrants_only: bool,
    pub write_exclusive_registrants_only: bool,
    pub exclusive_access: bool,
    pub write_exclusive: bool,
    pub exclusive_access_all_registrants: bool,
}

impl ReportCapabilitiesData {
    /// What the eight bytes of parameter data say.
    pub open spec fn parsed(data: Seq<u8>) -> ReportCapabilitiesData {
        ReportCapabilitiesData {
            replace_lost_reservation_capable: field_value(data, 16, 1) != 0,
            compatible_reservation_handling: field_value(data, 19, 1) != 0,
            specify_initiator_ports_capable: field_value(data, 20, 1) != 0,
            target_ports_capable: field_value(data, 21, 1) != 0,
            persist_through_power_loss_capable: field_value(data, 23, 1) != 0,
            type_mask_valid: field_value(data, 24, 1) != 0,
            allow_commands: field_value(data, 25, 3) as u8,
            persist_through_power_loss_activated: field_value(data, 31, 1) != 0,
            write_exclusive_all_registrants: field_value(data, 32, 1) != 0,
            exclusive_access_registrants_only: field_value(data, 33, 1) != 0,
            write_exclusive_registrants_only: field_value(data, 34, 1) != 0,
            exclusive_access: field_value(data, 36, 1) != 0,
            write_exclusive: field_value(data, 38, 1) != 0,
            exclusive_access_all_registrants: field_value(data, 47, 1) != 0,
        }
    }

    /// Reads the record out of the first 8 bytes of `bytes`; missing bytes
    /// count as zero.
    pub fn from_bytes(bytes: &[u8]) -> (r: Self)
        ensures
            r == Self::parsed(chunk(bytes@, 8, 0)),
    {
        let (data, rest) = get_array::<8>(bytes);
        ReportCapabilitiesData {
            replace_lost_reservation_capable: get_flag(data.as_slice(), 16),
            compatible_reservation_handling: get_flag(data.as_slice(), 19),
            specify_initiator_ports_capable: get_flag(data.as_slice(), 20),
            target_ports_capable: get_flag(data.as_slice(), 21),
            persist_through_power_loss_capable: get_flag(data.as_slice(), 23),
            type_mask_valid: get_flag(data.as_slice(), 24),
            allow_commands: get_u8(data.as_slice(), 25, 3),
            persist_through_power_loss_activated: get_flag(data.as_slice(), 31),
            write_exclusive_all_registrants: get_flag(data.as_slice(), 32),
            exclusive_access_registrants_only: get_flag(data.as_slice(), 33),
            write_exclusive_registrants_only: get_flag(data.as_slice(), 34),
            exclusive_access: get_flag(data.as_slice(), 36),
            write_exclusive: get_flag(data.as_slice(), 38),
            exclusive_access_all_registrants: get_flag(data.as_slice(), 47),
        }
    }
}

/// One registration in the answer to READ FULL STATUS.
#[derive(Debug)]
pub struct ReadFullStatusDescriptor {
    pub reservation_key: u64,
    pub all_target_ports: bool,
    pub reservation_holder: bool,
    pub reservation_scope: u8,
    pub reservation_type: u8,
    pub relative_target_port_identifier: u16,
    pub transportid: Vec<u8>,
}

/// A registration, with the bytes of its transport id.
pub ghost struct ReadFullStatusDescriptorView {
    pub reservation_key: u64,
    pub all_target_ports: bool,
    pub reservation_holder: bool,
    pub reservation_scope: u8,
    pub reservation_type: u8,
    pub relative_target_port_identifier: u16,
    pub transportid: Seq<u8>,
}

impl View for ReadFullStatusDescriptor {
    type V = ReadFullStatusDescriptorView;

    open spec fn view(&self) -> ReadFullStatusDescriptorView {
        ReadFullStatusDescriptorView {
            reservation_key: self.reservation_key,
            all_target_ports: self.all_target_ports,
            reservation_holder: self.reservation_holder,
            reservation_scope: self.reservation_scope,
            reservation_type: self.reservation_type,
            relative_target_port_identifier: self.relative_target_port_identifier,
            transportid: self.transportid@,
        }
    }
}

/// The number of bytes of transport id that follow the twenty-four bytes of
/// header at the start of `bytes`: as many as the header declares, or all
/// that are left where fewer are.
pub open spec fn transportid_length(bytes: Seq<u8>) -> nat {
    let declared = field_value(chunk(bytes, 24, 0), 160, 32);
    let left = after(bytes, 24).len();
    if declared <= left {
        declared
    } else {
        left
    }
}

/// The registration at the start of `bytes`: a header of twenty-four bytes,
/// missing bytes counted as zero, and the transport id after it.
pub open spec fn first_descriptor(bytes: Seq<u8>) -> ReadFullStatusDescriptorView {
    let header = chunk(bytes, 24, 0);
    ReadFullStatusDescriptorView {
        reservation_key: field_value(header, 0, 64) as u64,
        all_target_ports: field_value(header, 102, 1) != 0,
        reservation_holder: field_value(header, 103, 1) != 0,
        reservation_scope: field_value(header, 104, 4) as u8,
        reservation_type: field_value(header, 108, 4) as u8,
        relative_target_port_identifier: field_value(header, 144, 16) as u16,
        transportid: after(bytes, 24).take(transportid_length(bytes) as int),
    }
}

/// The registrations that `bytes` hold, one after the other.
pub open spec fn descriptors_spec(bytes: Seq<u8>) -> Seq<ReadFullStatusDescriptorView>
    decreases bytes.len(),
{
    if bytes.len() == 0 {
        Seq::empty()
    } else {
        seq![first_descriptor(bytes)] + descriptors_spec(
            after(bytes, 24).skip(transportid_length(bytes) as int),
        )
    }
}

/// What the READ FULL STATUS service action reports.
#[derive(Debug)]
pub struct ReadFullStatusData {
    pub persistent_reservations_generation: u32,
    /// The number of bytes that the whole answer takes.
    pub required_length: u32,
    pub descriptors: Vec<ReadFullStatusDescriptor>,
}

impl ReadFullStatusData {
    /// Whether this is what `bytes` say: four bytes of generation, four bytes
    /// of additional length, and the registrations after them. Missing bytes
    /// count as zero.
    pub open spec fn reads(&self, bytes: Seq<u8>) -> bool {
        &&& self.persistent_reservations_generation == field_value(chunk(bytes, 8, 0), 0, 32)
        &&& self.required_length == required_length_spec(
            field_value(chunk(bytes, 8, 0), 32, 32) as u32,
        )
        &&& self.descriptors@.map_values(|d: ReadFullStatusDescriptor| d@) == descriptors_spec(
            after(bytes, 8),
        )
    }

    /// Reads the answer to READ FULL STATUS.
    pub fn from_bytes(bytes: &[u8]) -> (r: Self)
        ensures
            r.reads(bytes@),
    {
        let (header, rest) = get_array::<8>(bytes);
        let mut left: &[u8] = rest;
        let mut descriptors: Vec<ReadFullStatusDescriptor> = Vec::new();
        assert(descriptors@.map_values(|d: ReadFullStatusDescriptor| d@) =~= Seq::empty());
        while left.len() != 0
            invariant
                descriptors@.map_values(|d: ReadFullStatusDescriptor| d@) + descriptors_spec(left@)
                    == descriptors_spec(rest@),
            decreases left@.len(),
        {
            let (descriptor_header, left_bytes) = get_array::<24>(left);
            let declared = get_u32(descriptor_header.as_slice(), 160, 32) as usize;
            let additional_descriptor_length = if declared <= left_bytes.len() {
                declared
            } else {
                left_bytes.len()
            };
            let transportid = vstd::slice::slice_to_vec(
                vstd::slice::slice_subrange(left_bytes, 0, additional_descriptor_length),
            );
            let descriptor = ReadFullStatusDescriptor {
                reservation_key: get_field(descriptor_header.as_slice(), 0, 64),
                all_target_ports: get_flag(descriptor_header.as_slice(), 102),
                reservation_holder: get_flag(descriptor_header.as_slice(), 103),
                reservation_scope: get_u8(descriptor_header.as_slice(), 104, 4),
                reservation_type: get_u8(descriptor_header.as_slice(), 108, 4),
                relative_target_port_identifier: get_u16(descriptor_header.as_slice(), 144, 16),
                transportid,
            };
            let ghost before = descriptors@.map_values(|d: ReadFullStatusDescriptor| d@);
            proof {
                assert(descriptor@ == first_descriptor(left@));
            }
            descriptors.push(descriptor);
            let next = vstd::slice::slice_subrange(
                left_bytes,
                additional_descriptor_length,
                left_bytes.len(),
            );
            proof {
                assert(next@ =~= after(left@, 24).skip(transportid_length(left@) as int));
                assert(descriptors@.map_values(|d: ReadFullStatusDescriptor| d@) =~= before.push(
                    first_descriptor(left@),
                ));
                assert(before.push(first_descriptor(left@)) + descriptors_spec(next@) =~= before
                    + (seq![first_descriptor(left@)] + descriptors_spec(next@)));
            }
            left = next;
        }
        proof {
            assert(descriptors@.map_values(|d: ReadFullStatusDescriptor| d@) + descriptors_spec(
                left@,
            ) =~= descriptors@.map_values(|d: ReadFullStatusDescriptor| d@));
        }
        ReadFullStatusData {
            persistent_reservations_generation: get_u32(header.as_slice(), 0, 32),
            required_length: required_length(get_u32(header.as_slice(), 32, 32)),
            descriptors,
        }
    }
}

/// What PERSISTENT RESERVE IN reports, by service action.
#[derive(Debug)]
pub enum CommandResult {
    ReadKeys(ReadKeysData),
    ReadReservation(ReadReservationData),
    ReportCapabilities(ReportCapabilitiesData),
    ReadFullStatus(ReadFullStatusData),
    /// The bytes of the answer to a service action that has no name here.
    Raw(Vec<u8>),
}

impl CommandResult {
    /// Whether this is what `bytes` say in answer to `service_action`.
    pub open spec fn reads(&self, service_action: ServiceAction, bytes: Seq<u8>) -> bool {
        match service_action {
            ServiceAction::ReadKeys => *self matches CommandResult::ReadKeys(d) && d.reads(bytes),
            ServiceAction::ReadReservation => *self == CommandResult::ReadReservation(
                ReadReservationData::parsed(chunk(bytes, 24, 0)),
            ),
            ServiceAction::ReportCapabilities => *self == CommandResult::ReportCapabilities(
                ReportCapabilitiesData::parsed(chunk(bytes, 8, 0)),
            ),
            ServiceAction::ReadFullStatus => *self matches CommandResult::ReadFullStatus(d)
                && d.reads(bytes),
            ServiceAction::Other(_) => *self matches CommandResult::Raw(d) && d@ == bytes,
        }
    }
}

/// A persistent reserve in that passed its check: the packed descriptor block,
/// the service action, and the size of the buffer for the answer.
#[derive(Debug)]
pub struct ThisCommand {
    pub command_buffer: Vec<u8>,
    pub service_action: ServiceAction,
    pub allocation_length: u16,
}

impl Command for ThisCommand {
    type ReturnType = Result<CommandResult, Error>;

    open spec fn direction_spec(&self) -> DataDirection {
        DataDirection::FromDevice
    }

    open spec fn command_spec(&self) -> Seq<u8> {
        self.command_buffer@
    }

    open spec fn data_spec(&self) -> Seq<u8> {
        zeros(self.allocation_length as nat)
    }

    open spec fn data_size_spec(&self) -> u32 {
        self.allocation_length as u32
    }

    fn direction(&self) -> (r: DataDirection) {
        DataDirection::FromDevice
    }

    fn command(&self) -> (r: Vec<u8>) {
        crate::command::duplicate(self.command_buffer.as_slice())
    }

    fn data(&self) -> (r: Vec<u8>) {
        zeroed(self.allocation_length as usize)
    }

    fn data_size(&self) -> (r: u32) {
        self.allocation_length as u32
    }

    /// What the device reports, read as the service action has it, unless the
    /// transport or the device reported a failure.
    fn process_result(&self, result: ResultData) -> (r: Result<CommandResult, Error>)
        ensures
            match r {
                Ok(report) => result.passes() && report.reads(self.service_action, result.data@),
                Err(e) => result.checked(Err(e)),
            },
    {
        result.check_errors()?;
        let bytes = result.data.as_slice();
        Ok(
            match self.service_action {
                ServiceAction::ReadKeys => CommandResult::ReadKeys(ReadKeysData::from_bytes(bytes)),
                ServiceAction::ReadReservation => CommandResult::ReadReservation(
                    ReadReservationData::from_bytes(bytes),
                ),
                ServiceAction::ReportCapabilities => CommandResult::ReportCapabilities(
                    ReportCapabilitiesData::from_bytes(bytes),
                ),
                ServiceAction::ReadFullStatus => CommandResult::ReadFullStatus(
                    ReadFullStatusData::from_bytes(bytes),
                ),
                ServiceAction::Other(_) => CommandResult::Raw(crate::command::duplicate(bytes)),
            },
        )
    }
}

} // verus!
