//! PERSISTENT RESERVE OUT: register with the device, and take, release or
//! break reservations.

use vstd::prelude::*;
use crate::bitfield::{pack, pack_vec, packed, width_upto, Field};
use crate::command::{check_bounds, first_failure, Bound, Command};
use crate::data_direction::DataDirection;
use crate::data_wrapper::be_bytes;
use crate::error::Error;
use crate::result_data::ResultData;
use crate::scsi::Scsi;

verus! {

pub const OPERATION_CODE: u8 = 0x5F;

/// The sub-operations of PERSISTENT RESERVE OUT.
#[derive(Clone, Copy, Debug, PartialEq, Eq, Structural)]
pub enum ServiceAction {
    Register,
    Reserve,
    Release,
    Clear,
    Preempt,
    PreemptAndAbort,
    RegisterAndIgnoreExistingKey,
    RegisterAndMove,
    ReplaceLostReservation,
    /// A service action that has no name here, by its code.
    Other(u8),
}

impl ServiceAction {
    /// The code of the service action in the descriptor block.
    pub open spec fn code(self) -> u8 {
        match self {
            ServiceAction::Register => 0x00,
            ServiceAction::Reserve => 0x01,
            ServiceAction::Release => 0x02,
            ServiceAction::Clear => 0x03,
            ServiceAction::Preempt => 0x04,
            ServiceAction::PreemptAndAbort => 0x05,
            ServiceAction::RegisterAndIgnoreExistingKey => 0x06,
            ServiceAction::RegisterAndMove => 0x07,
            ServiceAction::ReplaceLostReservation => 0x08,
            ServiceAction::Other(x) => x,
        }
    }
}

impl From<ServiceAction> for u8 {
    /// The code of the service action in the descriptor block.
    fn from(value: ServiceAction) -> (r: u8) {
        match value {
            ServiceAction::Register => 0x00,
            ServiceAction::Reserve => 0x01,
            ServiceAction::Release => 0x02,
            ServiceAction::Clear => 0x03,
            ServiceAction::Preempt => 0x04,
            ServiceAction::PreemptAndAbort => 0x05,
            ServiceAction::RegisterAndIgnoreExistingKey => 0x06,
            ServiceAction::RegisterAndMove => 0x07,
            ServiceAction::ReplaceLostReservation => 0x08,
            ServiceAction::Other(x) => x,
        }
    }
}

impl vstd::std_specs::convert::FromSpecImpl<ServiceAction> for u8 {
    open spec fn obeys_from_spec() -> bool {
        true
    }

    open spec fn from_spec(value: ServiceAction) -> u8 {
        value.code()
    }
}

/// The parameter list of most service actions: twenty-four bytes.
#[derive(Clone, Copy, Debug)]
pub struct BasicParameterHeader {
    pub reservation_key: u64,
    pub service_action_reservation_key: u64,
    /// Whether a list of transport ids follows.
    pub specify_initiator_ports: bool,
    pub all_target_ports: bool,
    pub activate_persist_through_power_loss: bool,
}

impl BasicParameterHeader {
    /// The fields of the record in the order they travel: 24 bytes.
    pub open spec fn layout(&self) -> Seq<Field> {
        seq![
            Field { width: 64, value: self.reservation_key },
            Field { width: 64, value: self.service_action_reservation_key },
            Field { width: 32, value: 0 },
            Field { width: 4, value: 0 },
            Field { width: 1, value: self.specify_initiator_ports as u64 },
            Field { width: 1, value: self.all_target_ports as u64 },
            Field { width: 1, value: 0 },
            Field { width: 1, value: self.activate_persist_through_power_loss as u64 },
            Field { width: 8, value: 0 },
            Field { width: 16, value: 0 },
        ]
    }

    /// Packs the record into its 24 bytes.
    pub fn to_bytes(&self) -> (r: [u8; 24])
        ensures
            r@ == packed(self.layout()),
    {
        reveal_with_fuel(width_upto, 11);
        pack(
            &[
                Field { width: 64, value: self.reservation_key },
                Field { width: 64, value: self.service_action_reservation_key },
                Field { width: 32, value: 0 },
                Field { width: 4, value: 0 },
                Field { width: 1, value: self.specify_initiator_ports as u64 },
                Field { width: 1, value: self.all_target_ports as u64 },
                Field { width: 1, value: 0 },
                Field { width: 1, value: self.activate_persist_through_power_loss as u64 },
                Field { width: 8, value: 0 },
                Field { width: 16, value: 0 },
            ],
        )
    }

    /// The header with every field zero.
    pub open spec fn zero() -> Self {
        BasicParameterHeader {
            reservation_key: 0,
            service_action_reservation_key: 0,
            specify_initiator_ports: false,
            all_target_ports: false,
            activate_persist_through_power_loss: false,
        }
    }

    /// The header with every field zero.
    pub fn new() -> (r: Self)
        ensures
            r == Self::zero(),
    {
        BasicParameterHeader {
            reservation_key: 0,
            service_action_reservation_key: 0,
            specify_initiator_ports: false,
            all_target_ports: false,
            activate_persist_through_power_loss: false,
        }
    }
}

/// The start of the parameter list of the REGISTER AND MOVE service action:
/// twenty-four bytes.
#[derive(Clone, Copy, Debug)]
pub struct RegisterAndMoveParameterHeader {
    pub reservation_key: u64,
    pub service_action_reservation_key: u64,
    pub unregister: bool,
    pub activate_persist_through_power_loss: bool,
    pub relative_target_port_identifier: u16,
    /// The number of bytes of the transport id that follows.
    pub transportid_parameter_data_length: u32,
}

impl RegisterAndMoveParameterHeader {
    /// The fields of the record in the order they travel: 24 bytes.
    pub open spec fn layout(&self) -> Seq<Field> {
        seq![
            Field { width: 64, value: self.reservation_key },
            Field { width: 64, value: self.service_action_reservation_key },
            Field { width: 8, value: 0 },
            Field { width: 6, value: 0 },
            Field { width: 1, value: self.unregister as u64 },
            Field { width: 1, value: self.activate_persist_through_power_loss as u64 },
            Field { width: 16, value: self.relative_target_port_identifier as u64 },
            Field { width: 32, value: self.transportid_parameter_data_length as u64 },
        ]
    }

    /// Packs the record into its 24 bytes.
    pub fn to_bytes(&self) -> (r: [u8; 24])
        ensures
            r@ == packed(self.layout()),
    {
        reveal_with_fuel(width_upto, 9);
        pack(
            &[
                Field { width: 64, value: self.reservation_key },
                Field { width: 64, value: self.service_action_reservation_key },
                Field { width: 8, value: 0 },
                Field { width: 6, value: 0 },
                Field { width: 1, value: self.unregister as u64 },
                Field { width: 1, value: self.activate_persist_through_power_loss as u64 },
                Field { width: 16, value: self.relative_target_port_identifier as u64 },
                Field { width: 32, value: self.transportid_parameter_data_length as u64 },
            ],
        )
    }

    /// The header with every field zero.
    pub open spec fn zero() -> Self {
        RegisterAndMoveParameterHeader {
            reservation_key: 0,
            service_action_reservation_key: 0,
            unregister: false,
            activate_persist_through_power_loss: false,
            relative_target_port_identifier: 0,
            transportid_parameter_data_length: 0,
        }
    }

    /// The header with every field zero.
    pub fn new() -> (r: Self)
        ensures
            r == Self::zero(),
    {
        RegisterAndMoveParameterHeader {
            reservation_key: 0,
            service_action_reservation_key: 0,
            unregister: false,
            activate_persist_through_power_loss: false,
            relative_target_port_identifier: 0,
            transportid_parameter_data_length: 0,
        }
    }
}

/// The options and the parameter list of a persistent reserve out. They are
/// checked when the command is issued, not when they are set.
#[derive(Debug)]
pub struct PersistentReserveOutCommand {
    /// Its code must fit five bits.
    pub service_action: ServiceAction,
    /// Must fit four bits.
    pub reservation_scope: u8,
    /// Must fit four bits.
    pub reservation_type: u8,
    pub control: u8,
    /// The packed parameter list. Set by the parameter builder.
    pub data_buffer: Vec<u8>,
}

impl PersistentReserveOutCommand {
    /// A registration with every option zero and no parameter list.
    pub fn new() -> (r: Self)
        ensures
            r.service_action == ServiceAction::Register,
            r.reservation_scope == 0,
            r.reservation_type == 0,
            r.control == 0,
            r.data_buffer@ == Seq::<u8>::empty(),
    {
        PersistentReserveOutCommand {
            service_action: ServiceAction::Register,
            reservation_scope: 0,
            reservation_type: 0,
            control: 0,
            data_buffer: Vec::new(),
        }
    }

    /// Sets the service action: its code must be below 0x20.
    pub fn service_action(&mut self, value: ServiceAction) -> (r: &mut Self)
        ensures
            *r == (PersistentReserveOutCommand { service_action: value, ..*old(self) }),
            *final(self) == *final(r),
    {
        self.service_action = value;
        self
    }

    /// Sets the scope of the reservation: below 0x10.
    pub fn reservation_scope(&mut self, value: u8) -> (r: &mut Self)
        ensures
            *r == (PersistentReserveOutCommand { reservation_scope: value, ..*old(self) }),
            *final(self) == *final(r),
    {
        self.reservation_scope = value;
        self
    }

    /// Sets the type of the reservation: below 0x10.
    pub fn reservation_type(&mut self, value: u8) -> (r: &mut Self)
        ensures
            *r == (PersistentReserveOutCommand { reservation_type: value, ..*old(self) }),
            *final(self) == *final(r),
    {
        self.reservation_type = value;
        self
    }

    /// Sets the control byte.
    pub fn control(&mut self, value: u8) -> (r: &mut Self)
        ensures
            *r == (PersistentReserveOutCommand { control: value, ..*old(self) }),
            *final(self) == *final(r),
    {
        self.control = value;
        self
    }

    /// Starts a parameter list for this command. Nothing of the command
    /// changes before the list is done.
    pub fn parameter<'a>(&'a mut self) -> (r: ParameterBuilder<'a>)
        ensures
            *r.parent == *old(self),
            *final(r.parent) == *final(self),
            r.data_buffer@ == Seq::<u8>::empty(),
    {
        ParameterBuilder { parent: self, data_buffer: Vec::new() }
    }

    /// The descriptor block of PERSISTENT RESERVE OUT: ten bytes.
    pub open spec fn layout(&self) -> Seq<Field> {
        seq![
            Field { width: 8, value: OPERATION_CODE as u64 },
            Field { width: 3, value: 0 },
            Field { width: 5, value: self.service_action.code() as u64 },
            Field { width: 4, value: self.reservation_scope as u64 },
            Field { width: 4, value: self.reservation_type as u64 },
            Field { width: 16, value: 0 },
            Field { width: 32, value: self.data_buffer.len() as u64 },
            Field { width: 8, value: self.control as u64 },
        ]
    }

    /// The bound checks that `issue` makes, in their order.
    pub open spec fn issue_bounds(&self) -> Seq<Bound> {
        seq![
            Bound { value: self.service_action.code() as u64, bits: 5, name: "service action" },
            Bound { value: self.reservation_scope as u64, bits: 4, name: "reservation scope" },
            Bound { value: self.reservation_type as u64, bits: 4, name: "reservation type" },
            Bound { value: self.data_buffer.len() as u64, bits: 32, name: "parameter list length" },
        ]
    }

    /// What `issue` finds wrong with the options, if anything: the first
    /// bound that fails.
    pub open spec fn issue_check(&self) -> Option<Error> {
        match first_failure(self.issue_bounds()) {
            Some(e) => Some(e),
            None => {
                None
            },
        }
    }

    /// Checks the options and the length of the parameter list, and packs the
    /// descriptor block.
    pub fn issue(&self) -> (r: Result<ThisCommand, Error>)
        ensures
            match self.issue_check() {
                Some(e) => r == Err::<ThisCommand, Error>(e),
                None => r matches Ok(c) && c.command_buffer@ == packed(self.layout())
                    && c.data_buffer@ == self.data_buffer@,
            },
    {
        check_bounds(
            &[
                Bound {
                    value: u8::from(self.service_action) as u64,
                    bits: 5,
                    name: "service action",
                },
                Bound { value: self.reservation_scope as u64, bits: 4, name: "reservation scope" },
                Bound { value: self.reservation_type as u64, bits: 4, name: "reservation type" },
                Bound {
                    value: self.data_buffer.len() as u64,
                    bits: 32,
                    name: "parameter list length",
                },
            ],
        )?;
        reveal_with_fuel(width_upto, 9);
        let command_buffer = pack_vec::<10>(
            &[
                Field { width: 8, value: OPERATION_CODE as u64 },
                Field { width: 3, value: 0 },
                Field { width: 5, value: u8::from(self.service_action) as u64 },
                Field { width: 4, value: self.reservation_scope as u64 },
                Field { width: 4, value: self.reservation_type as u64 },
                Field { width: 16, value: 0 },
                Field { width: 32, value: self.data_buffer.len() as u64 },
                Field { width: 8, value: self.control as u64 },
            ],
        );
        Ok(
            ThisCommand {
                command_buffer,
                data_buffer: crate::command::duplicate(self.data_buffer.as_slice()),
            },
        )
    }
}

/// The parameter list of a persistent reserve out, while it is put together.
#[derive(Debug)]
pub struct ParameterBuilder<'a> {
    pub parent: &'a mut PersistentReserveOutCommand,
    pub data_buffer: Vec<u8>,
}

impl<'a> ParameterBuilder<'a> {
    /// Starts the parameter list that most service actions take.
    pub fn basic_parameter<'b>(&'b mut self) -> (r: BasicParameterData<'a, 'b>)
        ensures
            *r.parent == *old(self),
            *final(r.parent) == *final(self),
            r.header == BasicParameterHeader::zero(),
            r.transport_id@ == Seq::<u8>::empty(),
    {
        BasicParameterData {
            parent: self,
            header: BasicParameterHeader::new(),
            transport_id: Vec::new(),
        }
    }

    /// Starts the parameter list of the REGISTER AND MOVE service action.
    pub fn register_and_move_parameter<'b>(&'b mut self) -> (r: RegisterAndMoveParameterData<
        'a,
        'b,
    >)
        ensures
            *r.parent == *old(self),
            *final(r.parent) == *final(self),
            r.header == RegisterAndMoveParameterHeader::zero(),
            r.transport_id@ == Seq::<u8>::empty(),
    {
        RegisterAndMoveParameterData {
            parent: self,
            header: RegisterAndMoveParameterHeader::new(),
            transport_id: Vec::new(),
        }
    }

    /// Hands the parameter list to the command; the options of the command
    /// stay.
    pub fn done(self) -> (r: &'a mut PersistentReserveOutCommand)
        ensures
            *r == (PersistentReserveOutCommand {
                data_buffer: self.data_buffer,
                ..*old(self.parent)
            }),
            *final(r) == *final(self.parent),
    {
        self.parent.data_buffer = self.data_buffer;
        self.parent
    }
}

/// The parameter list that most service actions take, while it is put
/// together.
#[derive(Debug)]
pub struct BasicParameterData<'a, 'b> {
    pub parent: &'b mut ParameterBuilder<'a>,
    pub header: BasicParameterHeader,
    pub transport_id: Vec<u8>,
}

impl<'a, 'b> BasicParameterData<'a, 'b> {
    /// Sets the reservation key.
    pub fn reservation_key(&mut self, value: u64) -> (r: &mut Self)
        ensures
            *r == (BasicParameterData {
                header: BasicParameterHeader { reservation_key: value, ..old(self).header },
                ..*old(self)
            }),
            *final(self) == *final(r),
    {
        self.header.reservation_key = value;
        self
    }

    /// Sets the service action reservation key.
    pub fn service_action_reservation_key(&mut self, value: u64) -> (r: &mut Self)
        ensures
            *r == (BasicParameterData {
                header: BasicParameterHeader {
                    service_action_reservation_key: value,
                    ..old(self).header
                },
                ..*old(self)
            }),
            *final(self) == *final(r),
    {
        self.header.service_action_reservation_key = value;
        self
    }

    /// Says whether the list of transport ids is sent.
    pub fn specify_initiator_ports(&mut self, value: bool) -> (r: &mut Self)
        ensures
            *r == (BasicParameterData {
                header: BasicParameterHeader { specify_initiator_ports: value, ..old(self).header },
                ..*old(self)
            }),
            *final(self) == *final(r),
    {
        self.header.specify_initiator_ports = value;
        self
    }

    /// Sets the all target ports bit.
    pub fn all_target_ports(&mut self, value: bool) -> (r: &mut Self)
        ensures
            *r == (BasicParameterData {
                header: BasicParameterHeader { all_target_ports: value, ..old(self).header },
                ..*old(self)
            }),
            *final(self) == *final(r),
    {
        self.header.all_target_ports = value;
        self
    }

    /// Sets the activate persist through power loss bit.
    pub fn activate_persist_through_power_loss(&mut self, value: bool) -> (r: &mut Self)
        ensures
            *r == (BasicParameterData {
                header: BasicParameterHeader {
                    activate_persist_through_power_loss: value,
                    ..old(self).header
                },
                ..*old(self)
            }),
            *final(self) == *final(r),
    {
        self.header.activate_persist_through_power_loss = value;
        self
    }

    /// Sets the list of transport ids.
    pub fn transport_id_list(&mut self, value: &[u8]) -> (r: &mut Self)
        ensures
            r.transport_id@ == value@,
            r.header == old(self).header,
            r.parent == old(self).parent,
            *final(self) == *final(r),
    {
        self.transport_id = crate::command::duplicate(value);
        self
    }

    /// The parameter list as it travels: the header and, where it says that
    /// initiator ports are specified, four bytes with the length of the list
    /// of transport ids, and the list.
    pub open spec fn bytes(&self) -> Seq<u8> {
        if self.header.specify_initiator_ports {
            packed(self.header.layout()) + be_bytes(self.transport_id.len() as u64, 32)
                + self.transport_id@
        } else {
            packed(self.header.layout())
        }
    }

    /// Packs the parameter list and hands it to the parameter builder.
    pub fn done(self) -> (r: &'b mut ParameterBuilder<'a>)
        ensures
            r.data_buffer@ == self.bytes(),
            r.parent == old(self.parent).parent,
            *final(r) == *final(self.parent),
    {
        let header = self.header.to_bytes();
        let mut data_buffer = crate::command::duplicate(header.as_slice());
        if self.header.specify_initiator_ports {
            reveal_with_fuel(width_upto, 2);
            let fields = [Field { width: 32, value: self.transport_id.len() as u64 }];
            assert(fields@ =~= seq![Field { width: 32, value: self.transport_id.len() as u64 }]);
            let length: [u8; 4] = pack(&fields);
            crate::command::append(&mut data_buffer, length.as_slice());
            crate::command::append(&mut data_buffer, self.transport_id.as_slice());
        }
        self.parent.data_buffer = data_buffer;
        self.parent
    }
}

/// The parameter list of the REGISTER AND MOVE service action, while it is
/// put together.
#[derive(Debug)]
pub struct RegisterAndMoveParameterData<'a, 'b> {
    pub parent: &'b mut ParameterBuilder<'a>,
    pub header: RegisterAndMoveParameterHeader,
    pub transport_id: Vec<u8>,
}

impl<'a, 'b> RegisterAndMoveParameterData<'a, 'b> {
    /// Sets the reservation key.
    pub fn reservation_key(&mut self, value: u64) -> (r: &mut Self)
        ensures
            *r == (RegisterAndMoveParameterData {
                header: RegisterAndMoveParameterHeader {
                    reservation_key: value,
                    ..old(self).header
                },
                ..*old(self)
            }),
            *final(self) == *final(r),
    {
        self.header.reservation_key = value;
        self
    }

    /// Sets the service action reservation key.
    pub fn service_action_reservation_key(&mut self, value: u64) -> (r: &mut Self)
        ensures
            *r == (RegisterAndMoveParameterData {
                header: RegisterAndMoveParameterHeader {
                    service_action_reservation_key: value,
                    ..old(self).header
                },
                ..*old(self)
            }),
            *final(self) == *final(r),
    {
        self.header.service_action_reservation_key = value;
        self
    }

    /// Sets the unregister bit.
    pub fn unregister(&mut self, value: bool) -> (r: &mut Self)
        ensures
            *r == (RegisterAndMoveParameterData {
                header: RegisterAndMoveParameterHeader { unregister: value, ..old(self).header },
                ..*old(self)
            }),
            *final(self) == *final(r),
    {
        self.header.unregister = value;
        self
    }

    /// Sets the activate persist through power loss bit.
    pub fn activate_persist_through_power_loss(&mut self, value: bool) -> (r: &mut Self)
        ensures
            *r == (RegisterAndMoveParameterData {
                header: RegisterAndMoveParameterHeader {
                    activate_persist_through_power_loss: value,
                    ..old(self).header
                },
                ..*old(self)
            }),
            *final(self) == *final(r),
    {
        self.header.activate_persist_through_power_loss = value;
        self
    }

    /// Sets the relative target port identifier.
    pub fn relative_target_port_identifier(&mut self, value: u16) -> (r: &mut Self)
        ensures
            *r == (RegisterAndMoveParameterData {
                header: RegisterAndMoveParameterHeader {
                    relative_target_port_identifier: value,
                    ..old(self).header
                },
                ..*old(self)
            }),
            *final(self) == *final(r),
    {
        self.header.relative_target_port_identifier = value;
        self
    }

    /// Sets the transport id.
    pub fn transport_id_list(&mut self, value: &[u8]) -> (r: &mut Self)
        ensures
            r.transport_id@ == value@,
            r.header == old(self).header,
            r.parent == old(self).parent,
            *final(self) == *final(r),
    {
        self.transport_id = crate::command::duplicate(value);
        self
    }

    /// The header as it travels: with the length of the transport id in its
    /// last field, as far as thirty-two bits hold it.
    pub open spec fn sent_header(&self) -> RegisterAndMoveParameterHeader {
        RegisterAndMoveParameterHeader {
            transportid_parameter_data_length: (self.transport_id@.len() % 0x1_0000_0000) as u32,
            ..self.header
        }
    }

    /// The parameter list as it travels: the header and the transport id.
    pub open spec fn bytes(&self) -> Seq<u8> {
        packed(self.sent_header().layout()) + self.transport_id@
    }

    /// Packs the parameter list and hands it to the parameter builder.
    pub fn done(self) -> (r: &'b mut ParameterBuilder<'a>)
        ensures
            r.data_buffer@ == self.bytes(),
            r.parent == old(self.parent).parent,
            *final(r) == *final(self.parent),
    {
        let mut sent = self.header;
        sent.transportid_parameter_data_length = (self.transport_id.len() as u64
            % 0x1_0000_0000) as u32;
        let header = sent.to_bytes();
        let mut data_buffer = crate::command::duplicate(header.as_slice());
        crate::command::append(&mut data_buffer, self.transport_id.as_slice());
        self.parent.data_buffer = data_buffer;
        self.parent
    }
}

impl<H> Scsi<H> {
    /// A persistent reserve out with its options at their defaults.
    pub fn persistent_reserve_out(&self) -> (r: PersistentReserveOutCommand)
        ensures
            r.service_action == ServiceAction::Register,
            r.reservation_scope == 0,
            r.reservation_type == 0,
            r.control == 0,
            r.data_buffer@ == Seq::<u8>::empty(),
    {
        PersistentReserveOutCommand::new()
    }
}

/// A persistent reserve out that passed its checks: the packed descriptor block
/// and the packed parameter list, which is sent to the device.
#[derive(Debug)]
pub struct ThisCommand {
    pub command_buffer: Vec<u8>,
    pub data_buffer: Vec<u8>,
}

impl Command for ThisCommand {
    type ReturnType = Result<(), Error>;

    open spec fn direction_spec(&self) -> DataDirection {
        DataDirection::ToDevice
    }

    open spec fn command_spec(&self) -> Seq<u8> {
        self.command_buffer@
    }

    open spec fn data_spec(&self) -> Seq<u8> {
        self.data_buffer@
    }

    open spec fn data_size_spec(&self) -> u32 {
        (self.data_buffer@.len() % 0x1_0000_0000) as u32
    }

    fn direction(&self) -> (r: DataDirection) {
        DataDirection::ToDevice
    }

    fn command(&self) -> (r: Vec<u8>) {
        crate::command::duplicate(self.command_buffer.as_slice())
    }

    fn data(&self) -> (r: Vec<u8>) {
        crate::command::duplicate(self.data_buffer.as_slice())
    }

    fn data_size(&self) -> (r: u32) {
        (self.data_buffer.len() as u64 % 0x1_0000_0000) as u32
    }

    /// Nothing, unless the transport or the device reported a failure.
    fn process_result(&self, result: ResultData) -> (r: Result<(), Error>)
        ensures
            match r {
                Ok(()) => result.passes(),
                Err(e) => result.checked(Err(e)),
            },
    {
        result.check_errors()
    }
}

} // verus!
