//! SECURITY PROTOCOL OUT: send data to a security protocol of the device.

use vstd::prelude::*;
use crate::bitfield::{pack_vec, packed, width_upto, Field};
use crate::command::{check_bounds, first_failure, Bound, Command};
use crate::data_direction::DataDirection;
use crate::error::Error;
use crate::result_data::ResultData;
use crate::scsi::Scsi;

verus! {

pub const OPERATION_CODE: u8 = 0xB5;

/// The options and the data of a security protocol out. They are checked when
/// the command is issued, not when they are set.
#[derive(Debug)]
pub struct SecurityProtocolOutCommand {
    pub security_protocol: u8,
    pub security_protocol_specific: u16,
    /// Whether the transfer length counts blocks of 512 bytes.
    pub inc_512: bool,
    pub control: u8,
    /// The data to send.
    pub data_buffer: Vec<u8>,
}

impl Clone for SecurityProtocolOutCommand {
    /// A copy with the same options and the same bytes.
    fn clone(&self) -> (r: Self)
        ensures
            r.security_protocol == self.security_protocol,
            r.security_protocol_specific == self.security_protocol_specific,
            r.inc_512 == self.inc_512,
            r.control == self.control,
            r.data_buffer@ == self.data_buffer@,
    {
        SecurityProtocolOutCommand {
            security_protocol: self.security_protocol,
            security_protocol_specific: self.security_protocol_specific,
            inc_512: self.inc_512,
            control: self.control,
            data_buffer: crate::command::duplicate(self.data_buffer.as_slice()),
        }
    }
}

impl SecurityProtocolOutCommand {
    /// A security protocol out with every option zero and no data.
    pub fn new() -> (r: Self)
        ensures
            r.security_protocol == 0,
            r.security_protocol_specific == 0,
            r.inc_512 == false,
            r.control == 0,
            r.data_buffer@ == Seq::<u8>::empty(),
    {
        SecurityProtocolOutCommand {
            security_protocol: 0,
            security_protocol_specific: 0,
            inc_512: false,
            control: 0,
            data_buffer: Vec::new(),
        }
    }

    /// Sets the security protocol.
    pub fn security_protocol(&mut self, value: u8) -> (r: &mut Self)
        ensures
            *r == (SecurityProtocolOutCommand { security_protocol: value, ..*old(self) }),
            *final(self) == *final(r),
    {
        self.security_protocol = value;
        self
    }

    /// Sets the field that the security protocol gives a meaning to.
    pub fn security_protocol_specific(&mut self, value: u16) -> (r: &mut Self)
        ensures
            *r == (SecurityProtocolOutCommand { security_protocol_specific: value, ..*old(self) }),
            *final(self) == *final(r),
    {
        self.security_protocol_specific = value;
        self
    }

    /// Says whether the transfer length counts blocks of 512 bytes; the data
    /// must then be whole blocks.
    pub fn inc_512(&mut self, value: bool) -> (r: &mut Self)
        ensures
            *r == (SecurityProtocolOutCommand { inc_512: value, ..*old(self) }),
            *final(self) == *final(r),
    {
        self.inc_512 = value;
        self
    }

    /// Sets the control byte.
    pub fn control(&mut self, value: u8) -> (r: &mut Self)
        ensures
            *r == (SecurityProtocolOutCommand { control: value, ..*old(self) }),
            *final(self) == *final(r),
    {
        self.control = value;
        self
    }

    /// Sets the data to send.
    pub fn parameter(&mut self, value: &[u8]) -> (r: &mut Self)
        ensures
            r.data_buffer@ == value@,
            r.security_protocol == old(self).security_protocol,
            r.security_protocol_specific == old(self).security_protocol_specific,
            r.inc_512 == old(self).inc_512,
            r.control == old(self).control,
            *final(self) == *final(r),
    {
        self.data_buffer = crate::command::duplicate(value);
        self
    }

    /// The transfer length of the descriptor block: the length of the data in
    /// bytes, or in blocks of 512 bytes where `inc_512` is set.
    pub open spec fn transfer_length_spec(&self) -> u64 {
        if self.inc_512 {
            self.data_buffer.len() as u64 / 512
        } else {
            self.data_buffer.len() as u64
        }
    }

    /// The transfer length of the descriptor block: the length of the data in
    /// bytes, or in blocks of 512 bytes where `inc_512` is set.
    #[verifier::when_used_as_spec(transfer_length_spec)]
    pub fn transfer_length(&self) -> (r: u64)
        ensures
            r == self.transfer_length_spec(),
    {
        if self.inc_512 {
            self.data_buffer.len() as u64 / 512
        } else {
            self.data_buffer.len() as u64
        }
    }

    /// The descriptor block of SECURITY PROTOCOL OUT: twelve bytes. The
    /// transfer length is the length of the data in bytes, or in blocks of 512
    /// bytes where `inc_512` is set.
    pub open spec fn layout(&self) -> Seq<Field> {
        seq![
            Field { width: 8, value: OPERATION_CODE as u64 },
            Field { width: 8, value: self.security_protocol as u64 },
            Field { width: 16, value: self.security_protocol_specific as u64 },
            Field { width: 1, value: self.inc_512 as u64 },
            Field { width: 7, value: 0 },
            Field { width: 8, value: 0 },
            Field { width: 32, value: self.transfer_length() },
            Field { width: 8, value: 0 },
            Field { width: 8, value: self.control as u64 },
        ]
    }

    /// The bound checks that `issue` makes, in their order.
    pub open spec fn issue_bounds(&self) -> Seq<Bound> {
        seq![
            Bound { value: self.transfer_length(), bits: 32, name: "parameter length" },
        ]
    }

    /// What `issue` finds wrong with the options, if anything: the first
    /// bound that fails; else the first condition that refuses.
    pub open spec fn issue_check(&self) -> Option<Error> {
        match first_failure(self.issue_bounds()) {
            Some(e) => Some(e),
            None => if self.inc_512 && self.data_buffer.len() % 512 != 0 {
                Some(Error::BadArgument("parameter length is not a multiple of 512"))
            } else {
                None
            },
        }
    }

    /// Checks the length of the data and packs the descriptor block.
    pub fn issue(&self) -> (r: Result<ThisCommand, Error>)
        ensures
            match self.issue_check() {
                Some(e) => r == Err::<ThisCommand, Error>(e),
                None => r matches Ok(c) && c.command_buffer@ == packed(self.layout())
                    && c.data_buffer@ == self.data_buffer@,
            },
    {
        let bounds = [Bound { value: self.transfer_length(), bits: 32, name: "parameter length" }];
        assert(bounds@ =~= seq![
            Bound { value: self.transfer_length(), bits: 32, name: "parameter length" },
        ]);
        check_bounds(&bounds)?;
        if self.inc_512 && self.data_buffer.len() % 512 != 0 {
            return Err(Error::BadArgument("parameter length is not a multiple of 512"));
        }
        reveal_with_fuel(width_upto, 10);
        let command_buffer = pack_vec::<12>(
            &[
                Field { width: 8, value: OPERATION_CODE as u64 },
                Field { width: 8, value: self.security_protocol as u64 },
                Field { width: 16, value: self.security_protocol_specific as u64 },
                Field { width: 1, value: self.inc_512 as u64 },
                Field { width: 7, value: 0 },
                Field { width: 8, value: 0 },
                Field { width: 32, value: self.transfer_length() },
                Field { width: 8, value: 0 },
                Field { width: 8, value: self.control as u64 },
            ],
        );
        Ok(
            ThisCommand {
                command_buffer,
                data_buffer: crate::command::duplicate(self.data_buffer.as_slice()),
            },
        )
    }
}

impl<H> Scsi<H> {
    /// A security protocol out with its options at their defaults.
    pub fn security_protocol_out(&self) -> (r: SecurityProtocolOutCommand)
        ensures
            r.security_protocol == 0,
            r.security_protocol_specific == 0,
            r.inc_512 == false,
            r.control == 0,
            r.data_buffer@ == Seq::<u8>::empty(),
    {
        SecurityProtocolOutCommand::new()
    }
}

/// A security protocol out that passed its checks: the packed descriptor block
/// and the data.
#[derive(Debug)]
pub struct ThisCommand {
    pub command_buffer: Vec<u8>,
    pub data_buffer: Vec<u8>,
}

impl Command for ThisCommand {
    type ReturnType = Result<(), Error>;

    open spec fn direction_spec(&self) -> DataDirection {
        DataDirection::ToDevice
    }

    open spec fn command_spec(&self) -> Seq<u8> {
        self.command_buffer@
    }

    open spec fn data_spec(&self) -> Seq<u8> {
        self.data_buffer@
    }

    open spec fn data_size_spec(&self) -> u32 {
        (self.data_buffer@.len() % 0x1_0000_0000) as u32
    }

    fn direction(&self) -> (r: DataDirection) {
        DataDirection::ToDevice
    }

    fn command(&self) -> (r: Vec<u8>) {
        let r = self.command_buffer.clone();
        assert(r@ =~= self.command_buffer@);
        r
    }

    fn data(&self) -> (r: Vec<u8>) {
        let r = self.data_buffer.clone();
        assert(r@ =~= self.data_buffer@);
        r
    }

    fn data_size(&self) -> (r: u32) {
        (self.data_buffer.len() as u64 % 0x1_0000_0000) as u32
    }

    /// Nothing, unless the transport or the device reported a failure.
    fn process_result(&self, result: ResultData) -> (r: Result<(), Error>)
        ensures
            match r {
                Ok(()) => result.passes(),
                Err(e) => result.checked(Err(e)),
            },
    {
        result.check_errors()
    }
}

} // verus!
