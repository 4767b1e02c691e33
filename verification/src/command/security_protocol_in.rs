//! SECURITY PROTOCOL IN: fetch what a security protocol of the device has to
//! say.

use vstd::prelude::*;
use crate::bitfield::{pack_vec, packed, width_upto, zeros, Field};
use crate::command::{
    blocks_to_bytes, blocks_to_bytes_spec, blocks_to_len, blocks_to_len_spec, zeroed, Command,
};
use crate::data_direction::DataDirection;
use crate::error::{BoundCheckError, Error};
use crate::result_data::ResultData;
use crate::scsi::Scsi;

verus! {

pub const OPERATION_CODE: u8 = 0xA2;

/// The most blocks of 512 bytes that one transfer can bring: more would be
/// more bytes than the thirty-two bits of a transfer's size can count.
pub const MAX_BLOCKS: u32 = 0x7F_FFFF;

/// The options of a security protocol in.
#[derive(Clone, Copy, Debug)]
pub struct SecurityProtocolInCommand {
    pub security_protocol: u8,
    pub security_protocol_specific: u16,
    /// Whether the allocation length counts blocks of 512 bytes.
    pub inc_512: bool,
    pub allocation_length: u32,
    pub control: u8,
}

impl SecurityProtocolInCommand {
    /// A security protocol in with every option zero.
    pub fn new() -> (r: Self)
        ensures
            r.security_protocol == 0,
            r.security_protocol_specific == 0,
            r.inc_512 == false,
            r.allocation_length == 0,
            r.control == 0,
    {
        SecurityProtocolInCommand {
            security_protocol: 0,
            security_protocol_specific: 0,
            inc_512: false,
            allocation_length: 0,
            control: 0,
        }
    }

    /// Sets the security protocol.
    pub fn security_protocol(&mut self, value: u8) -> (r: &mut Self)
        ensures
            *r == (SecurityProtocolInCommand { security_protocol: value, ..*old(self) }),
            *final(self) == *final(r),
    {
        self.security_protocol = value;
        self
    }

    /// Sets the field that the security protocol gives a meaning to.
    pub fn security_protocol_specific(&mut self, value: u16) -> (r: &mut Self)
        ensures
            *r == (SecurityProtocolInCommand { security_protocol_specific: value, ..*old(self) }),
            *final(self) == *final(r),
    {
        self.security_protocol_specific = value;
        self
    }

    /// Says whether the allocation length counts blocks of 512 bytes.
    pub fn inc_512(&mut self, value: bool) -> (r: &mut Self)
        ensures
            *r == (SecurityProtocolInCommand { inc_512: value, ..*old(self) }),
            *final(self) == *final(r),
    {
        self.inc_512 = value;
        self
    }

    /// Sets the allocation length: bytes, or blocks of 512 bytes where
    /// `inc_512` is set.
    pub fn allocation_length(&mut self, value: u32) -> (r: &mut Self)
        ensures
            *r == (SecurityProtocolInCommand { allocation_length: value, ..*old(self) }),
            *final(self) == *final(r),
    {
        self.allocation_length = value;
        self
    }

    /// Sets the control byte.
    pub fn control(&mut self, value: u8) -> (r: &mut Self)
        ensures
            *r == (SecurityProtocolInCommand { control: value, ..*old(self) }),
            *final(self) == *final(r),
    {
        self.control = value;
        self
    }

    /// The descriptor block of SECURITY PROTOCOL IN: twelve bytes.
    pub open spec fn layout(&self) -> Seq<Field> {
        seq![
            Field { width: 8, value: OPERATION_CODE as u64 },
            Field { width: 8, value: self.security_protocol as u64 },
            Field { width: 16, value: self.security_protocol_specific as u64 },
            Field { width: 1, value: self.inc_512 as u64 },
            Field { width: 7, value: 0 },
            Field { width: 8, value: 0 },
            Field { width: 32, value: self.allocation_length as u64 },
            Field { width: 8, value: 0 },
            Field { width: 8, value: self.control as u64 },
        ]
    }

    /// The number of bytes that the answer may take: the allocation length,
    /// or 512 times as much where it counts blocks.
    pub open spec fn answer_bytes(&self) -> nat {
        if self.inc_512 {
            (self.allocation_length * 512) as nat
        } else {
            self.allocation_length as nat
        }
    }

    /// What `issue` finds wrong with the options, if anything: an allocation
    /// length in blocks whose bytes a transfer cannot count.
    pub open spec fn issue_check(&self) -> Option<Error> {
        if self.inc_512 && self.allocation_length > MAX_BLOCKS {
            Some(
                Error::ArgumentOutOfBounds(
                    BoundCheckError {
                        name: "allocation length",
                        max: MAX_BLOCKS as u64,
                        given: self.allocation_length as u64,
                    },
                ),
            )
        } else {
            None
        }
    }

    /// Checks that the answer's bytes can be counted, and packs the
    /// descriptor block. The buffer for the answer then has exactly
    /// `answer_bytes()` bytes, and as many are asked for.
    pub fn issue(&self) -> (r: Result<ThisCommand, Error>)
        ensures
            match self.issue_check() {
                Some(e) => r == Err::<ThisCommand, Error>(e),
                None => r matches Ok(c) && c.command_buffer@ == packed(self.layout())
                    && c.inc_512 == self.inc_512 && c.allocation_length == self.allocation_length
                    && c.data_size_spec() == self.answer_bytes() && c.data_spec() == zeros(
                    self.answer_bytes(),
                ),
            },
    {
        if self.inc_512 && self.allocation_length > MAX_BLOCKS {
            return Err(
                Error::ArgumentOutOfBounds(
                    BoundCheckError {
                        name: "allocation length",
                        max: MAX_BLOCKS as u64,
                        given: self.allocation_length as u64,
                    },
                ),
            );
        }
        reveal_with_fuel(width_upto, 10);
        let command_buffer = pack_vec::<12>(
            &[
                Field { width: 8, value: OPERATION_CODE as u64 },
                Field { width: 8, value: self.security_protocol as u64 },
                Field { width: 16, value: self.security_protocol_specific as u64 },
                Field { width: 1, value: self.inc_512 as u64 },
                Field { width: 7, value: 0 },
                Field { width: 8, value: 0 },
                Field { width: 32, value: self.allocation_length as u64 },
                Field { width: 8, value: 0 },
                Field { width: 8, value: self.control as u64 },
            ],
        );
        Ok(
            ThisCommand {
                command_buffer,
                inc_512: self.inc_512,
                allocation_length: self.allocation_length,
            },
        )
    }
}

impl<H> Scsi<H> {
    /// A security protocol in with its options at their defaults.
    pub fn security_protocol_in(&self) -> (r: SecurityProtocolInCommand)
        ensures
            r.security_protocol == 0,
            r.security_protocol_specific == 0,
            r.inc_512 == false,
            r.allocation_length == 0,
            r.control == 0,
    {
        SecurityProtocolInCommand::new()
    }
}

/// A security protocol in, packed, with what sizes the buffer for the answer.
/// One that `issue` made asks for no more than `MAX_BLOCKS` blocks; for one
/// that asks for more, the sizes stop at what their types hold.
#[derive(Debug)]
pub struct ThisCommand {
    pub command_buffer: Vec<u8>,
    pub inc_512: bool,
    pub allocation_length: u32,
}

impl Command for ThisCommand {
    type ReturnType = Result<Vec<u8>, Error>;

    open spec fn direction_spec(&self) -> DataDirection {
        DataDirection::FromDevice
    }

    open spec fn command_spec(&self) -> Seq<u8> {
        self.command_buffer@
    }

    open spec fn data_spec(&self) -> Seq<u8> {
        zeros(
            if self.inc_512 {
                blocks_to_len_spec(self.allocation_length) as nat
            } else {
                self.allocation_length as nat
            },
        )
    }

    open spec fn data_size_spec(&self) -> u32 {
        if self.inc_512 {
            blocks_to_bytes_spec(self.allocation_length)
        } else {
            self.allocation_length
        }
    }

    fn direction(&self) -> (r: DataDirection) {
        DataDirection::FromDevice
    }

    fn command(&self) -> (r: Vec<u8>) {
        crate::command::duplicate(self.command_buffer.as_slice())
    }

    fn data(&self) -> (r: Vec<u8>) {
        if self.inc_512 {
            zeroed(blocks_to_len(self.allocation_length))
        } else {
            zeroed(self.allocation_length as usize)
        }
    }

    fn data_size(&self) -> (r: u32) {
        if self.inc_512 {
            blocks_to_bytes(self.allocation_length)
        } else {
            self.allocation_length
        }
    }

    /// The bytes that came back, unless the transport or the device reported a
    /// failure.
    fn process_result(&self, result: ResultData) -> (r: Result<Vec<u8>, Error>)
        ensures
            match r {
                Ok(data) => result.passes() && data == result.data,
                Err(e) => result.checked(Err(e)),
            },
    {
        result.check_errors()?;
        Ok(result.data)
    }
}

} // verus!
