//! GET LBA STATUS: ask which ranges of logical blocks are mapped.

use vstd::prelude::*;
use crate::bitfield::{
    field_value, get_field, get_u32, get_u8, pack_vec, packed, width_upto, zeros, Field,
};
use crate::command::{after, chunk, chunk_count, get_array, get_chunk, zeroed, Command};
use crate::data_direction::DataDirection;
use crate::error::{BoundCheckError, Error};
use crate::result_data::ResultData;
use crate::scsi::Scsi;

verus! {

pub const OPERATION_CODE: u8 = 0x9E;

pub const SERVICE_ACTION: u8 = 0x12;

pub const HEADER_LENGTH: u32 = 8;

pub const DESCRIPTOR_LENGTH: u32 = 16;

pub const MAX_DESCRIPTOR_LENGTH: u32 = 0x0FFF_FFFF;

/// The options of a get lba status. They are checked when the command is
/// issued, not when they are set.
#[derive(Clone, Copy, Debug)]
pub struct GetLbaStatusCommand {
    pub starting_logical_block_address: u64,
    pub control: u8,
    /// The number of descriptors to make room for: at most
    /// `MAX_DESCRIPTOR_LENGTH`.
    pub descriptor_length: u32,
}

impl GetLbaStatusCommand {
    /// A get lba status with every option zero.
    pub fn new() -> (r: Self)
        ensures
            r.starting_logical_block_address == 0,
            r.control == 0,
            r.descriptor_length == 0,
    {
        GetLbaStatusCommand {
            starting_logical_block_address: 0,
            control: 0,
            descriptor_length: 0,
        }
    }

    /// Sets the address of the first logical block asked about.
    pub fn starting_logical_block_address(&mut self, value: u64) -> (r: &mut Self)
        ensures
            *r == (GetLbaStatusCommand { starting_logical_block_address: value, ..*old(self) }),
            *final(self) == *final(r),
    {
        self.starting_logical_block_address = value;
        self
    }

    /// Sets the control byte.
    pub fn control(&mut self, value: u8) -> (r: &mut Self)
        ensures
            *r == (GetLbaStatusCommand { control: value, ..*old(self) }),
            *final(self) == *final(r),
    {
        self.control = value;
        self
    }

    /// Sets the number of descriptors to make room for: at most 0x0FFF_FFFF, so
    /// that the bytes of the answer can be counted in thirty-two bits.
    pub fn descriptor_length(&mut self, value: u32) -> (r: &mut Self)
        ensures
            *r == (GetLbaStatusCommand { descriptor_length: value, ..*old(self) }),
            *final(self) == *final(r),
    {
        self.descriptor_length = value;
        self
    }

    /// The allocation length of the descriptor block: eight bytes of header and
    /// sixteen bytes for each descriptor.
    pub open spec fn allocation_length_spec(&self) -> u64 {
        (HEADER_LENGTH as u64 + self.descriptor_length as u64 * DESCRIPTOR_LENGTH as u64) as u64
    }

    /// The allocation length of the descriptor block: eight bytes of header and
    /// sixteen bytes for each descriptor.
    #[verifier::when_used_as_spec(allocation_length_spec)]
    pub fn allocation_length(&self) -> (r: u64)
        ensures
            r == self.allocation_length_spec(),
    {
        assert(self.descriptor_length * DESCRIPTOR_LENGTH == self.descriptor_length * 16);
        (HEADER_LENGTH as u64 + self.descriptor_length as u64 * DESCRIPTOR_LENGTH as u64) as u64
    }

    /// The descriptor block of GET LBA STATUS: sixteen bytes. The allocation
    /// length is eight bytes of header and sixteen bytes for each descriptor.
    pub open spec fn layout(&self) -> Seq<Field> {
        seq![
            Field { width: 8, value: OPERATION_CODE as u64 },
            Field { width: 3, value: 0 },
            Field { width: 5, value: SERVICE_ACTION as u64 },
            Field { width: 64, value: self.starting_logical_block_address },
            Field { width: 32, value: self.allocation_length() },
            Field { width: 8, value: 0 },
            Field { width: 8, value: self.control as u64 },
        ]
    }

    /// What `issue` finds wrong with the options, if anything.
    pub open spec fn issue_check(&self) -> Option<Error> {
        if self.descriptor_length > MAX_DESCRIPTOR_LENGTH {
            Some(Error::ArgumentOutOfBounds(
                BoundCheckError {
                    name: "descriptor length",
                    max: MAX_DESCRIPTOR_LENGTH as u64,
                    given: self.descriptor_length as u64,
                },
            ))
        } else {
            None
        }
    }

    /// Checks the descriptor length and packs the descriptor block.
    pub fn issue(&self) -> (r: Result<ThisCommand, Error>)
        ensures
            match self.issue_check() {
                Some(e) => r == Err::<ThisCommand, Error>(e),
                None => r matches Ok(c) && c.command_buffer@ == packed(self.layout())
                    && c.max_descriptor_length == self.descriptor_length,
            },
    {
        if self.descriptor_length > MAX_DESCRIPTOR_LENGTH {
            return Err(Error::ArgumentOutOfBounds(
                BoundCheckError {
                    name: "descriptor length",
                    max: MAX_DESCRIPTOR_LENGTH as u64,
                    given: self.descriptor_length as u64,
                },
            ));
        }
        reveal_with_fuel(width_upto, 8);
        let command_buffer = pack_vec::<16>(
            &[
                Field { width: 8, value: OPERATION_CODE as u64 },
                Field { width: 3, value: 0 },
                Field { width: 5, value: SERVICE_ACTION as u64 },
                Field { width: 64, value: self.starting_logical_block_address },
                Field { width: 32, value: self.allocation_length() },
                Field { width: 8, value: 0 },
                Field { width: 8, value: self.control as u64 },
            ],
        );
        Ok(ThisCommand { command_buffer, max_descriptor_length: self.descriptor_length })
    }
}

impl<H> Scsi<H> {
    /// A get lba status with its options at their defaults.
    pub fn get_lba_status(&self) -> (r: GetLbaStatusCommand)
        ensures
            r.starting_logical_block_address == 0,
            r.control == 0,
            r.descriptor_length == 0,
    {
        GetLbaStatusCommand::new()
    }
}

/// Whether the blocks of a range are mapped.
#[derive(Clone, Copy, Debug, PartialEq, Eq, Structural)]
pub enum ProvisioningStatus {
    MappedOrUnknown,
    Deallocated,
    Anchored,
    /// A status that has no name here, by its code.
    Other(u8),
}

impl ProvisioningStatus {
    /// The status that a code stands for.
    pub open spec fn from_code_spec(code: u8) -> ProvisioningStatus {
        if code == 0 {
            ProvisioningStatus::MappedOrUnknown
        } else if code == 1 {
            ProvisioningStatus::Deallocated
        } else if code == 2 {
            ProvisioningStatus::Anchored
        } else {
            ProvisioningStatus::Other(code)
        }
    }

    /// The status that a code stands for.
    #[verifier::when_used_as_spec(from_code_spec)]
    pub fn from_code(code: u8) -> (r: ProvisioningStatus)
        ensures
            r == Self::from_code_spec(code),
    {
        match code {
            0 => ProvisioningStatus::MappedOrUnknown,
            1 => ProvisioningStatus::Deallocated,
            2 => ProvisioningStatus::Anchored,
            other => ProvisioningStatus::Other(other),
        }
    }
}

/// A range of logical blocks with one provisioning status.
#[derive(Clone, Copy, Debug)]
pub struct LbaStatusDescriptor {
    pub logical_block_address: u64,
    pub number_of_logical_blocks: u32,
    pub provisioning_status: ProvisioningStatus,
}

impl LbaStatusDescriptor {
    /// What the sixteen bytes of a descriptor say: eight bytes of address, four
    /// bytes of count, a byte of status and three reserved bytes.
    pub open spec fn parsed(data: Seq<u8>) -> LbaStatusDescriptor {
        LbaStatusDescriptor {
            logical_block_address: field_value(data, 0, 64) as u64,
            number_of_logical_blocks: field_value(data, 64, 32) as u32,
            provisioning_status: ProvisioningStatus::from_code(field_value(data, 96, 8) as u8),
        }
    }

    /// Reads a descriptor out of its sixteen bytes.
    pub fn from_bytes(data: &[u8; 16]) -> (r: Self)
        ensures
            r == Self::parsed(data@),
    {
        LbaStatusDescriptor {
            logical_block_address: get_field(data.as_slice(), 0, 64),
            number_of_logical_blocks: get_u32(data.as_slice(), 64, 32),
            provisioning_status: ProvisioningStatus::from_code(get_u8(data.as_slice(), 96, 8)),
        }
    }
}

/// What GET LBA STATUS reports.
#[derive(Debug)]
pub struct CommandResult {
    /// The number of descriptors that the device has, as the header of the
    /// answer declares it.
    pub total_descripter_length: usize,
    /// The descriptors that came back.
    pub lba_status_descriptors: Vec<LbaStatusDescriptor>,
}

impl CommandResult {
    /// The number of descriptors that the header of an answer declares: its
    /// parameter data length, less the four bytes of the header that it
    /// counts, in descriptors of sixteen bytes.
    pub open spec fn declared(data: Seq<u8>) -> nat {
        let length = field_value(chunk(data, 8, 0), 0, 32);
        if length < 4 {
            0
        } else {
            ((length - 4) / 16) as nat
        }
    }

    /// The number of descriptors that are read out of an answer: those that
    /// the header declares, as far as whole descriptors follow the eight
    /// bytes of header.
    pub open spec fn held(data: Seq<u8>) -> nat {
        let whole = after(data, 8).len() / 16;
        if Self::declared(data) <= whole {
            Self::declared(data)
        } else {
            whole
        }
    }

    /// Whether this is what `data` say.
    pub open spec fn reads(&self, data: Seq<u8>) -> bool {
        &&& self.total_descripter_length == Self::declared(data)
        &&& self.lba_status_descriptors@ == Seq::new(
            Self::held(data),
            |i: int| LbaStatusDescriptor::parsed(chunk(after(data, 8), 16, i)),
        )
    }

    /// Reads the answer to GET LBA STATUS.
    pub fn from_bytes(data: &[u8]) -> (r: Self)
        ensures
            r.reads(data@),
    {
        let (header, elements) = get_array::<8>(data);
        let length = get_u32(header.as_slice(), 0, 32);
        let declared: usize = if length < 4 {
            0
        } else {
            ((length - 4) / 16) as usize
        };
        let whole = elements.len() / 16;
        let count = if declared <= whole {
            declared
        } else {
            whole
        };
        let mut descriptors: Vec<LbaStatusDescriptor> = Vec::new();
        let mut i: usize = 0;
        while i < count
            invariant
                i <= count,
                count <= elements@.len() / 16,
                descriptors@ == Seq::new(
                    i as nat,
                    |k: int| LbaStatusDescriptor::parsed(chunk(elements@, 16, k)),
                ),
            decreases count - i,
        {
            proof {
                let n = elements@.len() as int;
                vstd::arithmetic::div_mod::lemma_fundamental_div_mod(n, 16);
                vstd::arithmetic::div_mod::lemma_fundamental_div_mod(n + 15, 16);
                assert(i < chunk_count(elements@.len(), 16));
            }
            let piece = get_chunk::<16>(elements, i);
            descriptors.push(LbaStatusDescriptor::from_bytes(&piece));
            assert(descriptors@ =~= Seq::new(
                (i + 1) as nat,
                |k: int| LbaStatusDescriptor::parsed(chunk(elements@, 16, k)),
            ));
            i = i + 1;
        }
        CommandResult { total_descripter_length: declared, lba_status_descriptors: descriptors }
    }
}

/// A get lba status that passed its check: the packed descriptor block, and the
/// number of descriptors that the buffer for the answer has room for.
#[derive(Debug)]
pub struct ThisCommand {
    pub command_buffer: Vec<u8>,
    pub max_descriptor_length: u32,
}

impl Command for ThisCommand {
    type ReturnType = Result<CommandResult, Error>;

    open spec fn direction_spec(&self) -> DataDirection {
        DataDirection::FromDevice
    }

    open spec fn command_spec(&self) -> Seq<u8> {
        self.command_buffer@
    }

    open spec fn data_spec(&self) -> Seq<u8> {
        zeros(self.data_size_spec() as nat)
    }

    open spec fn data_size_spec(&self) -> u32 {
        if HEADER_LENGTH + self.max_descriptor_length * DESCRIPTOR_LENGTH > u32::MAX {
            u32::MAX
        } else {
            (HEADER_LENGTH + self.max_descriptor_length * DESCRIPTOR_LENGTH) as u32
        }
    }

    fn direction(&self) -> (r: DataDirection) {
        DataDirection::FromDevice
    }

    fn command(&self) -> (r: Vec<u8>) {
        crate::command::duplicate(self.command_buffer.as_slice())
    }

    fn data(&self) -> (r: Vec<u8>) {
        zeroed(self.data_size() as usize)
    }

    fn data_size(&self) -> (r: u32) {
        if self.max_descriptor_length > MAX_DESCRIPTOR_LENGTH {
            u32::MAX
        } else {
            HEADER_LENGTH + self.max_descriptor_length * DESCRIPTOR_LENGTH
        }
    }

    /// What the device reports, unless the transport or the device reported a
    /// failure.
    fn process_result(&self, result: ResultData) -> (r: Result<CommandResult, Error>)
        ensures
            match r {
                Ok(report) => result.passes() && report.reads(result.data@),
                Err(e) => result.checked(Err(e)),
            },
    {
        result.check_errors()?;
        Ok(CommandResult::from_bytes(result.data.as_slice()))
    }
}

} // verus!
