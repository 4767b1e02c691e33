//! READ CAPACITY (10) and (16): ask for the number and the size of the
//! logical blocks.

use vstd::prelude::*;
use crate::bitfield::{
    field_value, get_field, get_flag, get_u16, get_u32, get_u8, pack_vec, packed, width_upto, zeros,
    Field,
};
use crate::command::{chunk, get_array, zeroed, Command};
use crate::data_direction::DataDirection;
use crate::error::Error;
use crate::result_data::ResultData;
use crate::scsi::Scsi;

verus! {

pub const OPERATION_CODE_10: u8 = 0x25;

pub const OPERATION_CODE_16: u8 = 0x9E;

pub const SERVICE_ACTION_16: u8 = 0x10;

pub const DATA_LENGTH_10: u32 = 8;

pub const DATA_LENGTH_16: u32 = 32;

/// The options of a read capacity.
#[derive(Clone, Copy, Debug)]
pub struct ReadCapacityCommand {
    pub control: u8,
}

impl ReadCapacityCommand {
    /// A read capacity with a control byte of zero.
    pub fn new() -> (r: Self)
        ensures
            r.control == 0,
    {
        ReadCapacityCommand {
            control: 0,
        }
    }

    /// Sets the control byte.
    pub fn control(&mut self, value: u8) -> (r: &mut Self)
        ensures
            *r == (ReadCapacityCommand { control: value, ..*old(self) }),
            *final(self) == *final(r),
    {
        self.control = value;
        self
    }

    /// The descriptor block of READ CAPACITY (10): ten bytes.
    pub open spec fn layout_10(&self) -> Seq<Field> {
        seq![
            Field { width: 8, value: OPERATION_CODE_10 as u64 },
            Field { width: 7, value: 0 },
            Field { width: 1, value: 0 },
            Field { width: 32, value: 0 },
            Field { width: 16, value: 0 },
            Field { width: 7, value: 0 },
            Field { width: 1, value: 0 },
            Field { width: 8, value: self.control as u64 },
        ]
    }

    /// The descriptor block of READ CAPACITY (16): sixteen bytes. It asks for
    /// the thirty-two bytes of parameter data.
    pub open spec fn layout_16(&self) -> Seq<Field> {
        seq![
            Field { width: 8, value: OPERATION_CODE_16 as u64 },
            Field { width: 3, value: 0 },
            Field { width: 5, value: SERVICE_ACTION_16 as u64 },
            Field { width: 64, value: 0 },
            Field { width: 32, value: DATA_LENGTH_16 as u64 },
            Field { width: 7, value: 0 },
            Field { width: 1, value: 0 },
            Field { width: 8, value: self.control as u64 },
        ]
    }

    /// Packs the descriptor block of READ CAPACITY (10). There is nothing to
    /// check.
    pub fn issue_10(&self) -> (r: Result<ThisCommand10, Error>)
        ensures
            r matches Ok(c) && c.command_buffer@ == packed(self.layout_10()),
    {
        reveal_with_fuel(width_upto, 9);
        let command_buffer = pack_vec::<10>(
            &[
                Field { width: 8, value: OPERATION_CODE_10 as u64 },
                Field { width: 7, value: 0 },
                Field { width: 1, value: 0 },
                Field { width: 32, value: 0 },
                Field { width: 16, value: 0 },
                Field { width: 7, value: 0 },
                Field { width: 1, value: 0 },
                Field { width: 8, value: self.control as u64 },
            ],
        );
        Ok(ThisCommand10 { command_buffer })
    }

    /// Packs the descriptor block of READ CAPACITY (16). There is nothing to
    /// check.
    pub fn issue_16(&self) -> (r: Result<ThisCommand16, Error>)
        ensures
            r matches Ok(c) && c.command_buffer@ == packed(self.layout_16()),
    {
        reveal_with_fuel(width_upto, 9);
        let command_buffer = pack_vec::<16>(
            &[
                Field { width: 8, value: OPERATION_CODE_16 as u64 },
                Field { width: 3, value: 0 },
                Field { width: 5, value: SERVICE_ACTION_16 as u64 },
                Field { width: 64, value: 0 },
                Field { width: 32, value: DATA_LENGTH_16 as u64 },
                Field { width: 7, value: 0 },
                Field { width: 1, value: 0 },
                Field { width: 8, value: self.control as u64 },
            ],
        );
        Ok(ThisCommand16 { command_buffer })
    }
}

impl<H> Scsi<H> {
    /// A read capacity with its options at their defaults.
    pub fn read_capacity(&self) -> (r: ReadCapacityCommand)
        ensures
            r.control == 0,
    {
        ReadCapacityCommand::new()
    }
}

/// What READ CAPACITY (10) reports.
#[derive(Clone, Copy, Debug)]
pub struct ReadCapacity10Result {
    /// The address of the last logical block.
    pub returned_logical_block_address: u32,
    pub block_length_in_bytes: u32,
}

impl ReadCapacity10Result {
    /// What the eight bytes of parameter data say: four bytes of address and
    /// four bytes of block length.
    pub open spec fn parsed(data: Seq<u8>) -> ReadCapacity10Result {
        ReadCapacity10Result {
            returned_logical_block_address: field_value(data, 0, 32) as u32,
            block_length_in_bytes: field_value(data, 32, 32) as u32,
        }
    }

    /// Reads the record out of the first 8 bytes of `bytes`; missing bytes
    /// count as zero.
    pub fn from_bytes(bytes: &[u8]) -> (r: Self)
        ensures
            r == Self::parsed(chunk(bytes@, 8, 0)),
    {
        let (data, rest) = get_array::<8>(bytes);
        ReadCapacity10Result {
            returned_logical_block_address: get_u32(data.as_slice(), 0, 32),
            block_length_in_bytes: get_u32(data.as_slice(), 32, 32),
        }
    }
}

/// What READ CAPACITY (16) reports.
#[derive(Clone, Copy, Debug)]
pub struct ReadCapacity16Result {
    /// The address of the last logical block.
    pub returned_logical_block_address: u64,
    pub logical_block_length_in_bytes: u32,
    pub read_capacity_basis: u8,
    pub protection_type: u8,
    pub protection_enabled: bool,
    pub p_i_exponent: u8,
    pub logical_blocks_per_physical_block_exponent: u8,
    pub logical_block_provisioning_management_enabled: bool,
    pub logical_block_provisioning_read_zeros: bool,
    pub lowest_aligned_logical_block_address: u16,
}

impl ReadCapacity16Result {
    /// What the thirty-two bytes of parameter data say; the last sixteen are
    /// reserved.
    pub open spec fn parsed(data: Seq<u8>) -> ReadCapacity16Result {
        ReadCapacity16Result {
            returned_logical_block_address: field_value(data, 0, 64) as u64,
            logical_block_length_in_bytes: field_value(data, 64, 32) as u32,
            read_capacity_basis: field_value(data, 98, 2) as u8,
            protection_type: field_value(data, 100, 3) as u8,
            protection_enabled: field_value(data, 103, 1) != 0,
            p_i_exponent: field_value(data, 104, 4) as u8,
            logical_blocks_per_physical_block_exponent: field_value(data, 108, 4) as u8,
            logical_block_provisioning_management_enabled: field_value(data, 112, 1) != 0,
            logical_block_provisioning_read_zeros: field_value(data, 113, 1) != 0,
            lowest_aligned_logical_block_address: field_value(data, 114, 14) as u16,
        }
    }

    /// Reads the record out of the first 32 bytes of `bytes`; missing bytes
    /// count as zero.
    pub fn from_bytes(bytes: &[u8]) -> (r: Self)
        ensures
            r == Self::parsed(chunk(bytes@, 32, 0)),
    {
        let (data, rest) = get_array::<32>(bytes);
        ReadCapacity16Result {
            returned_logical_block_address: get_field(data.as_slice(), 0, 64),
            logical_block_length_in_bytes: get_u32(data.as_slice(), 64, 32),
            read_capacity_basis: get_u8(data.as_slice(), 98, 2),
            protection_type: get_u8(data.as_slice(), 100, 3),
            protection_enabled: get_flag(data.as_slice(), 103),
            p_i_exponent: get_u8(data.as_slice(), 104, 4),
            logical_blocks_per_physical_block_exponent: get_u8(data.as_slice(), 108, 4),
            logical_block_provisioning_management_enabled: get_flag(data.as_slice(), 112),
            logical_block_provisioning_read_zeros: get_flag(data.as_slice(), 113),
            lowest_aligned_logical_block_address: get_u16(data.as_slice(), 114, 14),
        }
    }
}

/// A READ CAPACITY (10), packed.
#[derive(Debug)]
pub struct ThisCommand10 {
    pub command_buffer: Vec<u8>,
}

impl Command for ThisCommand10 {
    type ReturnType = Result<ReadCapacity10Result, Error>;

    open spec fn direction_spec(&self) -> DataDirection {
        DataDirection::FromDevice
    }

    open spec fn command_spec(&self) -> Seq<u8> {
        self.command_buffer@
    }

    open spec fn data_spec(&self) -> Seq<u8> {
        zeros(8)
    }

    open spec fn data_size_spec(&self) -> u32 {
        8
    }

    fn direction(&self) -> (r: DataDirection) {
        DataDirection::FromDevice
    }

    fn command(&self) -> (r: Vec<u8>) {
        crate::command::duplicate(self.command_buffer.as_slice())
    }

    fn data(&self) -> (r: Vec<u8>) {
        zeroed(8)
    }

    fn data_size(&self) -> (r: u32) {
        8
    }

    /// The capacity, read out of the first 8 bytes that came back, unless the
    /// transport or the device reported a failure.
    fn process_result(&self, result: ResultData) -> (r: Result<ReadCapacity10Result, Error>)
        ensures
            match r {
                Ok(capacity) => result.passes() && capacity == ReadCapacity10Result::parsed(
                    chunk(result.data@, 8, 0),
                ),
                Err(e) => result.checked(Err(e)),
            },
    {
        result.check_errors()?;
        Ok(ReadCapacity10Result::from_bytes(result.data.as_slice()))
    }
}

/// A READ CAPACITY (16), packed.
#[derive(Debug)]
pub struct ThisCommand16 {
    pub command_buffer: Vec<u8>,
}

impl Command for ThisCommand16 {
    type ReturnType = Result<ReadCapacity16Result, Error>;

    open spec fn direction_spec(&self) -> DataDirection {
        DataDirection::FromDevice
    }

    open spec fn command_spec(&self) -> Seq<u8> {
        self.command_buffer@
    }

    open spec fn data_spec(&self) -> Seq<u8> {
        zeros(32)
    }

    open spec fn data_size_spec(&self) -> u32 {
        32
    }

    fn direction(&self) -> (r: DataDirection) {
        DataDirection::FromDevice
    }

    fn command(&self) -> (r: Vec<u8>) {
        crate::command::duplicate(self.command_buffer.as_slice())
    }

    fn data(&self) -> (r: Vec<u8>) {
        zeroed(32)
    }

    fn data_size(&self) -> (r: u32) {
        32
    }

    /// The capacity, read out of the first 32 bytes that came back, unless the
    /// transport or the device reported a failure.
    fn process_result(&self, result: ResultData) -> (r: Result<ReadCapacity16Result, Error>)
        ensures
            match r {
                Ok(capacity) => result.passes() && capacity == ReadCapacity16Result::parsed(
                    chunk(result.data@, 32, 0),
                ),
                Err(e) => result.checked(Err(e)),
            },
    {
        result.check_errors()?;
        Ok(ReadCapacity16Result::from_bytes(result.data.as_slice()))
    }
}

} // verus!
