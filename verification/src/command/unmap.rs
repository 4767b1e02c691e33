//! UNMAP: tell the device that ranges of logical blocks hold nothing that
//! is needed.

use vstd::prelude::*;
use crate::bitfield::{pack, pack_vec, packed, width_upto, zeros, Field};
use crate::command::{bitfield_bound_check, check_bounds, first_failure, Bound, Command};
use crate::data_direction::DataDirection;
use crate::data_wrapper::{wire_concat, FlexibleStruct};
use crate::error::Error;
use crate::result_data::ResultData;
use crate::scsi::Scsi;

verus! {

pub const OPERATION_CODE: u8 = 0x42;

/// The number of bytes of the header of the parameter list.
pub const HEADER_LENGTH: u64 = 8;

/// The number of bytes of a block descriptor.
pub const DESCRIPTOR_LENGTH: u64 = 16;

/// The header of the parameter list of UNMAP.
#[derive(Clone, Copy, Debug)]
pub struct UnmapParameterHeader {
    /// The number of bytes that follow this field.
    pub unmap_data_length: u16,
    /// The number of bytes that the block descriptors take.
    pub unmap_block_descriptor_data_length: u16,
}

impl UnmapParameterHeader {
    /// The fields of the record in the order they travel: 8 bytes.
    pub open spec fn layout(&self) -> Seq<Field> {
        seq![
            Field { width: 16, value: self.unmap_data_length as u64 },
            Field { width: 16, value: self.unmap_block_descriptor_data_length as u64 },
            Field { width: 32, value: 0 },
        ]
    }

    /// Packs the record into its 8 bytes.
    pub fn to_bytes(&self) -> (r: [u8; 8])
        ensures
            r@ == packed(self.layout()),
    {
        reveal_with_fuel(width_upto, 4);
        pack(
            &[
                Field { width: 16, value: self.unmap_data_length as u64 },
                Field { width: 16, value: self.unmap_block_descriptor_data_length as u64 },
                Field { width: 32, value: 0 },
            ],
        )
    }
}

/// A range of logical blocks to unmap.
#[derive(Clone, Copy, Debug)]
pub struct UnmapBlockDescriptor {
    pub unmap_logical_block_address: u64,
    pub number_of_logical_blocks: u32,
}

impl UnmapBlockDescriptor {
    /// The fields of the record in the order they travel: 16 bytes.
    pub open spec fn layout(&self) -> Seq<Field> {
        seq![
            Field { width: 64, value: self.unmap_logical_block_address },
            Field { width: 32, value: self.number_of_logical_blocks as u64 },
            Field { width: 32, value: 0 },
        ]
    }

    /// Packs the record into its 16 bytes.
    pub fn to_bytes(&self) -> (r: [u8; 16])
        ensures
            r@ == packed(self.layout()),
    {
        reveal_with_fuel(width_upto, 4);
        pack(
            &[
                Field { width: 64, value: self.unmap_logical_block_address },
                Field { width: 32, value: self.number_of_logical_blocks as u64 },
                Field { width: 32, value: 0 },
            ],
        )
    }
}

/// The bytes of a row of block descriptors, one after the other.
pub open spec fn descriptors_bytes(descriptors: Seq<UnmapBlockDescriptor>) -> Seq<u8>
    decreases descriptors.len(),
{
    if descriptors.len() == 0 {
        Seq::empty()
    } else {
        descriptors_bytes(descriptors.drop_last()) + packed(descriptors.last().layout())
    }
}

/// The number of bytes of a parameter list of `count` block descriptors, as
/// far as sixty-four bits hold it.
pub open spec fn total_size(count: nat) -> u64 {
    if HEADER_LENGTH + DESCRIPTOR_LENGTH * count > u64::MAX {
        u64::MAX
    } else {
        (HEADER_LENGTH + DESCRIPTOR_LENGTH * count) as u64
    }
}

/// The options and the parameter list of an unmap. They are checked when the
/// command is issued, not when they are set.
#[derive(Debug)]
pub struct UnmapCommand {
    pub anchor: bool,
    /// Must fit five bits.
    pub group_number: u8,
    pub control: u8,
    /// The length that the descriptor block declares. Set by the parameter
    /// builder.
    pub parameter_list_length: u16,
    /// The packed parameter list: a header of zeros until a parameter builder
    /// is done.
    pub data_buffer: Vec<u8>,
}

impl UnmapCommand {
    /// An unmap with every option zero and a parameter list of nothing but a
    /// header of zeros.
    pub fn new() -> (r: Self)
        ensures
            r.anchor == false,
            r.group_number == 0,
            r.control == 0,
            r.parameter_list_length == 0,
            r.data_buffer@ == zeros(8),
    {
        UnmapCommand {
            anchor: false,
            group_number: 0,
            control: 0,
            parameter_list_length: 0,
            data_buffer: crate::command::zeroed(8),
        }
    }

    /// Sets the anchor bit.
    pub fn anchor(&mut self, anchor: bool) -> (r: &mut Self)
        ensures
            *r == (UnmapCommand { anchor: anchor, ..*old(self) }),
            *final(self) == *final(r),
    {
        self.anchor = anchor;
        self
    }

    /// Sets the group number: below 0x20.
    pub fn group_number(&mut self, group_number: u8) -> (r: &mut Self)
        ensures
            *r == (UnmapCommand { group_number: group_number, ..*old(self) }),
            *final(self) == *final(r),
    {
        self.group_number = group_number;
        self
    }

    /// Sets the control byte.
    pub fn control(&mut self, control: u8) -> (r: &mut Self)
        ensures
            *r == (UnmapCommand { control: control, ..*old(self) }),
            *final(self) == *final(r),
    {
        self.control = control;
        self
    }

    /// Starts a parameter list for this command. Nothing of the command
    /// changes before the list is done.
    pub fn parameter<'a>(&'a mut self) -> (r: ParameterBuilder<'a>)
        ensures
            *r.parent == *old(self),
            *final(r.parent) == *final(self),
            r.descriptors@ == Seq::<UnmapBlockDescriptor>::empty(),
    {
        ParameterBuilder { parent: self, descriptors: Vec::new() }
    }

    /// The descriptor block of UNMAP: ten bytes.
    pub open spec fn layout(&self) -> Seq<Field> {
        seq![
            Field { width: 8, value: OPERATION_CODE as u64 },
            Field { width: 7, value: 0 },
            Field { width: 1, value: self.anchor as u64 },
            Field { width: 32, value: 0 },
            Field { width: 3, value: 0 },
            Field { width: 5, value: self.group_number as u64 },
            Field { width: 16, value: self.parameter_list_length as u64 },
            Field { width: 8, value: self.control as u64 },
        ]
    }

    /// The bound checks that `issue` makes, in their order.
    pub open spec fn issue_bounds(&self) -> Seq<Bound> {
        seq![
            Bound { value: self.group_number as u64, bits: 5, name: "group number" },
        ]
    }

    /// What `issue` finds wrong with the options, if anything: the first
    /// bound that fails.
    pub open spec fn issue_check(&self) -> Option<Error> {
        match first_failure(self.issue_bounds()) {
            Some(e) => Some(e),
            None => {
                None
            },
        }
    }

    /// Checks the group number and packs the descriptor block. The parameter
    /// list was checked when its builder was done.
    pub fn issue(&self) -> (r: Result<ThisCommand, Error>)
        ensures
            match self.issue_check() {
                Some(e) => r == Err::<ThisCommand, Error>(e),
                None => r matches Ok(c) && c.command_buffer@ == packed(self.layout())
                    && c.data_buffer@ == self.data_buffer@,
            },
    {
        let bounds = [Bound { value: self.group_number as u64, bits: 5, name: "group number" }];
        assert(bounds@ =~= seq![
            Bound { value: self.group_number as u64, bits: 5, name: "group number" },
        ]);
        check_bounds(&bounds)?;
        reveal_with_fuel(width_upto, 9);
        let command_buffer = pack_vec::<10>(
            &[
                Field { width: 8, value: OPERATION_CODE as u64 },
                Field { width: 7, value: 0 },
                Field { width: 1, value: self.anchor as u64 },
                Field { width: 32, value: 0 },
                Field { width: 3, value: 0 },
                Field { width: 5, value: self.group_number as u64 },
                Field { width: 16, value: self.parameter_list_length as u64 },
                Field { width: 8, value: self.control as u64 },
            ],
        );
        Ok(
            ThisCommand {
                command_buffer,
                data_buffer: crate::command::duplicate(self.data_buffer.as_slice()),
            },
        )
    }
}

/// The parameter list of an unmap, while it is put together.
#[derive(Debug)]
pub struct ParameterBuilder<'a> {
    pub parent: &'a mut UnmapCommand,
    pub descriptors: Vec<UnmapBlockDescriptor>,
}

impl<'a> ParameterBuilder<'a> {
    /// Appends a range of logical blocks. A list may hold 4095 ranges at
    /// most when it is done.
    pub fn add_block_descriptor(
        &mut self,
        unmap_logical_block_address: u64,
        number_of_logical_blocks: u32,
    ) -> (r: &mut Self)
        ensures
            r.descriptors@ == old(self).descriptors@.push(
                UnmapBlockDescriptor { unmap_logical_block_address, number_of_logical_blocks },
            ),
            r.parent == old(self).parent,
            *final(self) == *final(r),
    {
        self.descriptors.push(
            UnmapBlockDescriptor { unmap_logical_block_address, number_of_logical_blocks },
        );
        self
    }

    /// The check on the length of the list: the descriptor block declares
    /// it in sixteen bits.
    pub open spec fn length_bound(&self) -> Bound {
        Bound {
            value: total_size(self.descriptors@.len()),
            bits: 16,
            name: "parameter list length",
        }
    }

    /// The header of the list: it declares the bytes after its first field,
    /// and the bytes of the block descriptors.
    pub open spec fn header(&self) -> UnmapParameterHeader {
        UnmapParameterHeader {
            unmap_data_length: (total_size(self.descriptors@.len()) - 2) as u16,
            unmap_block_descriptor_data_length: (total_size(self.descriptors@.len())
                - HEADER_LENGTH) as u16,
        }
    }

    /// Checks the length of the list and hands the list to the command: the
    /// length for the descriptor block, and the header and the block
    /// descriptors, packed one after the other. Where the check fails, the
    /// command stays as it was.
    pub fn done(self) -> (r: Result<&'a mut UnmapCommand, Error>)
        ensures
            if !self.length_bound().holds() {
                r matches Err(err) && err == self.length_bound().error() && *final(self.parent)
                    == *old(self.parent)
            } else {
                r matches Ok(command) && command.parameter_list_length == total_size(
                    self.descriptors@.len(),
                ) && command.data_buffer@ == packed(self.header().layout()) + descriptors_bytes(
                    self.descriptors@,
                ) && command.anchor == old(self.parent).anchor && command.group_number == old(
                    self.parent,
                ).group_number && command.control == old(self.parent).control && *final(command)
                    == *final(self.parent)
            },
    {
        let count = self.descriptors.len();
        assert(DESCRIPTOR_LENGTH * count == 16 * count);
        let wide = HEADER_LENGTH as u128 + DESCRIPTOR_LENGTH as u128 * count as u128;
        let total: u64 = if wide > u64::MAX as u128 {
            u64::MAX
        } else {
            wide as u64
        };
        bitfield_bound_check(total, 16, "parameter list length")?;
        proof {
            vstd::arithmetic::power2::lemma2_to64();
        }
        let header = UnmapParameterHeader {
            unmap_data_length: (total - 2) as u16,
            unmap_block_descriptor_data_length: (total - HEADER_LENGTH) as u16,
        };
        assert(FlexibleStruct::<[u8; 8], [u8; 16]>::start(count as int) == 8 + count * 16);
        let mut record = FlexibleStruct::<[u8; 8], [u8; 16]>::with_body_capacity(
            header.to_bytes(),
            count,
        );
        let mut i: usize = 0;
        assert(self.descriptors@.take(0) =~= Seq::<UnmapBlockDescriptor>::empty());
        while i < count
            invariant
                i <= count,
                count == self.descriptors@.len(),
                record.wf(),
                record@.capacity == count,
                record@.elements.len() == i,
                record@.body@ == packed(header.layout()),
                wire_concat(record@.elements) == descriptors_bytes(
                    self.descriptors@.take(i as int),
                ),
            decreases count - i,
        {
            let bytes = self.descriptors[i].to_bytes();
            let ghost before = record@.elements;
            record.push(bytes);
            proof {
                assert(record@.elements.drop_last() =~= before);
                assert(self.descriptors@.take(i + 1).drop_last() =~= self.descriptors@.take(
                    i as int,
                ));
            }
            i = i + 1;
        }
        assert(self.descriptors@.take(count as int) =~= self.descriptors@);
        self.parent.parameter_list_length = total as u16;
        self.parent.data_buffer = crate::command::duplicate(record.as_bytes());
        Ok(self.parent)
    }
}

impl<H> Scsi<H> {
    /// An unmap with its options at their defaults.
    pub fn unmap(&self) -> (r: UnmapCommand)
        ensures
            r.anchor == false,
            r.group_number == 0,
            r.control == 0,
            r.parameter_list_length == 0,
            r.data_buffer@ == zeros(8),
    {
        UnmapCommand::new()
    }
}

/// An unmap that passed its checks: the packed descriptor block and the packed
/// parameter list.
#[derive(Debug)]
pub struct ThisCommand {
    pub command_buffer: Vec<u8>,
    pub data_buffer: Vec<u8>,
}

impl Command for ThisCommand {
    type ReturnType = Result<(), Error>;

    open spec fn direction_spec(&self) -> DataDirection {
        DataDirection::ToDevice
    }

    open spec fn command_spec(&self) -> Seq<u8> {
        self.command_buffer@
    }

    open spec fn data_spec(&self) -> Seq<u8> {
        self.data_buffer@
    }

    open spec fn data_size_spec(&self) -> u32 {
        (self.data_buffer@.len() % 0x1_0000_0000) as u32
    }

    fn direction(&self) -> (r: DataDirection) {
        DataDirection::ToDevice
    }

    fn command(&self) -> (r: Vec<u8>) {
        let r = self.command_buffer.clone();
        assert(r@ =~= self.command_buffer@);
        r
    }

    fn data(&self) -> (r: Vec<u8>) {
        let r = self.data_buffer.clone();
        assert(r@ =~= self.data_buffer@);
        r
    }

    fn data_size(&self) -> (r: u32) {
        (self.data_buffer.len() as u64 % 0x1_0000_0000) as u32
    }

    /// Nothing, unless the transport or the device reported a failure.
    fn process_result(&self, result: ResultData) -> (r: Result<(), Error>)
        ensures
            match r {
                Ok(()) => result.passes(),
                Err(e) => result.checked(Err(e)),
            },
    {
        result.check_errors()
    }
}

} // verus!
