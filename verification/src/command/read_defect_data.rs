//! READ DEFECT DATA (10) and (12): read the lists of defects that the device
//! keeps.

use vstd::prelude::*;
use crate::bitfield::{
    field_value, get_flag, get_u16, get_u32, pack_vec, packed, width_upto, zeros, Field,
};
use crate::command::{
    after, bitfield_bound_check, chunk, chunk_count, count_chunks, get_array, get_chunk, zeroed,
    Bound, Command,
};
use crate::data_direction::DataDirection;
use crate::error::{BoundCheckError, Error};
use crate::result_data::ResultData;
use crate::scsi::Scsi;

verus! {

pub const OPERATION_CODE_10: u8 = 0x37;

pub const OPERATION_CODE_12: u8 = 0xB7;

pub const HEADER_LENGTH_10: u32 = 4;

pub const HEADER_LENGTH_12: u32 = 8;

pub const MAX_ALLOCATION_LENGTH_10: u32 = 0xFFFF;

pub const MAX_ALLOCATION_LENGTH_12: u32 = 0xFFFF_FFFF;

/// The options of a read defect data. They are checked when a form of the
/// command is chosen, not when they are set.
#[derive(Clone, Copy, Debug)]
pub struct ReadDefectDataCommand {
    pub request_primary_defect_list: bool,
    pub request_grown_defect_list: bool,
    /// Must fit three bits.
    pub defect_list_format: u8,
    /// READ DEFECT DATA (12) only.
    pub address_descriptor_index: u32,
    /// The number of descriptors to make room for.
    pub descriptor_length: u32,
    pub control: u8,
}

impl ReadDefectDataCommand {
    /// A read defect data with every option zero.
    pub fn new() -> (r: Self)
        ensures
            r.request_primary_defect_list == false,
            r.request_grown_defect_list == false,
            r.defect_list_format == 0,
            r.address_descriptor_index == 0,
            r.descriptor_length == 0,
            r.control == 0,
    {
        ReadDefectDataCommand {
            request_primary_defect_list: false,
            request_grown_defect_list: false,
            defect_list_format: 0,
            address_descriptor_index: 0,
            descriptor_length: 0,
            control: 0,
        }
    }

    /// Says whether the primary list is asked for.
    pub fn request_primary_defect_list(&mut self, value: bool) -> (r: &mut Self)
        ensures
            *r == (ReadDefectDataCommand { request_primary_defect_list: value, ..*old(self) }),
            *final(self) == *final(r),
    {
        self.request_primary_defect_list = value;
        self
    }

    /// Says whether the grown list is asked for.
    pub fn request_grown_defect_list(&mut self, value: bool) -> (r: &mut Self)
        ensures
            *r == (ReadDefectDataCommand { request_grown_defect_list: value, ..*old(self) }),
            *final(self) == *final(r),
    {
        self.request_grown_defect_list = value;
        self
    }

    /// Sets the format of the descriptors asked for: below 0x08.
    pub fn defect_list_format(&mut self, value: u8) -> (r: &mut Self)
        ensures
            *r == (ReadDefectDataCommand { defect_list_format: value, ..*old(self) }),
            *final(self) == *final(r),
    {
        self.defect_list_format = value;
        self
    }

    /// Sets the index of the first descriptor asked for: READ DEFECT DATA (12)
    /// only.
    pub fn address_descriptor_index(&mut self, value: u32) -> (r: &mut Self)
        ensures
            *r == (ReadDefectDataCommand { address_descriptor_index: value, ..*old(self) }),
            *final(self) == *final(r),
    {
        self.address_descriptor_index = value;
        self
    }

    /// Sets the number of descriptors to make room for.
    pub fn descriptor_length(&mut self, value: u32) -> (r: &mut Self)
        ensures
            *r == (ReadDefectDataCommand { descriptor_length: value, ..*old(self) }),
            *final(self) == *final(r),
    {
        self.descriptor_length = value;
        self
    }

    /// Sets the control byte.
    pub fn control(&mut self, value: u8) -> (r: &mut Self)
        ensures
            *r == (ReadDefectDataCommand { control: value, ..*old(self) }),
            *final(self) == *final(r),
    {
        self.control = value;
        self
    }

    /// The number of bytes that the descriptors asked for take.
    pub open spec fn descriptors_length_spec(&self) -> u64 {
        (self.descriptor_length as u64 * item_size(self.defect_list_format) as u64) as u64
    }

    /// The number of bytes that the descriptors asked for take.
    #[verifier::when_used_as_spec(descriptors_length_spec)]
    pub fn descriptors_length(&self) -> (r: u64)
        ensures
            r == self.descriptors_length_spec(),
    {
        assert(self.descriptor_length * item_size_spec(self.defect_list_format) <= 0xffff_ffff * 8)
            by (nonlinear_arith)
            requires
                self.descriptor_length <= 0xffff_ffff,
                item_size_spec(self.defect_list_format) <= 8,
        ;
        (self.descriptor_length as u64 * item_size(self.defect_list_format) as u64) as u64
    }

    /// The most descriptors that an answer of `max_allocation_length` bytes
    /// with a header of `header_size` bytes has room for.
    pub open spec fn max_descriptor_length(
        &self,
        header_size: u32,
        max_allocation_length: u32,
    ) -> u32 {
        ((max_allocation_length - header_size)
            / (item_size_spec(self.defect_list_format) as int)) as u32
    }

    /// The check on the defect list format: it has three bits.
    pub open spec fn format_bound(&self) -> Bound {
        Bound { value: self.defect_list_format as u64, bits: 3, name: "defect list format" }
    }

    /// What `error_check` finds wrong with the options, if anything: a defect
    /// list format that does not fit its field; else more descriptors than
    /// the answer has room for; else an address descriptor index where the
    /// form has none.
    pub open spec fn error_check_spec(
        &self,
        header_size: u32,
        max_allocation_length: u32,
        allow_address_descriptor_index: bool,
    ) -> Option<Error> {
        if !self.format_bound().holds() {
            Some(self.format_bound().error())
        } else if self.descriptor_length > self.max_descriptor_length(
            header_size,
            max_allocation_length,
        ) {
            Some(
                Error::ArgumentOutOfBounds(
                    BoundCheckError {
                        name: "Expected descriptor length",
                        max: self.max_descriptor_length(header_size, max_allocation_length) as u64,
                        given: self.descriptor_length as u64,
                    },
                ),
            )
        } else if !allow_address_descriptor_index && self.address_descriptor_index > 0 {
            Some(Error::BadArgument("address descriptor index is not allowed here"))
        } else {
            None
        }
    }

    /// Checks the options against one form of the command, whose answer has a
    /// header of `header_size` bytes and may take `max_allocation_length`
    /// bytes at most.
    pub fn error_check(
        &self,
        header_size: u32,
        max_allocation_length: u32,
        allow_address_descriptor_index: bool,
    ) -> (r: Result<(), Error>)
        requires
            header_size <= max_allocation_length,
        ensures
            match self.error_check_spec(
                header_size,
                max_allocation_length,
                allow_address_descriptor_index,
            ) {
                Some(e) => r == Err::<(), Error>(e),
                None => r is Ok && header_size + self.descriptor_length * item_size_spec(
                    self.defect_list_format,
                ) <= max_allocation_length,
            },
    {
        bitfield_bound_check(self.defect_list_format as u64, 3, "defect list format")?;
        let size = item_size(self.defect_list_format) as u32;
        let max_descriptor_length = (max_allocation_length - header_size) / size;
        if self.descriptor_length > max_descriptor_length {
            return Err(
                Error::ArgumentOutOfBounds(
                    BoundCheckError {
                        name: "Expected descriptor length",
                        max: max_descriptor_length as u64,
                        given: self.descriptor_length as u64,
                    },
                ),
            );
        }
        proof {
            let room = (max_allocation_length - header_size) as int;
            let s = size as int;
            vstd::arithmetic::div_mod::lemma_fundamental_div_mod(room, s);
            vstd::arithmetic::div_mod::lemma_mod_bound(room, s);
            assert(self.descriptor_length * s <= max_descriptor_length * s) by (nonlinear_arith)
                requires
                    self.descriptor_length <= max_descriptor_length,
                    0 < s,
            ;
            assert(s * (room / s) == (room / s) * s) by (nonlinear_arith);
        }
        if !allow_address_descriptor_index && self.address_descriptor_index > 0 {
            return Err(Error::BadArgument("address descriptor index is not allowed here"));
        }
        Ok(())
    }

    /// The number of bytes that a descriptor of the format asked for takes.
    pub fn get_defect_list_item_size(&self) -> (r: usize)
        ensures
            r == item_size_spec(self.defect_list_format),
    {
        item_size(self.defect_list_format)
    }

    /// The descriptor block of READ DEFECT DATA (10): ten bytes.
    pub open spec fn layout_10(&self) -> Seq<Field> {
        seq![
            Field { width: 8, value: OPERATION_CODE_10 as u64 },
            Field { width: 8, value: 0 },
            Field { width: 3, value: 0 },
            Field { width: 1, value: self.request_primary_defect_list as u64 },
            Field { width: 1, value: self.request_grown_defect_list as u64 },
            Field { width: 3, value: self.defect_list_format as u64 },
            Field { width: 32, value: 0 },
            Field {
                width: 16,
                value: (HEADER_LENGTH_10 as u64 + self.descriptors_length()) as u64,
            },
            Field { width: 8, value: self.control as u64 },
        ]
    }

    /// The descriptor block of READ DEFECT DATA (12): twelve bytes.
    pub open spec fn layout_12(&self) -> Seq<Field> {
        seq![
            Field { width: 8, value: OPERATION_CODE_12 as u64 },
            Field { width: 3, value: 0 },
            Field { width: 1, value: self.request_primary_defect_list as u64 },
            Field { width: 1, value: self.request_grown_defect_list as u64 },
            Field { width: 3, value: self.defect_list_format as u64 },
            Field { width: 32, value: self.address_descriptor_index as u64 },
            Field {
                width: 32,
                value: (HEADER_LENGTH_12 as u64 + self.descriptors_length()) as u64,
            },
            Field { width: 8, value: 0 },
            Field { width: 8, value: self.control as u64 },
        ]
    }

    /// Checks the options against READ DEFECT DATA (10) and packs its
    /// descriptor block. The allocation length is the header of the answer
    /// and `descriptor_length` descriptors of the format asked for.
    pub fn issue_10(&self) -> (r: Result<ThisCommand, Error>)
        ensures
            match self.error_check_spec(HEADER_LENGTH_10, MAX_ALLOCATION_LENGTH_10, false) {
                Some(e) => r == Err::<ThisCommand, Error>(e),
                None => r matches Ok(c) && c.command_buffer@ == packed(self.layout_10())
                    && c.extra_allocation_length == self.descriptor_length * item_size_spec(
                    self.defect_list_format,
                ) && c.defect_list_format == self.defect_list_format && c.long_header == false,
            },
    {
        self.error_check(HEADER_LENGTH_10, MAX_ALLOCATION_LENGTH_10, false)?;
        reveal_with_fuel(width_upto, 10);
        let size = item_size(self.defect_list_format) as u32;
        assert(self.descriptor_length * size >= 0) by (nonlinear_arith)
            requires
                self.descriptor_length >= 0,
                size >= 0,
        ;
        let extra_allocation_length = self.descriptor_length * size;
        let command_buffer = pack_vec::<10>(
            &[
                Field { width: 8, value: OPERATION_CODE_10 as u64 },
                Field { width: 8, value: 0 },
                Field { width: 3, value: 0 },
                Field { width: 1, value: self.request_primary_defect_list as u64 },
                Field { width: 1, value: self.request_grown_defect_list as u64 },
                Field { width: 3, value: self.defect_list_format as u64 },
                Field { width: 32, value: 0 },
                Field {
                    width: 16,
                    value: (HEADER_LENGTH_10 as u64 + self.descriptors_length()) as u64,
                },
                Field { width: 8, value: self.control as u64 },
            ],
        );
        Ok(
            ThisCommand {
                command_buffer,
                extra_allocation_length,
                defect_list_format: self.defect_list_format,
                long_header: false,
            },
        )
    }

    /// Checks the options against READ DEFECT DATA (12) and packs its
    /// descriptor block. The allocation length is the header of the answer
    /// and `descriptor_length` descriptors of the format asked for.
    pub fn issue_12(&self) -> (r: Result<ThisCommand, Error>)
        ensures
            match self.error_check_spec(HEADER_LENGTH_12, MAX_ALLOCATION_LENGTH_12, true) {
                Some(e) => r == Err::<ThisCommand, Error>(e),
                None => r matches Ok(c) && c.command_buffer@ == packed(self.layout_12())
                    && c.extra_allocation_length == self.descriptor_length * item_size_spec(
                    self.defect_list_format,
                ) && c.defect_list_format == self.defect_list_format && c.long_header == true,
            },
    {
        self.error_check(HEADER_LENGTH_12, MAX_ALLOCATION_LENGTH_12, true)?;
        reveal_with_fuel(width_upto, 10);
        let size = item_size(self.defect_list_format) as u32;
        assert(self.descriptor_length * size >= 0) by (nonlinear_arith)
            requires
                self.descriptor_length >= 0,
                size >= 0,
        ;
        let extra_allocation_length = self.descriptor_length * size;
        let command_buffer = pack_vec::<12>(
            &[
                Field { width: 8, value: OPERATION_CODE_12 as u64 },
                Field { width: 3, value: 0 },
                Field { width: 1, value: self.request_primary_defect_list as u64 },
                Field { width: 1, value: self.request_grown_defect_list as u64 },
                Field { width: 3, value: self.defect_list_format as u64 },
                Field { width: 32, value: self.address_descriptor_index as u64 },
                Field {
                    width: 32,
                    value: (HEADER_LENGTH_12 as u64 + self.descriptors_length()) as u64,
                },
                Field { width: 8, value: 0 },
                Field { width: 8, value: self.control as u64 },
            ],
        );
        Ok(
            ThisCommand {
                command_buffer,
                extra_allocation_length,
                defect_list_format: self.defect_list_format,
                long_header: true,
            },
        )
    }
}

impl<H> Scsi<H> {
    /// A read defect data with its options at their defaults.
    pub fn read_defect_data(&self) -> (r: ReadDefectDataCommand)
        ensures
            r.request_primary_defect_list == false,
            r.request_grown_defect_list == false,
            r.defect_list_format == 0,
            r.address_descriptor_index == 0,
            r.descriptor_length == 0,
            r.control == 0,
    {
        ReadDefectDataCommand::new()
    }
}

pub use crate::command::format_unit::{
    BytesFromIndexFormatAddressDescriptor, ExtendedBytesFromIndexAddressDescriptor,
    ExtendedPhysicalSectorAddressDescriptor, LongBlockFormatAddressDescriptor,
    PhysicalSectorFormatAddressDescriptor, ShortBlockFormatAddressDescriptor,
};

/// The number of bytes that a descriptor of a defect list format takes; one
/// for the formats that have no descriptor of their own.
pub open spec fn item_size_spec(defect_list_format: u8) -> usize {
    if defect_list_format == 0 {
        4
    } else if 1 <= defect_list_format <= 5 {
        8
    } else {
        1
    }
}

/// The number of bytes that a descriptor of a defect list format takes.
#[verifier::when_used_as_spec(item_size_spec)]
pub fn item_size(defect_list_format: u8) -> (r: usize)
    ensures
        r == item_size_spec(defect_list_format),
{
    match defect_list_format {
        0 => 4,
        1 => 8,
        2 => 8,
        3 => 8,
        4 => 8,
        5 => 8,
        _ => 1,
    }
}

/// A defect list, by the format of its descriptors.
#[derive(Debug)]
pub enum DefectList {
    ShortBlockFormat(Vec<ShortBlockFormatAddressDescriptor>),
    ExtendedBytesFromIndex(Vec<ExtendedBytesFromIndexAddressDescriptor>),
    ExtendedPhysicalSector(Vec<ExtendedPhysicalSectorAddressDescriptor>),
    LongBlockFormat(Vec<LongBlockFormatAddressDescriptor>),
    BytesFromIndexFormat(Vec<BytesFromIndexFormatAddressDescriptor>),
    PhysicalSectorFormat(Vec<PhysicalSectorFormatAddressDescriptor>),
    /// The bytes of a list in a format that has no descriptor here.
    Custom(Vec<u8>),
}

/// The descriptors that `bytes` hold, 4 bytes each; a last shorter piece
/// is filled up with zeros.
pub open spec fn short_block_format_spec(bytes: Seq<u8>) -> Seq<ShortBlockFormatAddressDescriptor> {
    Seq::new(chunk_count(bytes.len(), 4),
        |i: int| ShortBlockFormatAddressDescriptor::parsed(chunk(bytes, 4, i)))
}

fn short_block_format(bytes: &[u8]) -> (r: Vec<ShortBlockFormatAddressDescriptor>)
    ensures
        r@ == short_block_format_spec(bytes@),
{
    let count = count_chunks::<4>(bytes);
    let mut r: Vec<ShortBlockFormatAddressDescriptor> = Vec::new();
    let mut i: usize = 0;
    while i < count
        invariant
            i <= count,
            count == chunk_count(bytes@.len(), 4),
            r@ == short_block_format_spec(bytes@).take(i as int),
        decreases count - i,
    {
        let piece = get_chunk::<4>(bytes, i);
        r.push(ShortBlockFormatAddressDescriptor::from_bytes(&piece));
        assert(r@ =~= short_block_format_spec(bytes@).take(i + 1));
        i = i + 1;
    }
    assert(r@ =~= short_block_format_spec(bytes@));
    r
}

/// The descriptors that `bytes` hold, 8 bytes each; a last shorter piece
/// is filled up with zeros.
pub open spec fn extended_bytes_from_index_spec(bytes: Seq<u8>)
    -> Seq<ExtendedBytesFromIndexAddressDescriptor> {
    Seq::new(chunk_count(bytes.len(), 8),
        |i: int| ExtendedBytesFromIndexAddressDescriptor::parsed(chunk(bytes, 8, i)))
}

fn extended_bytes_from_index(bytes: &[u8]) -> (r: Vec<ExtendedBytesFromIndexAddressDescriptor>)
    ensures
        r@ == extended_bytes_from_index_spec(bytes@),
{
    let count = count_chunks::<8>(bytes);
    let mut r: Vec<ExtendedBytesFromIndexAddressDescriptor> = Vec::new();
    let mut i: usize = 0;
    while i < count
        invariant
            i <= count,
            count == chunk_count(bytes@.len(), 8),
            r@ == extended_bytes_from_index_spec(bytes@).take(i as int),
        decreases count - i,
    {
        let piece = get_chunk::<8>(bytes, i);
        r.push(ExtendedBytesFromIndexAddressDescriptor::from_bytes(&piece));
        assert(r@ =~= extended_bytes_from_index_spec(bytes@).take(i + 1));
        i = i + 1;
    }
    assert(r@ =~= extended_bytes_from_index_spec(bytes@));
    r
}

/// The descriptors that `bytes` hold, 8 bytes each; a last shorter piece
/// is filled up with zeros.
pub open spec fn extended_physical_sector_spec(bytes: Seq<u8>)
    -> Seq<ExtendedPhysicalSectorAddressDescriptor> {
    Seq::new(chunk_count(bytes.len(), 8),
        |i: int| ExtendedPhysicalSectorAddressDescriptor::parsed(chunk(bytes, 8, i)))
}

fn extended_physical_sector(bytes: &[u8]) -> (r: Vec<ExtendedPhysicalSectorAddressDescriptor>)
    ensures
        r@ == extended_physical_sector_spec(bytes@),
{
    let count = count_chunks::<8>(bytes);
    let mut r: Vec<ExtendedPhysicalSectorAddressDescriptor> = Vec::new();
    let mut i: usize = 0;
    while i < count
        invariant
            i <= count,
            count == chunk_count(bytes@.len(), 8),
            r@ == extended_physical_sector_spec(bytes@).take(i as int),
        decreases count - i,
    {
        let piece = get_chunk::<8>(bytes, i);
        r.push(ExtendedPhysicalSectorAddressDescriptor::from_bytes(&piece));
        assert(r@ =~= extended_physical_sector_spec(bytes@).take(i + 1));
        i = i + 1;
    }
    assert(r@ =~= extended_physical_sector_spec(bytes@));
    r
}

/// The descriptors that `bytes` hold, 8 bytes each; a last shorter piece
/// is filled up with zeros.
pub open spec fn long_block_format_spec(bytes: Seq<u8>) -> Seq<LongBlockFormatAddressDescriptor> {
    Seq::new(chunk_count(bytes.len(), 8),
        |i: int| LongBlockFormatAddressDescriptor::parsed(chunk(bytes, 8, i)))
}

fn long_block_format(bytes: &[u8]) -> (r: Vec<LongBlockFormatAddressDescriptor>)
    ensures
        r@ == long_block_format_spec(bytes@),
{
    let count = count_chunks::<8>(bytes);
    let mut r: Vec<LongBlockFormatAddressDescriptor> = Vec::new();
    let mut i: usize = 0;
    while i < count
        invariant
            i <= count,
            count == chunk_count(bytes@.len(), 8),
            r@ == long_block_format_spec(bytes@).take(i as int),
        decreases count - i,
    {
        let piece = get_chunk::<8>(bytes, i);
        r.push(LongBlockFormatAddressDescriptor::from_bytes(&piece));
        assert(r@ =~= long_block_format_spec(bytes@).take(i + 1));
        i = i + 1;
    }
    assert(r@ =~= long_block_format_spec(bytes@));
    r
}

/// The descriptors that `bytes` hold, 8 bytes each; a last shorter piece
/// is filled up with zeros.
pub open spec fn bytes_from_index_format_spec(bytes: Seq<u8>)
    -> Seq<BytesFromIndexFormatAddressDescriptor> {
    Seq::new(chunk_count(bytes.len(), 8),
        |i: int| BytesFromIndexFormatAddressDescriptor::parsed(chunk(bytes, 8, i)))
}

fn bytes_from_index_format(bytes: &[u8]) -> (r: Vec<BytesFromIndexFormatAddressDescriptor>)
    ensures
        r@ == bytes_from_index_format_spec(bytes@),
{
    let count = count_chunks::<8>(bytes);
    let mut r: Vec<BytesFromIndexFormatAddressDescriptor> = Vec::new();
    let mut i: usize = 0;
    while i < count
        invariant
            i <= count,
            count == chunk_count(bytes@.len(), 8),
            r@ == bytes_from_index_format_spec(bytes@).take(i as int),
        decreases count - i,
    {
        let piece = get_chunk::<8>(bytes, i);
        r.push(BytesFromIndexFormatAddressDescriptor::from_bytes(&piece));
        assert(r@ =~= bytes_from_index_format_spec(bytes@).take(i + 1));
        i = i + 1;
    }
    assert(r@ =~= bytes_from_index_format_spec(bytes@));
    r
}

/// The descriptors that `bytes` hold, 8 bytes each; a last shorter piece
/// is filled up with zeros.
pub open spec fn physical_sector_format_spec(bytes: Seq<u8>)
    -> Seq<PhysicalSectorFormatAddressDescriptor> {
    Seq::new(chunk_count(bytes.len(), 8),
        |i: int| PhysicalSectorFormatAddressDescriptor::parsed(chunk(bytes, 8, i)))
}

fn physical_sector_format(bytes: &[u8]) -> (r: Vec<PhysicalSectorFormatAddressDescriptor>)
    ensures
        r@ == physical_sector_format_spec(bytes@),
{
    let count = count_chunks::<8>(bytes);
    let mut r: Vec<PhysicalSectorFormatAddressDescriptor> = Vec::new();
    let mut i: usize = 0;
    while i < count
        invariant
            i <= count,
            count == chunk_count(bytes@.len(), 8),
            r@ == physical_sector_format_spec(bytes@).take(i as int),
        decreases count - i,
    {
        let piece = get_chunk::<8>(bytes, i);
        r.push(PhysicalSectorFormatAddressDescriptor::from_bytes(&piece));
        assert(r@ =~= physical_sector_format_spec(bytes@).take(i + 1));
        i = i + 1;
    }
    assert(r@ =~= physical_sector_format_spec(bytes@));
    r
}

impl DefectList {
    /// Whether this is the list that `bytes` hold in a defect list format:
    /// the descriptors of that format, one for each piece of their size, or
    /// the bytes as they are for a format without descriptors here.
    pub open spec fn reads(&self, defect_list_format: u8, bytes: Seq<u8>) -> bool {
        match defect_list_format {
            0 => *self matches DefectList::ShortBlockFormat(list)
                && list@ == short_block_format_spec(bytes),
            1 => *self matches DefectList::ExtendedBytesFromIndex(list)
                && list@ == extended_bytes_from_index_spec(bytes),
            2 => *self matches DefectList::ExtendedPhysicalSector(list)
                && list@ == extended_physical_sector_spec(bytes),
            3 => *self matches DefectList::LongBlockFormat(list)
                && list@ == long_block_format_spec(bytes),
            4 => *self matches DefectList::BytesFromIndexFormat(list)
                && list@ == bytes_from_index_format_spec(bytes),
            5 => *self matches DefectList::PhysicalSectorFormat(list)
                && list@ == physical_sector_format_spec(bytes),
            _ => *self matches DefectList::Custom(list) && list@ == bytes,
        }
    }

    /// Reads a defect list in a defect list format.
    pub fn from_bytes(defect_list_format: u8, bytes: &[u8]) -> (r: Self)
        ensures
            r.reads(defect_list_format, bytes@),
    {
        match defect_list_format {
            0 => DefectList::ShortBlockFormat(short_block_format(bytes)),
            1 => DefectList::ExtendedBytesFromIndex(extended_bytes_from_index(bytes)),
            2 => DefectList::ExtendedPhysicalSector(extended_physical_sector(bytes)),
            3 => DefectList::LongBlockFormat(long_block_format(bytes)),
            4 => DefectList::BytesFromIndexFormat(bytes_from_index_format(bytes)),
            5 => DefectList::PhysicalSectorFormat(physical_sector_format(bytes)),
            _ => DefectList::Custom(crate::command::duplicate(bytes)),
        }
    }
}

/// What READ DEFECT DATA reports.
#[derive(Debug)]
pub struct CommandResult {
    pub primary_defect_list_valid: bool,
    pub grown_defect_list_valid: bool,
    /// The number of descriptors that the device has, as the header of the
    /// answer declares it.
    pub total_descriptor_length: u32,
    /// The descriptors that came back.
    pub descriptors: DefectList,
}

impl CommandResult {
    /// The fields of the header of an answer: a reserved byte, three
    /// reserved bits, the two valid bits, three bits of format, and the
    /// length of the list in the last two bytes of a header of four bytes or
    /// the last four bytes of a header of eight.
    pub open spec fn header_reads(&self, defect_list_format: u8, header: Seq<u8>) -> bool {
        &&& self.primary_defect_list_valid == (field_value(header, 11, 1) != 0)
        &&& self.grown_defect_list_valid == (field_value(header, 12, 1) != 0)
        &&& self.total_descriptor_length == (if header.len() == 4 {
            field_value(header, 16, 16)
        } else {
            field_value(header, 32, 32)
        }) / (item_size_spec(defect_list_format) as nat)
    }

    /// Whether this is what `data` say in answer to a command that asked for
    /// a defect list format and has a header of `header_length` bytes.
    /// Missing bytes count as zero.
    pub open spec fn reads(
        &self,
        defect_list_format: u8,
        header_length: nat,
        data: Seq<u8>,
    ) -> bool {
        &&& self.header_reads(defect_list_format, chunk(data, header_length, 0))
        &&& self.descriptors.reads(defect_list_format, after(data, header_length))
    }
}

/// A read defect data that passed its checks: the packed descriptor block,
/// the format that was asked for, and the size of the buffer for the answer.
#[derive(Debug)]
pub struct ThisCommand {
    pub command_buffer: Vec<u8>,
    /// The room for the descriptors in bytes.
    pub extra_allocation_length: u32,
    pub defect_list_format: u8,
    /// Whether the answer has the header of twelve-byte form: eight bytes
    /// where the ten-byte form has four.
    pub long_header: bool,
}

impl ThisCommand {
    /// The number of bytes of the header of the answer.
    pub open spec fn header_length(&self) -> nat {
        if self.long_header {
            HEADER_LENGTH_12 as nat
        } else {
            HEADER_LENGTH_10 as nat
        }
    }
}

impl Command for ThisCommand {
    type ReturnType = Result<CommandResult, Error>;

    open spec fn direction_spec(&self) -> DataDirection {
        DataDirection::FromDevice
    }

    open spec fn command_spec(&self) -> Seq<u8> {
        self.command_buffer@
    }

    open spec fn data_spec(&self) -> Seq<u8> {
        zeros(self.data_size_spec() as nat)
    }

    open spec fn data_size_spec(&self) -> u32 {
        if self.extra_allocation_length + self.header_length() > u32::MAX {
            u32::MAX
        } else {
            (self.extra_allocation_length + self.header_length()) as u32
        }
    }

    fn direction(&self) -> (r: DataDirection) {
        DataDirection::FromDevice
    }

    fn command(&self) -> (r: Vec<u8>) {
        crate::command::duplicate(self.command_buffer.as_slice())
    }

    fn data(&self) -> (r: Vec<u8>) {
        zeroed(self.data_size() as usize)
    }

    fn data_size(&self) -> (r: u32) {
        let header: u32 = if self.long_header {
            HEADER_LENGTH_12
        } else {
            HEADER_LENGTH_10
        };
        if self.extra_allocation_length > u32::MAX - header {
            u32::MAX
        } else {
            self.extra_allocation_length + header
        }
    }

    /// What the device reports, unless the transport or the device reported
    /// a failure.
    fn process_result(&self, result: ResultData) -> (r: Result<CommandResult, Error>)
        ensures
            match r {
                Ok(report) => result.passes() && report.reads(
                    self.defect_list_format,
                    self.header_length(),
                    result.data@,
                ),
                Err(e) => result.checked(Err(e)),
            },
    {
        result.check_errors()?;
        let size = item_size(self.defect_list_format);
        if self.long_header {
            let (header, elements) = get_array::<8>(result.data.as_slice());
            Ok(
                CommandResult {
                    primary_defect_list_valid: get_flag(header.as_slice(), 11),
                    grown_defect_list_valid: get_flag(header.as_slice(), 12),
                    total_descriptor_length: get_u32(header.as_slice(), 32, 32) / size as u32,
                    descriptors: DefectList::from_bytes(self.defect_list_format, elements),
                },
            )
        } else {
            let (header, elements) = get_array::<4>(result.data.as_slice());
            Ok(
                CommandResult {
                    primary_defect_list_valid: get_flag(header.as_slice(), 11),
                    grown_defect_list_valid: get_flag(header.as_slice(), 12),
                    total_descriptor_length: get_u16(header.as_slice(), 16, 16) as u32
                        / size as u32,
                    descriptors: DefectList::from_bytes(self.defect_list_format, elements),
                },
            )
        }
    }
}

} // verus!
