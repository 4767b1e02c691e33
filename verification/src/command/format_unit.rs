//! FORMAT UNIT: format the medium, with an optional parameter list of a
//! header, an initialization pattern and a list of defects.

use vstd::prelude::*;
use crate::bitfield::{
    field_value, get_field, get_flag, get_u32, get_u8, pack, pack_vec, packed, width_upto, Field,
};
use crate::command::{bitfield_bound_check, check_bounds, first_failure, Bound, Command};
use crate::data_direction::DataDirection;
use crate::error::Error;
use crate::result_data::ResultData;
use crate::scsi::Scsi;

verus! {

pub const OPERATION_CODE: u8 = 0x04;

/// The header of the parameter list, in its long form of eight bytes.
#[derive(Clone, Copy, Debug)]
pub struct LongParameterListHeader {
    /// Must fit three bits.
    pub protection_fields_usage: u8,
    pub format_options_valid: bool,
    pub disable_primary: bool,
    pub disable_certification: bool,
    pub stop_format: bool,
    /// Whether an initialization pattern descriptor follows the header.
    pub initialization_pattern: bool,
    pub immediate: bool,
    pub vendor_specific: bool,
    /// Must fit four bits. The short header has no such field.
    pub protection_interval_exponent: u8,
    /// The number of bytes of the defect list that follows.
    pub defect_list_length: u32,
}

impl LongParameterListHeader {
    /// The fields of the record in the order they travel: 8 bytes.
    pub open spec fn layout(&self) -> Seq<Field> {
        seq![
            Field { width: 5, value: 0 },
            Field { width: 3, value: self.protection_fields_usage as u64 },
            Field { width: 1, value: self.format_options_valid as u64 },
            Field { width: 1, value: self.disable_primary as u64 },
            Field { width: 1, value: self.disable_certification as u64 },
            Field { width: 1, value: self.stop_format as u64 },
            Field { width: 1, value: self.initialization_pattern as u64 },
            Field { width: 1, value: 0 },
            Field { width: 1, value: self.immediate as u64 },
            Field { width: 1, value: self.vendor_specific as u64 },
            Field { width: 8, value: 0 },
            Field { width: 4, value: 0 },
            Field { width: 4, value: self.protection_interval_exponent as u64 },
            Field { width: 32, value: self.defect_list_length as u64 },
        ]
    }

    /// Packs the record into its 8 bytes.
    pub fn to_bytes(&self) -> (r: [u8; 8])
        ensures
            r@ == packed(self.layout()),
    {
        reveal_with_fuel(width_upto, 15);
        pack(
            &[
                Field { width: 5, value: 0 },
                Field { width: 3, value: self.protection_fields_usage as u64 },
                Field { width: 1, value: self.format_options_valid as u64 },
                Field { width: 1, value: self.disable_primary as u64 },
                Field { width: 1, value: self.disable_certification as u64 },
                Field { width: 1, value: self.stop_format as u64 },
                Field { width: 1, value: self.initialization_pattern as u64 },
                Field { width: 1, value: 0 },
                Field { width: 1, value: self.immediate as u64 },
                Field { width: 1, value: self.vendor_specific as u64 },
                Field { width: 8, value: 0 },
                Field { width: 4, value: 0 },
                Field { width: 4, value: self.protection_interval_exponent as u64 },
                Field { width: 32, value: self.defect_list_length as u64 },
            ],
        )
    }

    /// The record with every field zero.
    pub open spec fn zero() -> Self {
        LongParameterListHeader {
            protection_fields_usage: 0,
            format_options_valid: false,
            disable_primary: false,
            disable_certification: false,
            stop_format: false,
            initialization_pattern: false,
            immediate: false,
            vendor_specific: false,
            protection_interval_exponent: 0,
            defect_list_length: 0,
        }
    }

    /// The record with every field zero.
    pub fn new() -> (r: Self)
        ensures
            r == Self::zero(),
    {
        LongParameterListHeader {
            protection_fields_usage: 0,
            format_options_valid: false,
            disable_primary: false,
            disable_certification: false,
            stop_format: false,
            initialization_pattern: false,
            immediate: false,
            vendor_specific: false,
            protection_interval_exponent: 0,
            defect_list_length: 0,
        }
    }

    /// The fields of the short header in the order they travel: four bytes. It
    /// has no protection interval exponent, and sixteen bits for the length of
    /// the defect list.
    pub open spec fn short_layout(&self) -> Seq<Field> {
        seq![
            Field { width: 5, value: 0 },
            Field { width: 3, value: self.protection_fields_usage as u64 },
            Field { width: 1, value: self.format_options_valid as u64 },
            Field { width: 1, value: self.disable_primary as u64 },
            Field { width: 1, value: self.disable_certification as u64 },
            Field { width: 1, value: self.stop_format as u64 },
            Field { width: 1, value: self.initialization_pattern as u64 },
            Field { width: 1, value: 0 },
            Field { width: 1, value: self.immediate as u64 },
            Field { width: 1, value: self.vendor_specific as u64 },
            Field { width: 16, value: self.defect_list_length as u64 },
        ]
    }

    /// Packs the short header into its four bytes.
    pub fn to_short_bytes(&self) -> (r: [u8; 4])
        ensures
            r@ == packed(self.short_layout()),
    {
        reveal_with_fuel(width_upto, 12);
        pack(
            &[
                Field { width: 5, value: 0 },
                Field { width: 3, value: self.protection_fields_usage as u64 },
                Field { width: 1, value: self.format_options_valid as u64 },
                Field { width: 1, value: self.disable_primary as u64 },
                Field { width: 1, value: self.disable_certification as u64 },
                Field { width: 1, value: self.stop_format as u64 },
                Field { width: 1, value: self.initialization_pattern as u64 },
                Field { width: 1, value: 0 },
                Field { width: 1, value: self.immediate as u64 },
                Field { width: 1, value: self.vendor_specific as u64 },
                Field { width: 16, value: self.defect_list_length as u64 },
            ],
        )
    }
}

/// The four bytes in front of an initialization pattern.
#[derive(Clone, Copy, Debug)]
pub struct InitializationPatternDescriptorHeader {
    pub security_initialize: bool,
    pub initialization_pattern_type: u8,
    /// The number of bytes of the pattern that follows.
    pub initialization_pattern_length: u16,
}

impl InitializationPatternDescriptorHeader {
    /// The fields of the record in the order they travel: 4 bytes.
    pub open spec fn layout(&self) -> Seq<Field> {
        seq![
            Field { width: 2, value: 0 },
            Field { width: 1, value: self.security_initialize as u64 },
            Field { width: 5, value: 0 },
            Field { width: 8, value: self.initialization_pattern_type as u64 },
            Field { width: 16, value: self.initialization_pattern_length as u64 },
        ]
    }

    /// Packs the record into its 4 bytes.
    pub fn to_bytes(&self) -> (r: [u8; 4])
        ensures
            r@ == packed(self.layout()),
    {
        reveal_with_fuel(width_upto, 6);
        pack(
            &[
                Field { width: 2, value: 0 },
                Field { width: 1, value: self.security_initialize as u64 },
                Field { width: 5, value: 0 },
                Field { width: 8, value: self.initialization_pattern_type as u64 },
                Field { width: 16, value: self.initialization_pattern_length as u64 },
            ],
        )
    }

    /// The record with every field zero.
    pub open spec fn zero() -> Self {
        InitializationPatternDescriptorHeader {
            security_initialize: false,
            initialization_pattern_type: 0,
            initialization_pattern_length: 0,
        }
    }

    /// The record with every field zero.
    pub fn new() -> (r: Self)
        ensures
            r == Self::zero(),
    {
        InitializationPatternDescriptorHeader {
            security_initialize: false,
            initialization_pattern_type: 0,
            initialization_pattern_length: 0,
        }
    }
}

/// A defect named by the address of its logical block, in four bytes.
#[derive(Clone, Copy, Debug)]
pub struct ShortBlockFormatAddressDescriptor {
    pub short_block_address: u32,
}

impl ShortBlockFormatAddressDescriptor {
    /// The fields of the record in the order they travel: 4 bytes.
    pub open spec fn layout(&self) -> Seq<Field> {
        seq![
            Field { width: 32, value: self.short_block_address as u64 },
        ]
    }

    /// Packs the record into its 4 bytes.
    pub fn to_bytes(&self) -> (r: [u8; 4])
        ensures
            r@ == packed(self.layout()),
    {
        reveal_with_fuel(width_upto, 2);
        let fields = [Field { width: 32, value: self.short_block_address as u64 }];
        assert(fields@ =~= self.layout());
        pack(&fields)
    }

    /// What the 4 bytes of a record say.
    pub open spec fn parsed(data: Seq<u8>) -> ShortBlockFormatAddressDescriptor {
        ShortBlockFormatAddressDescriptor {
            short_block_address: field_value(data, 0, 32) as u32,
        }
    }

    /// Reads the record out of its 4 bytes.
    pub fn from_bytes(bytes: &[u8; 4]) -> (r: Self)
        ensures
            r == Self::parsed(bytes@),
    {
        ShortBlockFormatAddressDescriptor {
            short_block_address: get_u32(bytes.as_slice(), 0, 32),
        }
    }
}

/// A defect named by cylinder, head and bytes from the index, with room for a
/// range.
#[derive(Clone, Copy, Debug)]
pub struct ExtendedBytesFromIndexAddressDescriptor {
    /// Must fit twenty-four bits.
    pub cylinder_number: u32,
    pub head_number: u8,
    pub multi_address_descriptor_start: bool,
    /// Must fit twenty-eight bits.
    pub bytes_from_index: u32,
}

impl ExtendedBytesFromIndexAddressDescriptor {
    /// The fields of the record in the order they travel: 8 bytes.
    pub open spec fn layout(&self) -> Seq<Field> {
        seq![
            Field { width: 24, value: self.cylinder_number as u64 },
            Field { width: 8, value: self.head_number as u64 },
            Field { width: 1, value: self.multi_address_descriptor_start as u64 },
            Field { width: 3, value: 0 },
            Field { width: 28, value: self.bytes_from_index as u64 },
        ]
    }

    /// Packs the record into its 8 bytes.
    pub fn to_bytes(&self) -> (r: [u8; 8])
        ensures
            r@ == packed(self.layout()),
    {
        reveal_with_fuel(width_upto, 6);
        pack(
            &[
                Field { width: 24, value: self.cylinder_number as u64 },
                Field { width: 8, value: self.head_number as u64 },
                Field { width: 1, value: self.multi_address_descriptor_start as u64 },
                Field { width: 3, value: 0 },
                Field { width: 28, value: self.bytes_from_index as u64 },
            ],
        )
    }

    /// What the 8 bytes of a record say.
    pub open spec fn parsed(data: Seq<u8>) -> ExtendedBytesFromIndexAddressDescriptor {
        ExtendedBytesFromIndexAddressDescriptor {
            cylinder_number: field_value(data, 0, 24) as u32,
            head_number: field_value(data, 24, 8) as u8,
            multi_address_descriptor_start: field_value(data, 32, 1) != 0,
            bytes_from_index: field_value(data, 36, 28) as u32,
        }
    }

    /// Reads the record out of its 8 bytes.
    pub fn from_bytes(bytes: &[u8; 8]) -> (r: Self)
        ensures
            r == Self::parsed(bytes@),
    {
        ExtendedBytesFromIndexAddressDescriptor {
            cylinder_number: get_u32(bytes.as_slice(), 0, 24),
            head_number: get_u8(bytes.as_slice(), 24, 8),
            multi_address_descriptor_start: get_flag(bytes.as_slice(), 32),
            bytes_from_index: get_u32(bytes.as_slice(), 36, 28),
        }
    }
}

/// A defect named by cylinder, head and sector, with room for a range.
#[derive(Clone, Copy, Debug)]
pub struct ExtendedPhysicalSectorAddressDescriptor {
    /// Must fit twenty-four bits.
    pub cylinder_number: u32,
    pub head_number: u8,
    pub multi_address_descriptor_start: bool,
    /// Must fit twenty-eight bits.
    pub sector_number: u32,
}

impl ExtendedPhysicalSectorAddressDescriptor {
    /// The fields of the record in the order they travel: 8 bytes.
    pub open spec fn layout(&self) -> Seq<Field> {
        seq![
            Field { width: 24, value: self.cylinder_number as u64 },
            Field { width: 8, value: self.head_number as u64 },
            Field { width: 1, value: self.multi_address_descriptor_start as u64 },
            Field { width: 3, value: 0 },
            Field { width: 28, value: self.sector_number as u64 },
        ]
    }

    /// Packs the record into its 8 bytes.
    pub fn to_bytes(&self) -> (r: [u8; 8])
        ensures
            r@ == packed(self.layout()),
    {
        reveal_with_fuel(width_upto, 6);
        pack(
            &[
                Field { width: 24, value: self.cylinder_number as u64 },
                Field { width: 8, value: self.head_number as u64 },
                Field { width: 1, value: self.multi_address_descriptor_start as u64 },
                Field { width: 3, value: 0 },
                Field { width: 28, value: self.sector_number as u64 },
            ],
        )
    }

    /// What the 8 bytes of a record say.
    pub open spec fn parsed(data: Seq<u8>) -> ExtendedPhysicalSectorAddressDescriptor {
        ExtendedPhysicalSectorAddressDescriptor {
            cylinder_number: field_value(data, 0, 24) as u32,
            head_number: field_value(data, 24, 8) as u8,
            multi_address_descriptor_start: field_value(data, 32, 1) != 0,
            sector_number: field_value(data, 36, 28) as u32,
        }
    }

    /// Reads the record out of its 8 bytes.
    pub fn from_bytes(bytes: &[u8; 8]) -> (r: Self)
        ensures
            r == Self::parsed(bytes@),
    {
        ExtendedPhysicalSectorAddressDescriptor {
            cylinder_number: get_u32(bytes.as_slice(), 0, 24),
            head_number: get_u8(bytes.as_slice(), 24, 8),
            multi_address_descriptor_start: get_flag(bytes.as_slice(), 32),
            sector_number: get_u32(bytes.as_slice(), 36, 28),
        }
    }
}

/// A defect named by the address of its logical block, in eight bytes.
#[derive(Clone, Copy, Debug)]
pub struct LongBlockFormatAddressDescriptor {
    pub long_block_address: u64,
}

impl LongBlockFormatAddressDescriptor {
    /// The fields of the record in the order they travel: 8 bytes.
    pub open spec fn layout(&self) -> Seq<Field> {
        seq![
            Field { width: 64, value: self.long_block_address },
        ]
    }

    /// Packs the record into its 8 bytes.
    pub fn to_bytes(&self) -> (r: [u8; 8])
        ensures
            r@ == packed(self.layout()),
    {
        reveal_with_fuel(width_upto, 2);
        let fields = [Field { width: 64, value: self.long_block_address }];
        assert(fields@ =~= self.layout());
        pack(&fields)
    }

    /// What the 8 bytes of a record say.
    pub open spec fn parsed(data: Seq<u8>) -> LongBlockFormatAddressDescriptor {
        LongBlockFormatAddressDescriptor {
            long_block_address: field_value(data, 0, 64) as u64,
        }
    }

    /// Reads the record out of its 8 bytes.
    pub fn from_bytes(bytes: &[u8; 8]) -> (r: Self)
        ensures
            r == Self::parsed(bytes@),
    {
        LongBlockFormatAddressDescriptor {
            long_block_address: get_field(bytes.as_slice(), 0, 64),
        }
    }
}

/// A defect named by cylinder, head and bytes from the index.
#[derive(Clone, Copy, Debug)]
pub struct BytesFromIndexFormatAddressDescriptor {
    /// Must fit twenty-four bits.
    pub cylinder_number: u32,
    pub head_number: u8,
    pub bytes_from_index: u32,
}

impl BytesFromIndexFormatAddressDescriptor {
    /// The fields of the record in the order they travel: 8 bytes.
    pub open spec fn layout(&self) -> Seq<Field> {
        seq![
            Field { width: 24, value: self.cylinder_number as u64 },
            Field { width: 8, value: self.head_number as u64 },
            Field { width: 32, value: self.bytes_from_index as u64 },
        ]
    }

    /// Packs the record into its 8 bytes.
    pub fn to_bytes(&self) -> (r: [u8; 8])
        ensures
            r@ == packed(self.layout()),
    {
        reveal_with_fuel(width_upto, 4);
        pack(
            &[
                Field { width: 24, value: self.cylinder_number as u64 },
                Field { width: 8, value: self.head_number as u64 },
                Field { width: 32, value: self.bytes_from_index as u64 },
            ],
        )
    }

    /// What the 8 bytes of a record say.
    pub open spec fn parsed(data: Seq<u8>) -> BytesFromIndexFormatAddressDescriptor {
        BytesFromIndexFormatAddressDescriptor {
            cylinder_number: field_value(data, 0, 24) as u32,
            head_number: field_value(data, 24, 8) as u8,
            bytes_from_index: field_value(data, 32, 32) as u32,
        }
    }

    /// Reads the record out of its 8 bytes.
    pub fn from_bytes(bytes: &[u8; 8]) -> (r: Self)
        ensures
            r == Self::parsed(bytes@),
    {
        BytesFromIndexFormatAddressDescriptor {
            cylinder_number: get_u32(bytes.as_slice(), 0, 24),
            head_number: get_u8(bytes.as_slice(), 24, 8),
            bytes_from_index: get_u32(bytes.as_slice(), 32, 32),
        }
    }
}

/// A defect named by cylinder, head and sector.
#[derive(Clone, Copy, Debug)]
pub struct PhysicalSectorFormatAddressDescriptor {
    /// Must fit twenty-four bits.
    pub cylinder_number: u32,
    pub head_number: u8,
    pub sector_number: u32,
}

impl PhysicalSectorFormatAddressDescriptor {
    /// The fields of the record in the order they travel: 8 bytes.
    pub open spec fn layout(&self) -> Seq<Field> {
        seq![
            Field { width: 24, value: self.cylinder_number as u64 },
            Field { width: 8, value: self.head_number as u64 },
            Field { width: 32, value: self.sector_number as u64 },
        ]
    }

    /// Packs the record into its 8 bytes.
    pub fn to_bytes(&self) -> (r: [u8; 8])
        ensures
            r@ == packed(self.layout()),
    {
        reveal_with_fuel(width_upto, 4);
        pack(
            &[
                Field { width: 24, value: self.cylinder_number as u64 },
                Field { width: 8, value: self.head_number as u64 },
                Field { width: 32, value: self.sector_number as u64 },
            ],
        )
    }

    /// What the 8 bytes of a record say.
    pub open spec fn parsed(data: Seq<u8>) -> PhysicalSectorFormatAddressDescriptor {
        PhysicalSectorFormatAddressDescriptor {
            cylinder_number: field_value(data, 0, 24) as u32,
            head_number: field_value(data, 24, 8) as u8,
            sector_number: field_value(data, 32, 32) as u32,
        }
    }

    /// Reads the record out of its 8 bytes.
    pub fn from_bytes(bytes: &[u8; 8]) -> (r: Self)
        ensures
            r == Self::parsed(bytes@),
    {
        PhysicalSectorFormatAddressDescriptor {
            cylinder_number: get_u32(bytes.as_slice(), 0, 24),
            head_number: get_u8(bytes.as_slice(), 24, 8),
            sector_number: get_u32(bytes.as_slice(), 32, 32),
        }
    }
}

/// One entry of a defect list.
#[derive(Debug)]
pub enum DefectListItem {
    ShortBlockFormatAddressDescriptor(ShortBlockFormatAddressDescriptor),
    ExtendedBytesFromIndexAddressDescriptor(ExtendedBytesFromIndexAddressDescriptor),
    ExtendedPhysicalSectorAddressDescriptor(ExtendedPhysicalSectorAddressDescriptor),
    LongBlockFormatAddressDescriptor(LongBlockFormatAddressDescriptor),
    BytesFromIndexFormatAddressDescriptor(BytesFromIndexFormatAddressDescriptor),
    PhysicalSectorFormatAddressDescriptor(PhysicalSectorFormatAddressDescriptor),
    /// Bytes that are sent as they are.
    CustomDescriptor(Vec<u8>),
}

impl DefectListItem {
    /// Which of the seven kinds of entry this is, counted from zero in the
    /// order of the variants.
    pub open spec fn kind_spec(&self) -> u8 {
        match self {
            DefectListItem::ShortBlockFormatAddressDescriptor(d) => 0,
            DefectListItem::ExtendedBytesFromIndexAddressDescriptor(d) => 1,
            DefectListItem::ExtendedPhysicalSectorAddressDescriptor(d) => 2,
            DefectListItem::LongBlockFormatAddressDescriptor(d) => 3,
            DefectListItem::BytesFromIndexFormatAddressDescriptor(d) => 4,
            DefectListItem::PhysicalSectorFormatAddressDescriptor(d) => 5,
            DefectListItem::CustomDescriptor(d) => 6,
        }
    }

    /// Which of the seven kinds of entry this is.
    pub fn kind(&self) -> (r: u8)
        ensures
            r == self.kind_spec(),
    {
        match self {
            DefectListItem::ShortBlockFormatAddressDescriptor(_) => 0,
            DefectListItem::ExtendedBytesFromIndexAddressDescriptor(_) => 1,
            DefectListItem::ExtendedPhysicalSectorAddressDescriptor(_) => 2,
            DefectListItem::LongBlockFormatAddressDescriptor(_) => 3,
            DefectListItem::BytesFromIndexFormatAddressDescriptor(_) => 4,
            DefectListItem::PhysicalSectorFormatAddressDescriptor(_) => 5,
            DefectListItem::CustomDescriptor(_) => 6,
        }
    }

    /// The number of bytes that every entry of this kind takes; zero for
    /// custom bytes, which have no fixed size.
    pub open spec fn size_spec(&self) -> nat {
        match self {
            DefectListItem::ShortBlockFormatAddressDescriptor(d) => 4,
            DefectListItem::ExtendedBytesFromIndexAddressDescriptor(d) => 8,
            DefectListItem::ExtendedPhysicalSectorAddressDescriptor(d) => 8,
            DefectListItem::LongBlockFormatAddressDescriptor(d) => 8,
            DefectListItem::BytesFromIndexFormatAddressDescriptor(d) => 8,
            DefectListItem::PhysicalSectorFormatAddressDescriptor(d) => 8,
            DefectListItem::CustomDescriptor(d) => 0,
        }
    }

    /// The number of bytes that every entry of this kind takes; zero for
    /// custom bytes.
    pub fn size(&self) -> (r: usize)
        ensures
            r == self.size_spec(),
    {
        match self {
            DefectListItem::ShortBlockFormatAddressDescriptor(_) => 4,
            DefectListItem::ExtendedBytesFromIndexAddressDescriptor(_) => 8,
            DefectListItem::ExtendedPhysicalSectorAddressDescriptor(_) => 8,
            DefectListItem::LongBlockFormatAddressDescriptor(_) => 8,
            DefectListItem::BytesFromIndexFormatAddressDescriptor(_) => 8,
            DefectListItem::PhysicalSectorFormatAddressDescriptor(_) => 8,
            DefectListItem::CustomDescriptor(_) => 0,
        }
    }

    /// The bytes of the entry as they travel.
    pub open spec fn bytes(&self) -> Seq<u8> {
        match self {
            DefectListItem::ShortBlockFormatAddressDescriptor(d) => packed(d.layout()),
            DefectListItem::ExtendedBytesFromIndexAddressDescriptor(d) => packed(d.layout()),
            DefectListItem::ExtendedPhysicalSectorAddressDescriptor(d) => packed(d.layout()),
            DefectListItem::LongBlockFormatAddressDescriptor(d) => packed(d.layout()),
            DefectListItem::BytesFromIndexFormatAddressDescriptor(d) => packed(d.layout()),
            DefectListItem::PhysicalSectorFormatAddressDescriptor(d) => packed(d.layout()),
            DefectListItem::CustomDescriptor(d) => d@,
        }
    }

    /// Appends the bytes of the entry to `out`.
    pub fn append_to(&self, out: &mut Vec<u8>)
        ensures
            final(out)@ == old(out)@ + self.bytes(),
    {
        match self {
            DefectListItem::ShortBlockFormatAddressDescriptor(d) => {
                    let bytes = d.to_bytes();
                    crate::command::append(out, bytes.as_slice());
                },
            DefectListItem::ExtendedBytesFromIndexAddressDescriptor(d) => {
                    let bytes = d.to_bytes();
                    crate::command::append(out, bytes.as_slice());
                },
            DefectListItem::ExtendedPhysicalSectorAddressDescriptor(d) => {
                    let bytes = d.to_bytes();
                    crate::command::append(out, bytes.as_slice());
                },
            DefectListItem::LongBlockFormatAddressDescriptor(d) => {
                    let bytes = d.to_bytes();
                    crate::command::append(out, bytes.as_slice());
                },
            DefectListItem::BytesFromIndexFormatAddressDescriptor(d) => {
                    let bytes = d.to_bytes();
                    crate::command::append(out, bytes.as_slice());
                },
            DefectListItem::PhysicalSectorFormatAddressDescriptor(d) => {
                    let bytes = d.to_bytes();
                    crate::command::append(out, bytes.as_slice());
                },
            DefectListItem::CustomDescriptor(d) => crate::command::append(out, d.as_slice()),
        }
    }
}

/// The bytes of a defect list: those of its entries, one after the other.
pub open spec fn defect_list_bytes(list: Seq<DefectListItem>) -> Seq<u8>
    decreases list.len(),
{
    if list.len() == 0 {
        Seq::empty()
    } else {
        defect_list_bytes(list.drop_last()) + list.last().bytes()
    }
}

/// The bytes that the custom entries of a list take together.
pub open spec fn custom_length(list: Seq<DefectListItem>) -> nat
    decreases list.len(),
{
    if list.len() == 0 {
        0
    } else {
        custom_length(list.drop_last()) + (match list.last() {
            DefectListItem::CustomDescriptor(d) => d@.len(),
            _ => 0,
        })
    }
}

/// Whether every entry of a list is of the same kind as the entry after it.
pub open spec fn one_kind(list: Seq<DefectListItem>) -> bool {
    forall|i: int|
        0 <= i < list.len() - 1 ==> (#[trigger] list[i]).kind_spec() == list[i + 1].kind_spec()
}

/// The length of a defect list as the header declares it: the size of the
/// first entry times the number of entries or, where the first entry is
/// custom bytes or there is none, the bytes of the custom entries together.
pub open spec fn defect_list_length(list: Seq<DefectListItem>) -> nat {
    if list.len() == 0 || list[0].size_spec() == 0 {
        custom_length(list)
    } else {
        list[0].size_spec() * list.len()
    }
}

/// A number as far as sixty-four bits hold it.
pub open spec fn saturated(n: nat) -> u64 {
    if n > u64::MAX {
        u64::MAX
    } else {
        n as u64
    }
}

/// The options and the parameter list of a format. They are checked when the
/// command is issued, not when they are set.
#[derive(Debug)]
pub struct FormatUnitCommand {
    /// Must fit two bits.
    pub format_protection_information: u8,
    /// Whether the parameter list starts with the long header. Set by the
    /// parameter builder.
    pub longlist: bool,
    /// Whether a parameter list is sent at all.
    pub format_data: bool,
    pub complete_list: bool,
    /// Must fit three bits.
    pub defect_list_format: u8,
    pub vendor_specific: u8,
    /// Must fit two bits.
    pub fast_format: u8,
    pub control: u8,
    /// The header of the parameter list; the short header is cut from it.
    pub header_buffer: LongParameterListHeader,
    pub initialization_pattern_descriptor_header: InitializationPatternDescriptorHeader,
    pub initialization_pattern: Vec<u8>,
    pub defect_list: Vec<DefectListItem>,
}

impl FormatUnitCommand {
    /// A format that sends no parameter list.
    pub fn new() -> (r: Self)
        ensures
            r.format_protection_information == 0,
            r.longlist == false,
            r.format_data == false,
            r.complete_list == false,
            r.defect_list_format == 0,
            r.vendor_specific == 0,
            r.fast_format == 0,
            r.control == 0,
            r.header_buffer == LongParameterListHeader::zero(),
            r.initialization_pattern_descriptor_header
                == InitializationPatternDescriptorHeader::zero(),
            r.initialization_pattern@ == Seq::<u8>::empty(),
            r.defect_list@ == Seq::<DefectListItem>::empty(),
    {
        FormatUnitCommand {
            format_protection_information: 0,
            longlist: false,
            format_data: false,
            complete_list: false,
            defect_list_format: 0,
            vendor_specific: 0,
            fast_format: 0,
            control: 0,
            header_buffer: LongParameterListHeader::new(),
            initialization_pattern_descriptor_header: InitializationPatternDescriptorHeader::new(),
            initialization_pattern: Vec::new(),
            defect_list: Vec::new(),
        }
    }

    /// Sets the format protection information field: below 0x4.
    pub fn format_protection_information(&mut self, value: u8) -> (r: &mut Self)
        ensures
            *r == (FormatUnitCommand { format_protection_information: value, ..*old(self) }),
            *final(self) == *final(r),
    {
        self.format_protection_information = value;
        self
    }

    /// Says whether a parameter list is sent.
    pub fn format_data(&mut self, value: bool) -> (r: &mut Self)
        ensures
            *r == (FormatUnitCommand { format_data: value, ..*old(self) }),
            *final(self) == *final(r),
    {
        self.format_data = value;
        self
    }

    /// Sets the complete list bit.
    pub fn complete_list(&mut self, value: bool) -> (r: &mut Self)
        ensures
            *r == (FormatUnitCommand { complete_list: value, ..*old(self) }),
            *final(self) == *final(r),
    {
        self.complete_list = value;
        self
    }

    /// Sets the defect list format: below 0x8.
    pub fn defect_list_format(&mut self, value: u8) -> (r: &mut Self)
        ensures
            *r == (FormatUnitCommand { defect_list_format: value, ..*old(self) }),
            *final(self) == *final(r),
    {
        self.defect_list_format = value;
        self
    }

    /// Sets the vendor specific byte.
    pub fn vendor_specific(&mut self, value: u8) -> (r: &mut Self)
        ensures
            *r == (FormatUnitCommand { vendor_specific: value, ..*old(self) }),
            *final(self) == *final(r),
    {
        self.vendor_specific = value;
        self
    }

    /// Sets the fast format field: below 0x4.
    pub fn fast_format(&mut self, value: u8) -> (r: &mut Self)
        ensures
            *r == (FormatUnitCommand { fast_format: value, ..*old(self) }),
            *final(self) == *final(r),
    {
        self.fast_format = value;
        self
    }

    /// Sets the control byte.
    pub fn control(&mut self, value: u8) -> (r: &mut Self)
        ensures
            *r == (FormatUnitCommand { control: value, ..*old(self) }),
            *final(self) == *final(r),
    {
        self.control = value;
        self
    }

    /// Starts a parameter list for this command. Nothing of the command
    /// changes before the list is done.
    pub fn parameter<'a>(&'a mut self) -> (r: ParameterBuilder<'a>)
        ensures
            *r.parent == *old(self),
            *final(r.parent) == *final(self),
            r.longlist == false,
            r.header_buffer == LongParameterListHeader::zero(),
            r.initialization_pattern_descriptor_header
                == InitializationPatternDescriptorHeader::zero(),
            r.initialization_pattern@ == Seq::<u8>::empty(),
            r.defect_list@ == Seq::<DefectListItem>::empty(),
    {
        ParameterBuilder {
            parent: self,
            longlist: false,
            header_buffer: LongParameterListHeader::new(),
            initialization_pattern_descriptor_header: InitializationPatternDescriptorHeader::new(),
            initialization_pattern: Vec::new(),
            defect_list: Vec::new(),
        }
    }

    /// The descriptor block of FORMAT UNIT: six bytes.
    pub open spec fn layout(&self) -> Seq<Field> {
        seq![
            Field { width: 8, value: OPERATION_CODE as u64 },
            Field { width: 2, value: self.format_protection_information as u64 },
            Field { width: 1, value: self.longlist as u64 },
            Field { width: 1, value: self.format_data as u64 },
            Field { width: 1, value: self.complete_list as u64 },
            Field { width: 3, value: self.defect_list_format as u64 },
            Field { width: 8, value: self.vendor_specific as u64 },
            Field { width: 14, value: 0 },
            Field { width: 2, value: self.fast_format as u64 },
            Field { width: 8, value: self.control as u64 },
        ]
    }

    /// The bound checks on the fields of the descriptor block, in their order.
    pub open spec fn bounds(&self) -> Seq<Bound> {
        seq![
            Bound {
                value: self.format_protection_information as u64,
                bits: 2,
                name: "format protection information",
            },
            Bound { value: self.defect_list_format as u64, bits: 3, name: "defect list format" },
            Bound { value: self.fast_format as u64, bits: 2, name: "fast format" },
        ]
    }

    /// The check on the length of the defect list that the short header makes:
    /// it has sixteen bits for it.
    pub open spec fn short_length_bound(&self) -> Bound {
        Bound {
            value: self.header_buffer.defect_list_length as u64,
            bits: 16,
            name: "defect list length",
        }
    }

    /// What `issue` finds wrong with the command, if anything: the first
    /// bound on the descriptor block that fails; else, where a parameter list
    /// with the short header is sent, a defect list too long for it.
    pub open spec fn issue_check(&self) -> Option<Error> {
        match first_failure(self.bounds()) {
            Some(e) => Some(e),
            None => if self.format_data && !self.longlist && !self.short_length_bound().holds() {
                Some(self.short_length_bound().error())
            } else {
                None
            },
        }
    }

    /// The header of the parameter list as it travels: long or short, as
    /// `longlist` says.
    pub open spec fn header_bytes(&self) -> Seq<u8> {
        if self.longlist {
            packed(self.header_buffer.layout())
        } else {
            packed(self.header_buffer.short_layout())
        }
    }

    /// The initialization pattern as it travels, where the header announces
    /// one: its descriptor header and the pattern.
    pub open spec fn pattern_bytes(&self) -> Seq<u8> {
        if self.header_buffer.initialization_pattern {
            packed(self.initialization_pattern_descriptor_header.layout())
                + self.initialization_pattern@
        } else {
            Seq::empty()
        }
    }

    /// The parameter list as it travels: nothing where no format data is
    /// sent; else the header, the initialization pattern where the header
    /// announces one, and the defect list.
    pub open spec fn parameter_list(&self) -> Seq<u8> {
        if !self.format_data {
            Seq::empty()
        } else {
            self.header_bytes() + self.pattern_bytes() + defect_list_bytes(self.defect_list@)
        }
    }

    /// Checks the command and packs its descriptor block and its parameter
    /// list.
    pub fn issue(&self) -> (r: Result<ThisCommand, Error>)
        ensures
            match self.issue_check() {
                Some(e) => r == Err::<ThisCommand, Error>(e),
                None => r matches Ok(c) && c.command_buffer@ == packed(self.layout())
                    && c.data_buffer@ == self.parameter_list(),
            },
    {
        check_bounds(
            &[
                Bound {
                    value: self.format_protection_information as u64,
                    bits: 2,
                    name: "format protection information",
                },
                Bound {
                    value: self.defect_list_format as u64,
                    bits: 3,
                    name: "defect list format",
                },
                Bound { value: self.fast_format as u64, bits: 2, name: "fast format" },
            ],
        )?;
        reveal_with_fuel(width_upto, 11);
        let command_buffer = pack_vec::<6>(
            &[
                Field { width: 8, value: OPERATION_CODE as u64 },
                Field { width: 2, value: self.format_protection_information as u64 },
                Field { width: 1, value: self.longlist as u64 },
                Field { width: 1, value: self.format_data as u64 },
                Field { width: 1, value: self.complete_list as u64 },
                Field { width: 3, value: self.defect_list_format as u64 },
                Field { width: 8, value: self.vendor_specific as u64 },
                Field { width: 14, value: 0 },
                Field { width: 2, value: self.fast_format as u64 },
                Field { width: 8, value: self.control as u64 },
            ],
        );
        let mut data_buffer: Vec<u8> = Vec::new();
        if !self.format_data {
            return Ok(ThisCommand { command_buffer, data_buffer });
        }
        if !self.longlist {
            bitfield_bound_check(
                self.header_buffer.defect_list_length as u64,
                16,
                "defect list length",
            )?;
            let header = self.header_buffer.to_short_bytes();
            crate::command::append(&mut data_buffer, header.as_slice());
        } else {
            let header = self.header_buffer.to_bytes();
            crate::command::append(&mut data_buffer, header.as_slice());
        }
        assert(data_buffer@ =~= self.header_bytes());
        if self.header_buffer.initialization_pattern {
            let header = self.initialization_pattern_descriptor_header.to_bytes();
            crate::command::append(&mut data_buffer, header.as_slice());
            crate::command::append(&mut data_buffer, self.initialization_pattern.as_slice());
        }
        assert(data_buffer@ =~= self.header_bytes() + self.pattern_bytes());
        let mut i: usize = 0;
        while i < self.defect_list.len()
            invariant
                i <= self.defect_list@.len(),
                data_buffer@ == self.header_bytes() + self.pattern_bytes() + defect_list_bytes(
                    self.defect_list@.take(i as int),
                ),
            decreases self.defect_list@.len() - i,
        {
            self.defect_list[i].append_to(&mut data_buffer);
            proof {
                let list = self.defect_list@;
                assert(list.take(i + 1).drop_last() =~= list.take(i as int));
                assert(data_buffer@ =~= self.header_bytes() + self.pattern_bytes()
                    + defect_list_bytes(list.take(i + 1)));
            }
            i = i + 1;
        }
        assert(self.defect_list@.take(i as int) =~= self.defect_list@);
        Ok(ThisCommand { command_buffer, data_buffer })
    }
}

/// The parameter list of a format, while it is put together. `done` hands
/// it to the command.
#[derive(Debug)]
pub struct ParameterBuilder<'a> {
    pub parent: &'a mut FormatUnitCommand,
    pub longlist: bool,
    pub header_buffer: LongParameterListHeader,
    pub initialization_pattern_descriptor_header: InitializationPatternDescriptorHeader,
    pub initialization_pattern: Vec<u8>,
    pub defect_list: Vec<DefectListItem>,
}

impl<'a> ParameterBuilder<'a> {
    /// Starts a short header for this parameter list.
    pub fn short_parameter_list_header<'b>(&'b mut self) -> (r: ShortParameterListHeaderBuilder<
        'a,
        'b,
    >)
        ensures
            *r.delegate.parent == *old(self),
            *final(r.delegate.parent) == *final(self),
            r.delegate.protection_fields_usage == 0,
            r.delegate.protection_interval_exponent == 0,
            r.delegate.header_buffer == LongParameterListHeader::zero(),
    {
        ShortParameterListHeaderBuilder { delegate: self.long_parameter_list_header() }
    }

    /// Starts a long header for this parameter list.
    pub fn long_parameter_list_header<'b>(&'b mut self) -> (r: LongParameterListHeaderBuilder<
        'a,
        'b,
    >)
        ensures
            *r.parent == *old(self),
            *final(r.parent) == *final(self),
            r.protection_fields_usage == 0,
            r.protection_interval_exponent == 0,
            r.header_buffer == LongParameterListHeader::zero(),
    {
        LongParameterListHeaderBuilder {
            parent: self,
            protection_fields_usage: 0,
            protection_interval_exponent: 0,
            header_buffer: LongParameterListHeader::new(),
        }
    }

    /// Starts an initialization pattern for this parameter list.
    pub fn initialization_pattern_descriptor<'b>(&'b mut self) -> (r:
        InitializationPatternDescriptorBuilder<'a, 'b>)
        ensures
            *r.parent == *old(self),
            *final(r.parent) == *final(self),
            r.initialization_pattern_descriptor_header
                == InitializationPatternDescriptorHeader::zero(),
            r.initialization_pattern@ == Seq::<u8>::empty(),
    {
        InitializationPatternDescriptorBuilder {
            parent: self,
            initialization_pattern_descriptor_header: InitializationPatternDescriptorHeader::new(),
            initialization_pattern: Vec::new(),
        }
    }

    /// Starts a defect list for this parameter list.
    pub fn defect_list<'b>(&'b mut self) -> (r: DefectListBuilder<'a, 'b>)
        ensures
            *r.parent == *old(self),
            *final(r.parent) == *final(self),
            r.defect_list@ == Seq::<DefectListItem>::empty(),
    {
        DefectListBuilder { parent: self, defect_list: Vec::new() }
    }

    /// Hands the parameter list to the command: the form of the header, the
    /// header, the initialization pattern and the defect list. The other
    /// options of the command stay.
    pub fn done(self) -> (r: Result<&'a mut FormatUnitCommand, Error>)
        ensures
            r matches Ok(command) && *command == (FormatUnitCommand {
                longlist: self.longlist,
                header_buffer: self.header_buffer,
                initialization_pattern_descriptor_header:
                    self.initialization_pattern_descriptor_header,
                initialization_pattern: self.initialization_pattern,
                defect_list: self.defect_list,
                ..*old(self.parent)
            }) && *final(command) == *final(self.parent),
    {
        self.parent.longlist = self.longlist;
        self.parent.header_buffer = self.header_buffer;
        self.parent.initialization_pattern_descriptor_header =
            self.initialization_pattern_descriptor_header;
        self.parent.initialization_pattern = self.initialization_pattern;
        self.parent.defect_list = self.defect_list;
        Ok(self.parent)
    }
}

/// A long header of a parameter list, while it is put together.
#[derive(Debug)]
pub struct LongParameterListHeaderBuilder<'a, 'b> {
    pub parent: &'b mut ParameterBuilder<'a>,
    /// Must fit three bits.
    pub protection_fields_usage: u8,
    /// Must fit four bits.
    pub protection_interval_exponent: u8,
    pub header_buffer: LongParameterListHeader,
}

impl<'a, 'b> LongParameterListHeaderBuilder<'a, 'b> {
    /// Sets the protection fields usage: below 0x8.
    pub fn protection_fields_usage(&mut self, value: u8) -> (r: &mut Self)
        ensures
            r.protection_fields_usage == value,
            r.header_buffer == old(self).header_buffer,
            r.protection_interval_exponent == old(self).protection_interval_exponent,
            r.parent == old(self).parent,
            *final(self) == *final(r),
    {
        self.protection_fields_usage = value;
        self
    }

    /// Sets the format options valid bit.
    pub fn format_options_valid(&mut self, value: bool) -> (r: &mut Self)
        ensures
            r.header_buffer
                == (LongParameterListHeader { format_options_valid: value,
                ..old(self).header_buffer }),
            r.protection_fields_usage == old(self).protection_fields_usage,
            r.protection_interval_exponent == old(self).protection_interval_exponent,
            r.parent == old(self).parent,
            *final(self) == *final(r),
    {
        self.header_buffer.format_options_valid = value;
        self
    }

    /// Sets the disable primary bit.
    pub fn disable_primary(&mut self, value: bool) -> (r: &mut Self)
        ensures
            r.header_buffer
                == (LongParameterListHeader { disable_primary: value, ..old(self).header_buffer }),
            r.protection_fields_usage == old(self).protection_fields_usage,
            r.protection_interval_exponent == old(self).protection_interval_exponent,
            r.parent == old(self).parent,
            *final(self) == *final(r),
    {
        self.header_buffer.disable_primary = value;
        self
    }

    /// Sets the disable certification bit.
    pub fn disable_certification(&mut self, value: bool) -> (r: &mut Self)
        ensures
            r.header_buffer
                == (LongParameterListHeader { disable_certification: value,
                ..old(self).header_buffer }),
            r.protection_fields_usage == old(self).protection_fields_usage,
            r.protection_interval_exponent == old(self).protection_interval_exponent,
            r.parent == old(self).parent,
            *final(self) == *final(r),
    {
        self.header_buffer.disable_certification = value;
        self
    }

    /// Sets the stop format bit.
    pub fn stop_format(&mut self, value: bool) -> (r: &mut Self)
        ensures
            r.header_buffer
                == (LongParameterListHeader { stop_format: value, ..old(self).header_buffer }),
            r.protection_fields_usage == old(self).protection_fields_usage,
            r.protection_interval_exponent == old(self).protection_interval_exponent,
            r.parent == old(self).parent,
            *final(self) == *final(r),
    {
        self.header_buffer.stop_format = value;
        self
    }

    /// Says whether an initialization pattern descriptor follows the header.
    pub fn initialization_pattern(&mut self, value: bool) -> (r: &mut Self)
        ensures
            r.header_buffer
                == (LongParameterListHeader { initialization_pattern: value,
                ..old(self).header_buffer }),
            r.protection_fields_usage == old(self).protection_fields_usage,
            r.protection_interval_exponent == old(self).protection_interval_exponent,
            r.parent == old(self).parent,
            *final(self) == *final(r),
    {
        self.header_buffer.initialization_pattern = value;
        self
    }

    /// Sets the immediate bit.
    pub fn immediate(&mut self, value: bool) -> (r: &mut Self)
        ensures
            r.header_buffer
                == (LongParameterListHeader { immediate: value, ..old(self).header_buffer }),
            r.protection_fields_usage == old(self).protection_fields_usage,
            r.protection_interval_exponent == old(self).protection_interval_exponent,
            r.parent == old(self).parent,
            *final(self) == *final(r),
    {
        self.header_buffer.immediate = value;
        self
    }

    /// Sets the vendor specific bit.
    pub fn vendor_specific(&mut self, value: bool) -> (r: &mut Self)
        ensures
            r.header_buffer
                == (LongParameterListHeader { vendor_specific: value, ..old(self).header_buffer }),
            r.protection_fields_usage == old(self).protection_fields_usage,
            r.protection_interval_exponent == old(self).protection_interval_exponent,
            r.parent == old(self).parent,
            *final(self) == *final(r),
    {
        self.header_buffer.vendor_specific = value;
        self
    }

    /// Sets the protection interval exponent: below 0x10.
    pub fn protection_interval_exponent(&mut self, value: u8) -> (r: &mut Self)
        ensures
            r.protection_interval_exponent == value,
            r.header_buffer == old(self).header_buffer,
            r.protection_fields_usage == old(self).protection_fields_usage,
            r.parent == old(self).parent,
            *final(self) == *final(r),
    {
        self.protection_interval_exponent = value;
        self
    }

    /// The bound checks of the header, in their order.
    pub open spec fn bounds(&self) -> Seq<Bound> {
        seq![
            Bound {
                value: self.protection_fields_usage as u64,
                bits: 3,
                name: "protection fields usage",
            },
            Bound {
                value: self.protection_interval_exponent as u64,
                bits: 4,
                name: "protection interval exponent",
            },
        ]
    }

    /// The header that `done` hands over: the bits that were set, with the
    /// two checked fields, and a defect list length of zero.
    pub open spec fn header(&self) -> LongParameterListHeader {
        LongParameterListHeader {
            protection_fields_usage: self.protection_fields_usage,
            protection_interval_exponent: self.protection_interval_exponent,
            ..self.header_buffer
        }
    }

    /// Checks the header and hands it to the parameter list, which from then
    /// on has the long form. Where a check fails, the parameter list stays as
    /// it was.
    pub fn done(self) -> (r: Result<&'b mut ParameterBuilder<'a>, Error>)
        ensures
            match first_failure(self.bounds()) {
                Some(e) => r matches Err(err) && err == e && *final(self.parent) == *old(
                    self.parent,
                ),
                None => r matches Ok(list) && *list == (ParameterBuilder {
                    header_buffer: self.header(),
                    longlist: true,
                    ..*old(self.parent)
                }) && *final(list) == *final(self.parent),
            },
    {
        check_bounds(
            &[
                Bound {
                    value: self.protection_fields_usage as u64,
                    bits: 3,
                    name: "protection fields usage",
                },
                Bound {
                    value: self.protection_interval_exponent as u64,
                    bits: 4,
                    name: "protection interval exponent",
                },
            ],
        )?;
        let mut header = self.header_buffer;
        header.protection_fields_usage = self.protection_fields_usage;
        header.protection_interval_exponent = self.protection_interval_exponent;
        self.parent.header_buffer = header;
        self.parent.longlist = true;
        Ok(self.parent)
    }
}

/// A short header of a parameter list, while it is put together. It is a
/// long header without the protection interval exponent.
#[derive(Debug)]
pub struct ShortParameterListHeaderBuilder<'a, 'b> {
    pub delegate: LongParameterListHeaderBuilder<'a, 'b>,
}

impl<'a, 'b> ShortParameterListHeaderBuilder<'a, 'b> {
    /// Sets the protection fields usage: below 0x8.
    pub fn protection_fields_usage(&mut self, value: u8) -> (r: &mut Self)
        ensures
            r.delegate.protection_fields_usage == value,
            r.delegate.header_buffer == old(self).delegate.header_buffer,
            r.delegate.protection_interval_exponent == old(
                self,
            ).delegate.protection_interval_exponent,
            r.delegate.parent == old(self).delegate.parent,
            *final(self) == *final(r),
    {
        self.delegate.protection_fields_usage = value;
        self
    }

    /// Sets the format options valid bit.
    pub fn format_options_valid(&mut self, value: bool) -> (r: &mut Self)
        ensures
            r.delegate.header_buffer == (LongParameterListHeader {
                format_options_valid: value,
                ..old(self).delegate.header_buffer
            }),
            r.delegate.protection_fields_usage == old(self).delegate.protection_fields_usage,
            r.delegate.protection_interval_exponent == old(
                self,
            ).delegate.protection_interval_exponent,
            r.delegate.parent == old(self).delegate.parent,
            *final(self) == *final(r),
    {
        self.delegate.header_buffer.format_options_valid = value;
        self
    }

    /// Sets the disable primary bit.
    pub fn disable_primary(&mut self, value: bool) -> (r: &mut Self)
        ensures
            r.delegate.header_buffer == (LongParameterListHeader {
                disable_primary: value,
                ..old(self).delegate.header_buffer
            }),
            r.delegate.protection_fields_usage == old(self).delegate.protection_fields_usage,
            r.delegate.protection_interval_exponent == old(
                self,
            ).delegate.protection_interval_exponent,
            r.delegate.parent == old(self).delegate.parent,
            *final(self) == *final(r),
    {
        self.delegate.header_buffer.disable_primary = value;
        self
    }

    /// Sets the disable certification bit.
    pub fn disable_certification(&mut self, value: bool) -> (r: &mut Self)
        ensures
            r.delegate.header_buffer == (LongParameterListHeader {
                disable_certification: value,
                ..old(self).delegate.header_buffer
            }),
            r.delegate.protection_fields_usage == old(self).delegate.protection_fields_usage,
            r.delegate.protection_interval_exponent == old(
                self,
            ).delegate.protection_interval_exponent,
            r.delegate.parent == old(self).delegate.parent,
            *final(self) == *final(r),
    {
        self.delegate.header_buffer.disable_certification = value;
        self
    }

    /// Sets the stop format bit.
    pub fn stop_format(&mut self, value: bool) -> (r: &mut Self)
        ensures
            r.delegate.header_buffer == (LongParameterListHeader {
                stop_format: value,
                ..old(self).delegate.header_buffer
            }),
            r.delegate.protection_fields_usage == old(self).delegate.protection_fields_usage,
            r.delegate.protection_interval_exponent == old(
                self,
            ).delegate.protection_interval_exponent,
            r.delegate.parent == old(self).delegate.parent,
            *final(self) == *final(r),
    {
        self.delegate.header_buffer.stop_format = value;
        self
    }

    /// Says whether an initialization pattern descriptor follows the header.
    pub fn initialization_pattern(&mut self, value: bool) -> (r: &mut Self)
        ensures
            r.delegate.header_buffer == (LongParameterListHeader {
                initialization_pattern: value,
                ..old(self).delegate.header_buffer
            }),
            r.delegate.protection_fields_usage == old(self).delegate.protection_fields_usage,
            r.delegate.protection_interval_exponent == old(
                self,
            ).delegate.protection_interval_exponent,
            r.delegate.parent == old(self).delegate.parent,
            *final(self) == *final(r),
    {
        self.delegate.header_buffer.initialization_pattern = value;
        self
    }

    /// Sets the immediate bit.
    pub fn immediate(&mut self, value: bool) -> (r: &mut Self)
        ensures
            r.delegate.header_buffer == (LongParameterListHeader {
                immediate: value,
                ..old(self).delegate.header_buffer
            }),
            r.delegate.protection_fields_usage == old(self).delegate.protection_fields_usage,
            r.delegate.protection_interval_exponent == old(
                self,
            ).delegate.protection_interval_exponent,
            r.delegate.parent == old(self).delegate.parent,
            *final(self) == *final(r),
    {
        self.delegate.header_buffer.immediate = value;
        self
    }

    /// Sets the vendor specific bit.
    pub fn vendor_specific(&mut self, value: bool) -> (r: &mut Self)
        ensures
            r.delegate.header_buffer == (LongParameterListHeader {
                vendor_specific: value,
                ..old(self).delegate.header_buffer
            }),
            r.delegate.protection_fields_usage == old(self).delegate.protection_fields_usage,
            r.delegate.protection_interval_exponent == old(
                self,
            ).delegate.protection_interval_exponent,
            r.delegate.parent == old(self).delegate.parent,
            *final(self) == *final(r),
    {
        self.delegate.header_buffer.vendor_specific = value;
        self
    }

    /// Checks the header and hands it to the parameter list, which from then
    /// on has the short form. Where a check fails, the parameter list stays
    /// as it was.
    pub fn done(self) -> (r: Result<&'b mut ParameterBuilder<'a>, Error>)
        ensures
            match first_failure(self.delegate.bounds()) {
                Some(e) => r matches Err(err) && err == e && *final(self.delegate.parent) == *old(
                    self.delegate.parent,
                ),
                None => r matches Ok(list) && *list == (ParameterBuilder {
                    header_buffer: self.delegate.header(),
                    longlist: false,
                    ..*old(self.delegate.parent)
                }) && *final(list) == *final(self.delegate.parent),
            },
    {
        let parent = self.delegate.done()?;
        parent.longlist = false;
        Ok(parent)
    }
}

/// An initialization pattern, while it is put together.
#[derive(Debug)]
pub struct InitializationPatternDescriptorBuilder<'a, 'b> {
    pub parent: &'b mut ParameterBuilder<'a>,
    pub initialization_pattern_descriptor_header: InitializationPatternDescriptorHeader,
    pub initialization_pattern: Vec<u8>,
}

impl<'a, 'b> InitializationPatternDescriptorBuilder<'a, 'b> {
    /// Sets the security initialize bit.
    pub fn security_initialize(&mut self, value: bool) -> (r: &mut Self)
        ensures
            *r == (InitializationPatternDescriptorBuilder {
                initialization_pattern_descriptor_header: InitializationPatternDescriptorHeader {
                    security_initialize: value,
                    ..old(self).initialization_pattern_descriptor_header
                },
                ..*old(self)
            }),
            *final(self) == *final(r),
    {
        self.initialization_pattern_descriptor_header.security_initialize = value;
        self
    }

    /// Sets the type of the pattern.
    pub fn initialization_pattern_type(&mut self, value: u8) -> (r: &mut Self)
        ensures
            *r == (InitializationPatternDescriptorBuilder {
                initialization_pattern_descriptor_header: InitializationPatternDescriptorHeader {
                    initialization_pattern_type: value,
                    ..old(self).initialization_pattern_descriptor_header
                },
                ..*old(self)
            }),
            *final(self) == *final(r),
    {
        self.initialization_pattern_descriptor_header.initialization_pattern_type = value;
        self
    }

    /// Appends bytes to the pattern. The pattern may take 0xFFFF bytes at
    /// most when it is done.
    pub fn initialization_pattern(&mut self, value: &[u8]) -> (r: &mut Self)
        ensures
            r.initialization_pattern@ == old(self).initialization_pattern@ + value@,
            r.initialization_pattern_descriptor_header == old(
                self,
            ).initialization_pattern_descriptor_header,
            r.parent == old(self).parent,
            *final(self) == *final(r),
    {
        crate::command::append(&mut self.initialization_pattern, value);
        self
    }

    /// The check on the length of the pattern: the header has sixteen bits
    /// for it.
    pub open spec fn length_bound(&self) -> Bound {
        Bound {
            value: self.initialization_pattern@.len() as u64,
            bits: 16,
            name: "initialization pattern length",
        }
    }

    /// Checks the length of the pattern and hands the pattern, with its
    /// length in its header, to the parameter list. Where the check fails,
    /// the parameter list stays as it was.
    pub fn done(self) -> (r: Result<&'b mut ParameterBuilder<'a>, Error>)
        ensures
            if !self.length_bound().holds() {
                r matches Err(err) && err == self.length_bound().error() && *final(self.parent)
                    == *old(self.parent)
            } else {
                r matches Ok(list) && *list == (ParameterBuilder {
                    initialization_pattern_descriptor_header: InitializationPatternDescriptorHeader {
                        initialization_pattern_length: self.initialization_pattern@.len() as u16,
                        ..self.initialization_pattern_descriptor_header
                    },
                    initialization_pattern: self.initialization_pattern,
                    ..*old(self.parent)
                }) && *final(list) == *final(self.parent)
            },
    {
        let length = self.initialization_pattern.len();
        bitfield_bound_check(length as u64, 16, "initialization pattern length")?;
        proof {
            vstd::arithmetic::power2::lemma2_to64();
        }
        let mut header = self.initialization_pattern_descriptor_header;
        header.initialization_pattern_length = length as u16;
        self.parent.initialization_pattern_descriptor_header = header;
        self.parent.initialization_pattern = self.initialization_pattern;
        Ok(self.parent)
    }
}

/// A defect list, while it is put together.
#[derive(Debug)]
pub struct DefectListBuilder<'a, 'b> {
    pub parent: &'b mut ParameterBuilder<'a>,
    pub defect_list: Vec<DefectListItem>,
}

impl<'a, 'b> DefectListBuilder<'a, 'b> {
    /// Appends a defect named by the address of its block, in four bytes.
    pub fn add_short_block_format_address_descriptor(&mut self, short_block_address: u32) -> (r:
        &mut Self)
        ensures
            r.defect_list@ == old(self).defect_list@.push(
                DefectListItem::ShortBlockFormatAddressDescriptor(
                    ShortBlockFormatAddressDescriptor { short_block_address },
                ),
            ),
            r.parent == old(self).parent,
            *final(self) == *final(r),
    {
        self.defect_list.push(
            DefectListItem::ShortBlockFormatAddressDescriptor(
                ShortBlockFormatAddressDescriptor { short_block_address },
            ),
        );
        self
    }

    /// Appends a defect named by cylinder, head and bytes from the index,
    /// with the bit that starts a range. The cylinder must fit twenty-four
    /// bits and the bytes from the index twenty-eight; where one does not,
    /// nothing is appended.
    pub fn add_extended_bytes_from_index_address_descriptor_checked(
        &mut self,
        cylinder_number: u32,
        head_number: u8,
        multi_address_descriptor_start: bool,
        bytes_from_index: u32,
    ) -> (r: Result<&mut Self, Error>)
        ensures
            match first_failure(
                seq![
                    Bound { value: cylinder_number as u64, bits: 24, name: "cylinder number" },
                    Bound { value: bytes_from_index as u64, bits: 28, name: "bytes from index" },
                ],
            ) {
                Some(e) => r matches Err(err) && err == e && *final(self) == *old(self),
                None => r matches Ok(list) && list.defect_list@ == old(self).defect_list@.push(
                    DefectListItem::ExtendedBytesFromIndexAddressDescriptor(
                        ExtendedBytesFromIndexAddressDescriptor {
                            cylinder_number,
                            head_number,
                            multi_address_descriptor_start,
                            bytes_from_index,
                        },
                    ),
                ) && list.parent == old(self).parent && *final(self) == *final(list),
            },
    {
        check_bounds(
            &[
                Bound { value: cylinder_number as u64, bits: 24, name: "cylinder number" },
                Bound { value: bytes_from_index as u64, bits: 28, name: "bytes from index" },
            ],
        )?;
        self.defect_list.push(
            DefectListItem::ExtendedBytesFromIndexAddressDescriptor(
                ExtendedBytesFromIndexAddressDescriptor {
                    cylinder_number,
                    head_number,
                    multi_address_descriptor_start,
                    bytes_from_index,
                },
            ),
        );
        Ok(self)
    }

    /// Appends a defect named by cylinder, head and sector, with the bit that
    /// starts a range. The cylinder must fit twenty-four bits and the sector
    /// twenty-eight; where one does not, nothing is appended.
    pub fn add_extended_physical_sector_address_descriptor_checked(
        &mut self,
        cylinder_number: u32,
        head_number: u8,
        multi_address_descriptor_start: bool,
        sector_number: u32,
    ) -> (r: Result<&mut Self, Error>)
        ensures
            match first_failure(
                seq![
                    Bound { value: cylinder_number as u64, bits: 24, name: "cylinder number" },
                    Bound { value: sector_number as u64, bits: 28, name: "sector number" },
                ],
            ) {
                Some(e) => r matches Err(err) && err == e && *final(self) == *old(self),
                None => r matches Ok(list) && list.defect_list@ == old(self).defect_list@.push(
                    DefectListItem::ExtendedPhysicalSectorAddressDescriptor(
                        ExtendedPhysicalSectorAddressDescriptor {
                            cylinder_number,
                            head_number,
                            multi_address_descriptor_start,
                            sector_number,
                        },
                    ),
                ) && list.parent == old(self).parent && *final(self) == *final(list),
            },
    {
        check_bounds(
            &[
                Bound { value: cylinder_number as u64, bits: 24, name: "cylinder number" },
                Bound { value: sector_number as u64, bits: 28, name: "sector number" },
            ],
        )?;
        self.defect_list.push(
            DefectListItem::ExtendedPhysicalSectorAddressDescriptor(
                ExtendedPhysicalSectorAddressDescriptor {
                    cylinder_number,
                    head_number,
                    multi_address_descriptor_start,
                    sector_number,
                },
            ),
        );
        Ok(self)
    }

    /// Appends a defect named by the address of its block, in eight bytes.
    pub fn add_long_block_format_address_descriptor(&mut self, long_block_address: u64) -> (r:
        &mut Self)
        ensures
            r.defect_list@ == old(self).defect_list@.push(
                DefectListItem::LongBlockFormatAddressDescriptor(
                    LongBlockFormatAddressDescriptor { long_block_address },
                ),
            ),
            r.parent == old(self).parent,
            *final(self) == *final(r),
    {
        self.defect_list.push(
            DefectListItem::LongBlockFormatAddressDescriptor(
                LongBlockFormatAddressDescriptor { long_block_address },
            ),
        );
        self
    }

    /// The check on a cylinder number: the descriptors have twenty-four bits
    /// for it.
    pub open spec fn cylinder_bound(cylinder_number: u32) -> Bound {
        Bound { value: cylinder_number as u64, bits: 24, name: "cylinder number" }
    }

    /// Appends a defect named by cylinder, head and bytes from the index. The
    /// cylinder must fit twenty-four bits; where it does not, nothing is
    /// appended.
    pub fn add_bytes_from_index_format_address_descriptor_checked(
        &mut self,
        cylinder_number: u32,
        head_number: u8,
        bytes_from_index: u32,
    ) -> (r: Result<&mut Self, Error>)
        ensures
            if !Self::cylinder_bound(cylinder_number).holds() {
                r matches Err(err) && err == Self::cylinder_bound(cylinder_number).error()
                    && *final(self) == *old(self)
            } else {
                r matches Ok(list) && list.defect_list@ == old(self).defect_list@.push(
                    DefectListItem::BytesFromIndexFormatAddressDescriptor(
                        BytesFromIndexFormatAddressDescriptor {
                            cylinder_number,
                            head_number,
                            bytes_from_index,
                        },
                    ),
                ) && list.parent == old(self).parent && *final(self) == *final(list)
            },
    {
        bitfield_bound_check(cylinder_number as u64, 24, "cylinder number")?;
        self.defect_list.push(
            DefectListItem::BytesFromIndexFormatAddressDescriptor(
                BytesFromIndexFormatAddressDescriptor {
                    cylinder_number,
                    head_number,
                    bytes_from_index,
                },
            ),
        );
        Ok(self)
    }

    /// Appends a defect named by cylinder, head and sector. The cylinder must
    /// fit twenty-four bits; where it does not, nothing is appended.
    pub fn add_physical_sector_format_address_descriptor_checked(
        &mut self,
        cylinder_number: u32,
        head_number: u8,
        sector_number: u32,
    ) -> (r: Result<&mut Self, Error>)
        ensures
            if !Self::cylinder_bound(cylinder_number).holds() {
                r matches Err(err) && err == Self::cylinder_bound(cylinder_number).error()
                    && *final(self) == *old(self)
            } else {
                r matches Ok(list) && list.defect_list@ == old(self).defect_list@.push(
                    DefectListItem::PhysicalSectorFormatAddressDescriptor(
                        PhysicalSectorFormatAddressDescriptor {
                            cylinder_number,
                            head_number,
                            sector_number,
                        },
                    ),
                ) && list.parent == old(self).parent && *final(self) == *final(list)
            },
    {
        bitfield_bound_check(cylinder_number as u64, 24, "cylinder number")?;
        self.defect_list.push(
            DefectListItem::PhysicalSectorFormatAddressDescriptor(
                PhysicalSectorFormatAddressDescriptor { cylinder_number, head_number,
                    sector_number },
            ),
        );
        Ok(self)
    }

    /// Appends bytes that are sent as they are.
    pub fn add_custom_descriptor(&mut self, descriptor: &[u8]) -> (r: &mut Self)
        ensures
            r.defect_list@.len() == old(self).defect_list@.len() + 1,
            r.defect_list@.drop_last() == old(self).defect_list@,
            r.defect_list@.last() matches DefectListItem::CustomDescriptor(d) && d@
                == descriptor@,
            r.parent == old(self).parent,
            *final(self) == *final(r),
    {
        let bytes = vstd::slice::slice_to_vec(descriptor);
        self.defect_list.push(DefectListItem::CustomDescriptor(bytes));
        assert(self.defect_list@.drop_last() =~= old(self).defect_list@);
        self
    }

    /// The check on the length of the list: the long header has thirty-two
    /// bits for it, the short header sixteen.
    pub open spec fn length_bound(&self) -> Bound {
        Bound {
            value: saturated(defect_list_length(self.defect_list@)),
            bits: if self.parent.longlist { 32 } else { 16 },
            name: "defect list length",
        }
    }

    /// Checks the list and hands it, with its length in the header, to the
    /// parameter list. A list of entries of more than one kind is refused,
    /// and so is one too long for the form of the header that the parameter
    /// list has at this time. Where the list is refused, the parameter list
    /// stays as it was.
    pub fn done(self) -> (r: Result<&'b mut ParameterBuilder<'a>, Error>)
        ensures
            if !one_kind(self.defect_list@) {
                r matches Err(err) && err == Error::BadArgument("Cannot mix descriptor types")
                    && *final(self.parent) == *old(self.parent)
            } else if !self.length_bound().holds() {
                r matches Err(err) && err == self.length_bound().error() && *final(self.parent)
                    == *old(self.parent)
            } else {
                r matches Ok(list) && *list == (ParameterBuilder {
                    header_buffer: LongParameterListHeader {
                        defect_list_length: defect_list_length(self.defect_list@) as u32,
                        ..old(self.parent).header_buffer
                    },
                    defect_list: self.defect_list,
                    ..*old(self.parent)
                }) && *final(list) == *final(self.parent)
            },
    {
        let count = self.defect_list.len();
        let mut i: usize = 1;
        while i < count
            invariant
                1 <= i,
                count == self.defect_list@.len(),
                forall|j: int|
                    0 <= j < i - 1 ==> (#[trigger] self.defect_list@[j]).kind_spec()
                        == self.defect_list@[j + 1].kind_spec(),
            decreases count - i,
        {
            if self.defect_list[i - 1].kind() != self.defect_list[i].kind() {
                return Err(Error::BadArgument("Cannot mix descriptor types"));
            }
            i = i + 1;
        }
        let item_len: usize = if count > 0 {
            self.defect_list[0].size()
        } else {
            0
        };
        let total_len: u64 = if item_len == 0 {
            let mut total: u64 = 0;
            let mut k: usize = 0;
            while k < count
                invariant
                    k <= count,
                    count == self.defect_list@.len(),
                    total == saturated(custom_length(self.defect_list@.take(k as int))),
                decreases count - k,
            {
                proof {
                    assert(self.defect_list@.take(k + 1).drop_last() =~= self.defect_list@.take(
                        k as int,
                    ));
                }
                match &self.defect_list[k] {
                    DefectListItem::CustomDescriptor(d) => {
                        let more = d.len() as u64;
                        total = if total > u64::MAX - more {
                            u64::MAX
                        } else {
                            total + more
                        };
                    },
                    _ => {},
                }
                k = k + 1;
            }
            assert(self.defect_list@.take(count as int) =~= self.defect_list@);
            total
        } else {
            assert(item_len * count <= 8 * usize::MAX) by (nonlinear_arith)
                requires
                    item_len <= 8,
                    count <= usize::MAX,
            ;
            let wide = item_len as u128 * count as u128;
            if wide > u64::MAX as u128 {
                u64::MAX
            } else {
                wide as u64
            }
        };
        let bits: u32 = if self.parent.longlist {
            32
        } else {
            16
        };
        bitfield_bound_check(total_len, bits, "defect list length")?;
        proof {
            vstd::arithmetic::power2::lemma2_to64();
            if bits == 16 {
                vstd::arithmetic::power2::lemma_pow2_strictly_increases(16, 32);
            }
        }
        self.parent.header_buffer.defect_list_length = total_len as u32;
        self.parent.defect_list = self.defect_list;
        Ok(self.parent)
    }
}

impl<H> Scsi<H> {
    /// A format with its options at their defaults.
    pub fn format_unit(&self) -> (r: FormatUnitCommand)
        ensures
            r.format_protection_information == 0,
            r.longlist == false,
            r.format_data == false,
            r.complete_list == false,
            r.defect_list_format == 0,
            r.vendor_specific == 0,
            r.fast_format == 0,
            r.control == 0,
            r.header_buffer == LongParameterListHeader::zero(),
            r.initialization_pattern_descriptor_header
                == InitializationPatternDescriptorHeader::zero(),
            r.initialization_pattern@ == Seq::<u8>::empty(),
            r.defect_list@ == Seq::<DefectListItem>::empty(),
    {
        FormatUnitCommand::new()
    }
}

/// A format that passed its checks: the packed descriptor block and the packed
/// parameter list.
#[derive(Debug)]
pub struct ThisCommand {
    pub command_buffer: Vec<u8>,
    pub data_buffer: Vec<u8>,
}

impl Command for ThisCommand {
    type ReturnType = Result<(), Error>;

    open spec fn direction_spec(&self) -> DataDirection {
        DataDirection::ToDevice
    }

    open spec fn command_spec(&self) -> Seq<u8> {
        self.command_buffer@
    }

    open spec fn data_spec(&self) -> Seq<u8> {
        self.data_buffer@
    }

    open spec fn data_size_spec(&self) -> u32 {
        (self.data_buffer@.len() % 0x1_0000_0000) as u32
    }

    fn direction(&self) -> (r: DataDirection) {
        DataDirection::ToDevice
    }

    fn command(&self) -> (r: Vec<u8>) {
        let r = self.command_buffer.clone();
        assert(r@ =~= self.command_buffer@);
        r
    }

    fn data(&self) -> (r: Vec<u8>) {
        let r = self.data_buffer.clone();
        assert(r@ =~= self.data_buffer@);
        r
    }

    fn data_size(&self) -> (r: u32) {
        (self.data_buffer.len() as u64 % 0x1_0000_0000) as u32
    }

    /// Nothing, unless the transport or the device reported a failure.
    fn process_result(&self, result: ResultData) -> (r: Result<(), Error>)
        ensures
            match r {
                Ok(()) => result.passes(),
                Err(e) => result.checked(Err(e)),
            },
    {
        result.check_errors()
    }
}

} // verus!
