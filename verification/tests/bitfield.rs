//! The field codec: bits counted from the most significant bit of the first
//! byte, fields big-endian, values cut to the width of their field.

use modular_bitfield_msb::private::{read_specifier, write_specifier};
use modular_bitfield_msb::specifiers::{B1, B12, B16, B24, B3, B32, B5, B64, B7, B8};
use scsir::bitfield::{
    get_bit, get_field, get_flag, get_u16, get_u32, get_u8, pack, pack_vec, set_bit, set_field,
    Field,
};

/// A generator of numbers that look random and are the same at every run.
struct Numbers(u64);

impl Numbers {
    fn next(&mut self) -> u64 {
        self.0 = self.0.wrapping_mul(6364136223846793005).wrapping_add(1442695040888963407);
        self.0 ^ (self.0 >> 29)
    }
}

#[test]
fn bits_are_counted_from_the_most_significant() {
    let record = [0b1000_0000u8, 0b0000_0001, 0b0100_0000];
    assert!(get_bit(&record, 0));
    assert!(!get_bit(&record, 1));
    assert!(!get_bit(&record, 7));
    assert!(!get_bit(&record, 8));
    assert!(get_bit(&record, 15));
    assert!(get_bit(&record, 17));
    assert!(get_flag(&record, 17));
    assert!(!get_flag(&record, 16));

    let mut record = [0u8; 2];
    set_bit(&mut record, 0, true);
    assert_eq!(record, [0x80, 0x00]);
    set_bit(&mut record, 9, true);
    assert_eq!(record, [0x80, 0x40]);
    set_bit(&mut record, 0, false);
    assert_eq!(record, [0x00, 0x40]);
    set_bit(&mut record, 9, true);
    assert_eq!(record, [0x00, 0x40]);
}

#[test]
fn fields_are_big_endian() {
    let record = [0x12u8, 0x34, 0x56, 0x78, 0x9A, 0xBC, 0xDE, 0xF0];
    assert_eq!(get_field(&record, 0, 8), 0x12);
    assert_eq!(get_field(&record, 0, 16), 0x1234);
    assert_eq!(get_field(&record, 8, 24), 0x345678);
    assert_eq!(get_field(&record, 0, 64), 0x1234_5678_9ABC_DEF0);
    assert_eq!(get_field(&record, 4, 8), 0x23);
    assert_eq!(get_field(&record, 4, 4), 0x2);
    assert_eq!(get_field(&record, 3, 3), 0b100);
    assert_eq!(get_field(&record, 13, 0), 0);
    assert_eq!(get_field(&record, 60, 4), 0x0);
    assert_eq!(get_u8(&record, 12, 8), 0x45);
    assert_eq!(get_u16(&record, 12, 12), 0x456);
    assert_eq!(get_u32(&record, 28, 32), 0x89AB_CDEF);
}

#[test]
fn a_field_is_written_and_nothing_else() {
    let mut record = [0xFFu8; 4];
    set_field(&mut record, 5, 6, 0);
    assert_eq!(record, [0b1111_1000, 0b0001_1111, 0xFF, 0xFF]);
    set_field(&mut record, 8, 16, 0x1234);
    assert_eq!(record, [0b1111_1000, 0x12, 0x34, 0xFF]);
    set_field(&mut record, 31, 1, 0);
    assert_eq!(record, [0b1111_1000, 0x12, 0x34, 0xFE]);
    set_field(&mut record, 0, 0, 0xFFFF);
    assert_eq!(record, [0b1111_1000, 0x12, 0x34, 0xFE]);
}

#[test]
fn a_value_is_cut_to_the_width_of_its_field() {
    let mut record = [0u8; 2];
    set_field(&mut record, 4, 8, 0x1FF);
    assert_eq!(record, [0x0F, 0xF0]);
    assert_eq!(get_field(&record, 4, 8), 0xFF);
    let mut record = [0u8; 2];
    set_field(&mut record, 0, 3, 0b1101);
    assert_eq!(record, [0b1010_0000, 0]);
    // A field wider than a value has zeros in front of it.
    let record: [u8; 10] = pack(&[Field { width: 80, value: u64::MAX }]);
    assert_eq!(record, [0, 0, 0xFF, 0xFF, 0xFF, 0xFF, 0xFF, 0xFF, 0xFF, 0xFF]);
}

#[test]
fn a_layout_is_packed_field_after_field() {
    let record: [u8; 3] = pack(&[
        Field { width: 4, value: 0xA },
        Field { width: 1, value: 1 },
        Field { width: 3, value: 0b010 },
        Field { width: 12, value: 0xBCD },
        Field { width: 4, value: 0 },
    ]);
    assert_eq!(record, [0xAA, 0xBC, 0xD0]);
    let record = pack_vec::<2>(&[Field { width: 9, value: 0x1FF }, Field { width: 7, value: 1 }]);
    assert_eq!(record, vec![0xFF, 0x81]);
    let empty: [u8; 0] = pack(&[]);
    assert_eq!(empty.len(), 0);
    let reserved: [u8; 17] = pack(&[Field { width: 128, value: 0 }, Field { width: 8, value: 7 }]);
    assert_eq!(reserved[16], 7);
    assert_eq!(&reserved[..16], &[0; 16]);
}

#[test]
fn what_is_written_reads_back() {
    let mut numbers = Numbers(7);
    for _ in 0..2000 {
        let mut record = [0u8; 12];
        for byte in record.iter_mut() {
            *byte = numbers.next() as u8;
        }
        let before = record;
        let width = (numbers.next() % 65) as u32;
        let offset = (numbers.next() % (96 - width as u64 + 1)) as usize;
        let value = numbers.next();
        set_field(&mut record, offset, width, value);
        let kept = if width == 64 { value } else { value & ((1u64 << width) - 1) };
        assert_eq!(get_field(&record, offset, width), kept);
        for bit in 0..96 {
            if bit < offset || bit >= offset + width as usize {
                assert_eq!(get_bit(&record, bit), get_bit(&before, bit));
            }
        }
    }
}

#[test]
fn the_codec_agrees_with_the_bitfield_crate() {
    let mut numbers = Numbers(11);
    for _ in 0..500 {
        let mut ours = [0u8; 16];
        for byte in ours.iter_mut() {
            *byte = numbers.next() as u8;
        }
        let mut theirs = ours;
        let offset = (numbers.next() % 64) as usize;
        let value = numbers.next();

        set_field(&mut ours, offset, 1, value);
        write_specifier::<B1>(&mut theirs, offset, (value & 1) as u8);
        assert_eq!(ours, theirs);
        set_field(&mut ours, offset, 3, value);
        write_specifier::<B3>(&mut theirs, offset, (value & 7) as u8);
        assert_eq!(ours, theirs);
        set_field(&mut ours, offset + 1, 5, value >> 3);
        write_specifier::<B5>(&mut theirs, offset + 1, ((value >> 3) & 0x1F) as u8);
        assert_eq!(ours, theirs);
        set_field(&mut ours, offset + 2, 7, value >> 5);
        write_specifier::<B7>(&mut theirs, offset + 2, ((value >> 5) & 0x7F) as u8);
        assert_eq!(ours, theirs);
        set_field(&mut ours, offset, 8, value >> 8);
        write_specifier::<B8>(&mut theirs, offset, (value >> 8) as u8);
        assert_eq!(ours, theirs);
        set_field(&mut ours, offset + 3, 12, value >> 9);
        write_specifier::<B12>(&mut theirs, offset + 3, ((value >> 9) & 0xFFF) as u16);
        assert_eq!(ours, theirs);
        set_field(&mut ours, offset, 16, value >> 16);
        write_specifier::<B16>(&mut theirs, offset, (value >> 16) as u16);
        assert_eq!(ours, theirs);
        set_field(&mut ours, offset + 5, 24, value >> 20);
        write_specifier::<B24>(&mut theirs, offset + 5, ((value >> 20) & 0xFF_FFFF) as u32);
        assert_eq!(ours, theirs);
        set_field(&mut ours, offset, 32, value >> 32);
        write_specifier::<B32>(&mut theirs, offset, (value >> 32) as u32);
        assert_eq!(ours, theirs);
        set_field(&mut ours, offset, 64, value);
        write_specifier::<B64>(&mut theirs, offset, value);
        assert_eq!(ours, theirs);

        assert_eq!(get_field(&ours, offset, 1), read_specifier::<B1>(&theirs, offset) as u64);
        assert_eq!(get_field(&ours, offset, 3), read_specifier::<B3>(&theirs, offset) as u64);
        assert_eq!(get_field(&ours, offset, 5), read_specifier::<B5>(&theirs, offset) as u64);
        assert_eq!(get_field(&ours, offset, 8), read_specifier::<B8>(&theirs, offset) as u64);
        assert_eq!(get_field(&ours, offset, 12), read_specifier::<B12>(&theirs, offset) as u64);
        assert_eq!(get_field(&ours, offset, 16), read_specifier::<B16>(&theirs, offset) as u64);
        assert_eq!(get_field(&ours, offset, 24), read_specifier::<B24>(&theirs, offset) as u64);
        assert_eq!(get_field(&ours, offset, 32), read_specifier::<B32>(&theirs, offset) as u64);
        assert_eq!(get_field(&ours, offset, 64), read_specifier::<B64>(&theirs, offset));
    }
}
