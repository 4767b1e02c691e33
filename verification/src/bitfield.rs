//! MSB-first bit packing for fixed-size byte records.
//!
//! A record of `n` bytes is read as a row of `8 * n` bits. Bit 0 is the most
//! significant bit of byte 0, bit 7 its least significant bit, bit 8 the most
//! significant bit of byte 1, and so on. A field is a run of consecutive bits;
//! its value is the number those bits spell with the first bit as the most
//! significant one, so a byte-aligned field of several bytes is big-endian.

use vstd::prelude::*;
use vstd::arithmetic::power2::pow2;

verus! {

/// Bit `k` of a byte, where `k == 0` names the most significant bit.
pub open spec fn byte_bit(b: u8, k: int) -> bool {
    (b >> ((7 - k) as u8)) & 1u8 == 1u8
}

/// The byte `b` with its bit `k` (most significant bit first) replaced by `v`.
pub open spec fn byte_with_bit(b: u8, k: int, v: bool) -> u8 {
    if v {
        b | (1u8 << ((7 - k) as u8))
    } else {
        b & !(1u8 << ((7 - k) as u8))
    }
}

/// Bit `k` of a value, where `k == 0` names the least significant bit. Bits
/// beyond the 64 that a value has are zero.
pub open spec fn value_bit(v: u64, k: int) -> bool {
    0 <= k < 64 && (v >> (k as u64)) & 1u64 == 1u64
}

/// Bit `i` of a record, counted from the most significant bit of its first byte.
pub open spec fn bit(bytes: Seq<u8>, i: int) -> bool {
    byte_bit(bytes[i / 8], i % 8)
}

/// Replacing one bit of a byte changes that bit and no other.
pub proof fn lemma_byte_with_bit(b: u8, k: int, v: bool, j: int)
    requires
        0 <= k < 8,
        0 <= j < 8,
    ensures
        byte_bit(byte_with_bit(b, k, v), j) == (if j == k { v } else { byte_bit(b, j) }),
{
    let sk: u8 = (7 - k) as u8;
    let sj: u8 = (7 - j) as u8;
    assert(((b | (1u8 << sk)) >> sj) & 1u8 == (if sj == sk { 1u8 } else { (b >> sj) & 1u8 }))
        by (bit_vector)
        requires
            sk < 8,
            sj < 8,
    ;
    assert(((b & !(1u8 << sk)) >> sj) & 1u8 == (if sj == sk { 0u8 } else { (b >> sj) & 1u8 }))
        by (bit_vector)
        requires
            sk < 8,
            sj < 8,
    ;
    assert((b >> sj) & 1u8 == 0u8 || (b >> sj) & 1u8 == 1u8) by (bit_vector);
}

/// Two bytes with the same eight bits are the same byte.
pub proof fn lemma_byte_bits_equal(a: u8, b: u8)
    requires
        forall|k: int| 0 <= k < 8 ==> byte_bit(a, k) == byte_bit(b, k),
    ensures
        a == b,
{
    assert(byte_bit(a, 0) == byte_bit(b, 0));
    assert(byte_bit(a, 1) == byte_bit(b, 1));
    assert(byte_bit(a, 2) == byte_bit(b, 2));
    assert(byte_bit(a, 3) == byte_bit(b, 3));
    assert(byte_bit(a, 4) == byte_bit(b, 4));
    assert(byte_bit(a, 5) == byte_bit(b, 5));
    assert(byte_bit(a, 6) == byte_bit(b, 6));
    assert(byte_bit(a, 7) == byte_bit(b, 7));
    assert(a == b) by (bit_vector)
        requires
            ((a >> 7u8) & 1u8 == 1u8) == ((b >> 7u8) & 1u8 == 1u8),
            ((a >> 6u8) & 1u8 == 1u8) == ((b >> 6u8) & 1u8 == 1u8),
            ((a >> 5u8) & 1u8 == 1u8) == ((b >> 5u8) & 1u8 == 1u8),
            ((a >> 4u8) & 1u8 == 1u8) == ((b >> 4u8) & 1u8 == 1u8),
            ((a >> 3u8) & 1u8 == 1u8) == ((b >> 3u8) & 1u8 == 1u8),
            ((a >> 2u8) & 1u8 == 1u8) == ((b >> 2u8) & 1u8 == 1u8),
            ((a >> 1u8) & 1u8 == 1u8) == ((b >> 1u8) & 1u8 == 1u8),
            ((a >> 0u8) & 1u8 == 1u8) == ((b >> 0u8) & 1u8 == 1u8),
    ;
}

/// Two records of one length with the same bits are the same record.
pub proof fn lemma_bits_equal(a: Seq<u8>, b: Seq<u8>)
    requires
        a.len() == b.len(),
        forall|i: int| 0 <= i < 8 * a.len() ==> bit(a, i) == bit(b, i),
    ensures
        a == b,
{
    assert forall|j: int| 0 <= j < a.len() implies a[j] == b[j] by {
        assert forall|k: int| 0 <= k < 8 implies byte_bit(a[j], k) == byte_bit(b[j], k) by {
            assert(bit(a, 8 * j + k) == bit(b, 8 * j + k));
        }
        lemma_byte_bits_equal(a[j], b[j]);
    }
    assert(a =~= b);
}

/// The byte whose bit `k` (most significant bit first) is `f(k)`.
pub open spec fn byte_of_bits(f: spec_fn(int) -> bool) -> u8 {
    (if f(0) { 0x80u8 } else { 0u8 }) | (if f(1) { 0x40u8 } else { 0u8 })
        | (if f(2) { 0x20u8 } else { 0u8 }) | (if f(3) { 0x10u8 } else { 0u8 })
        | (if f(4) { 0x08u8 } else { 0u8 }) | (if f(5) { 0x04u8 } else { 0u8 })
        | (if f(6) { 0x02u8 } else { 0u8 }) | (if f(7) { 0x01u8 } else { 0u8 })
}

/// `byte_of_bits` puts each bit where it was asked to.
pub proof fn lemma_byte_of_bits(f: spec_fn(int) -> bool, k: int)
    requires
        0 <= k < 8,
    ensures
        byte_bit(byte_of_bits(f), k) == f(k),
{
    let b0 = f(0);
    let b1 = f(1);
    let b2 = f(2);
    let b3 = f(3);
    let b4 = f(4);
    let b5 = f(5);
    let b6 = f(6);
    let b7 = f(7);
    let x: u8 = byte_of_bits(f);
    let s: u8 = (7 - k) as u8;
    let fk = f(k);
    assert(((x >> s) & 1u8 == 1u8) == fk) by (bit_vector)
        requires
            x == (if b0 { 0x80u8 } else { 0u8 }) | (if b1 { 0x40u8 } else { 0u8 })
                | (if b2 { 0x20u8 } else { 0u8 }) | (if b3 { 0x10u8 } else { 0u8 })
                | (if b4 { 0x08u8 } else { 0u8 }) | (if b5 { 0x04u8 } else { 0u8 })
                | (if b6 { 0x02u8 } else { 0u8 }) | (if b7 { 0x01u8 } else { 0u8 }),
            s < 8,
            fk == (if s == 7 {
                b0
            } else if s == 6 {
                b1
            } else if s == 5 {
                b2
            } else if s == 4 {
                b3
            } else if s == 3 {
                b4
            } else if s == 2 {
                b5
            } else if s == 1 {
                b6
            } else {
                b7
            }),
    ;
}

/// The number spelled by the `width` bits of a record that start at bit
/// `offset`, the first of them being the most significant.
pub open spec fn field_value(bytes: Seq<u8>, offset: int, width: nat) -> nat
    decreases width,
{
    if width == 0 {
        0
    } else {
        2 * field_value(bytes, offset, (width - 1) as nat) + (if bit(bytes, offset + width - 1) {
            1nat
        } else {
            0nat
        })
    }
}

/// The record `bytes` with the field of `width` bits at bit `offset` holding
/// the low `width` bits of `value`, and every other bit as it was.
pub open spec fn with_field(bytes: Seq<u8>, offset: int, width: nat, value: u64) -> Seq<u8> {
    Seq::new(
        bytes.len(),
        |j: int|
            byte_of_bits(
                |k: int|
                    if offset <= 8 * j + k < offset + width {
                        value_bit(value, offset + width - 1 - (8 * j + k))
                    } else {
                        bit(bytes, 8 * j + k)
                    },
            ),
    )
}

/// What `with_field` does to each bit of the record.
pub proof fn lemma_with_field_bit(bytes: Seq<u8>, offset: int, width: nat, value: u64, i: int)
    requires
        0 <= i < 8 * bytes.len(),
    ensures
        bit(with_field(bytes, offset, width, value), i) == (if offset <= i < offset + width {
            value_bit(value, offset + width - 1 - i)
        } else {
            bit(bytes, i)
        }),
{
    let j = i / 8;
    let f = |k: int|
        if offset <= 8 * j + k < offset + width {
            value_bit(value, offset + width - 1 - (8 * j + k))
        } else {
            bit(bytes, 8 * j + k)
        };
    assert(with_field(bytes, offset, width, value)[j] == byte_of_bits(f));
    lemma_byte_of_bits(f, i % 8);
}

/// `value_bit` in terms of division: bit `k` of `v` is the parity of `v / 2^k`.
pub proof fn lemma_value_bit(v: u64, k: nat)
    ensures
        value_bit(v, k as int) == ((v as nat / pow2(k)) % 2 == 1),
{
    if k < 64 {
        let s = k as u64;
        vstd::bits::lemma_u64_shr_is_div(v, s);
        let x = v >> s;
        assert((x & 1u64 == 1u64) == (x % 2 == 1)) by (bit_vector);
    } else {
        vstd::arithmetic::power2::lemma2_to64();
        if k > 64 {
            vstd::arithmetic::power2::lemma_pow2_strictly_increases(64, k);
        }
        vstd::arithmetic::div_mod::lemma_basic_div(v as int, pow2(k) as int);
    }
}

/// A field of `width` bits holds a number below `2^width`.
pub proof fn lemma_field_value_bound(bytes: Seq<u8>, offset: int, width: nat)
    ensures
        field_value(bytes, offset, width) < pow2(width),
    decreases width,
{
    if width == 0 {
        vstd::arithmetic::power2::lemma2_to64();
    } else {
        lemma_field_value_bound(bytes, offset, (width - 1) as nat);
        vstd::arithmetic::power2::lemma_pow2_unfold(width);
    }
}

/// The value of a field depends on the bits of its span and on nothing else.
pub proof fn lemma_field_value_same_bits(a: Seq<u8>, b: Seq<u8>, offset: int, width: nat)
    requires
        forall|i: int| offset <= i < offset + width ==> bit(a, i) == bit(b, i),
    ensures
        field_value(a, offset, width) == field_value(b, offset, width),
    decreases width,
{
    if width > 0 {
        lemma_field_value_same_bits(a, b, offset, (width - 1) as nat);
        assert(bit(a, offset + width - 1) == bit(b, offset + width - 1));
    }
}

/// A field read as two adjacent parts: the first part supplies the high bits.
pub proof fn lemma_field_value_split(bytes: Seq<u8>, offset: int, first: nat, second: nat)
    ensures
        field_value(bytes, offset, first + second) == field_value(bytes, offset, first) * pow2(
            second,
        ) + field_value(bytes, offset + first, second),
    decreases second,
{
    if second == 0 {
        vstd::arithmetic::power2::lemma2_to64();
    } else {
        let s1 = (second - 1) as nat;
        lemma_field_value_split(bytes, offset, first, s1);
        vstd::arithmetic::power2::lemma_pow2_unfold(second);
        let a = field_value(bytes, offset, first) as int;
        let p = pow2(s1) as int;
        assert(a * (2 * p) == 2 * (a * p)) by (nonlinear_arith);
        assert(first + second - 1 == first + s1);
        assert(offset + (first + second) - 1 == offset + first + second - 1);
    }
}

/// A byte-aligned field of eight bits is the byte it covers.
pub proof fn lemma_field_value_byte(bytes: Seq<u8>, j: int)
    ensures
        field_value(bytes, 8 * j, 8) == bytes[j] as nat,
{
    reveal_with_fuel(field_value, 9);
    let b = bytes[j];
    assert forall|k: int| 0 <= k < 8 implies bit(bytes, 8 * j + k) == byte_bit(b, k) by {
        assert((8 * j + k) / 8 == j);
        assert((8 * j + k) % 8 == k);
    }
    assert(bit(bytes, 8 * j + 0) == byte_bit(b, 0));
    assert(bit(bytes, 8 * j + 1) == byte_bit(b, 1));
    assert(bit(bytes, 8 * j + 2) == byte_bit(b, 2));
    assert(bit(bytes, 8 * j + 3) == byte_bit(b, 3));
    assert(bit(bytes, 8 * j + 4) == byte_bit(b, 4));
    assert(bit(bytes, 8 * j + 5) == byte_bit(b, 5));
    assert(bit(bytes, 8 * j + 6) == byte_bit(b, 6));
    assert(bit(bytes, 8 * j + 7) == byte_bit(b, 7));
    let b0: u8 = if byte_bit(b, 0) { 1 } else { 0 };
    let b1: u8 = if byte_bit(b, 1) { 1 } else { 0 };
    let b2: u8 = if byte_bit(b, 2) { 1 } else { 0 };
    let b3: u8 = if byte_bit(b, 3) { 1 } else { 0 };
    let b4: u8 = if byte_bit(b, 4) { 1 } else { 0 };
    let b5: u8 = if byte_bit(b, 5) { 1 } else { 0 };
    let b6: u8 = if byte_bit(b, 6) { 1 } else { 0 };
    let b7: u8 = if byte_bit(b, 7) { 1 } else { 0 };
    assert(b == 128 * b0 + 64 * b1 + 32 * b2 + 16 * b3 + 8 * b4 + 4 * b5 + 2 * b6 + b7)
        by (bit_vector)
        requires
            b0 == (if (b >> 7u8) & 1u8 == 1u8 { 1u8 } else { 0u8 }),
            b1 == (if (b >> 6u8) & 1u8 == 1u8 { 1u8 } else { 0u8 }),
            b2 == (if (b >> 5u8) & 1u8 == 1u8 { 1u8 } else { 0u8 }),
            b3 == (if (b >> 4u8) & 1u8 == 1u8 { 1u8 } else { 0u8 }),
            b4 == (if (b >> 3u8) & 1u8 == 1u8 { 1u8 } else { 0u8 }),
            b5 == (if (b >> 2u8) & 1u8 == 1u8 { 1u8 } else { 0u8 }),
            b6 == (if (b >> 1u8) & 1u8 == 1u8 { 1u8 } else { 0u8 }),
            b7 == (if (b >> 0u8) & 1u8 == 1u8 { 1u8 } else { 0u8 }),
    ;
}

/// Reading back a field that was just written gives the low `width` bits of
/// what was written: the codec truncates, it does not check.
pub proof fn lemma_field_value_written(bytes: Seq<u8>, offset: int, width: nat, value: u64)
    requires
        0 <= offset,
        offset + width <= 8 * bytes.len(),
    ensures
        field_value(with_field(bytes, offset, width, value), offset, width) == value as nat % pow2(
            width,
        ),
{
    lemma_written_prefix(bytes, offset, width, value, width);
    vstd::arithmetic::power2::lemma2_to64();
}

proof fn lemma_written_prefix(bytes: Seq<u8>, offset: int, width: nat, value: u64, k: nat)
    requires
        0 <= offset,
        offset + width <= 8 * bytes.len(),
        k <= width,
    ensures
        field_value(with_field(bytes, offset, width, value), offset, k) == (value as nat / pow2(
            (width - k) as nat,
        )) % pow2(k),
    decreases k,
{
    vstd::arithmetic::power2::lemma2_to64();
    if k > 0 {
        let k1 = (k - 1) as nat;
        let r = with_field(bytes, offset, width, value);
        lemma_written_prefix(bytes, offset, width, value, k1);
        lemma_with_field_bit(bytes, offset, width, value, offset + k - 1);
        let low = (width - k) as nat;
        lemma_value_bit(value, low);
        let x = value as nat / pow2(low);
        vstd::arithmetic::power2::lemma_pow2_unfold(low + 1);
        vstd::arithmetic::power2::lemma_pow2_pos(low);
        vstd::arithmetic::power2::lemma_pow2_pos(k1);
        vstd::arithmetic::power2::lemma_pow2_unfold(k);
        vstd::arithmetic::div_mod::lemma_div_denominator(value as int, pow2(low) as int, 2);
        assert(pow2(low) * 2 == pow2(low + 1)) by (nonlinear_arith)
            requires
                pow2(low + 1) == 2 * pow2(low),
        ;
        assert(value as nat / pow2((width - k1) as nat) == x / 2);
        vstd::arithmetic::div_mod::lemma_mod_breakdown(x as int, 2, pow2(k1) as int);
    }
}

/// Writing one field leaves every field that does not overlap it as it was.
pub proof fn lemma_field_value_untouched(
    bytes: Seq<u8>,
    offset: int,
    width: nat,
    value: u64,
    other_offset: int,
    other_width: nat,
)
    requires
        0 <= other_offset,
        other_offset + other_width <= 8 * bytes.len(),
        other_offset + other_width <= offset || offset + width <= other_offset,
    ensures
        field_value(with_field(bytes, offset, width, value), other_offset, other_width)
            == field_value(bytes, other_offset, other_width),
{
    let r = with_field(bytes, offset, width, value);
    assert forall|i: int| other_offset <= i < other_offset + other_width implies bit(r, i) == bit(
        bytes,
        i,
    ) by {
        lemma_with_field_bit(bytes, offset, width, value, i);
    }
    lemma_field_value_same_bits(r, bytes, other_offset, other_width);
}

/// Reads bit `index` of a record.
pub fn get_bit(bytes: &[u8], index: usize) -> (r: bool)
    requires
        index < 8 * bytes@.len(),
    ensures
        r == bit(bytes@, index as int),
{
    let byte = bytes[index / 8];
    let shift: u8 = 7 - (index % 8) as u8;
    (byte >> shift) & 1u8 == 1u8
}

/// Writes bit `index` of a record and leaves the others alone.
pub fn set_bit(bytes: &mut [u8], index: usize, v: bool)
    requires
        index < 8 * old(bytes)@.len(),
    ensures
        final(bytes)@ == old(bytes)@.update(
            index as int / 8,
            byte_with_bit(old(bytes)@[index as int / 8], index as int % 8, v),
        ),
{
    let byte = bytes[index / 8];
    let shift: u8 = 7 - (index % 8) as u8;
    let mask: u8 = 1u8 << shift;
    if v {
        bytes[index / 8] = byte | mask;
    } else {
        bytes[index / 8] = byte & !mask;
    }
}

/// Reads the field of `width` bits that starts at bit `offset`.
pub fn get_field(bytes: &[u8], offset: usize, width: u32) -> (r: u64)
    requires
        width <= 64,
        offset + width <= 8 * bytes@.len(),
        offset + width <= usize::MAX,
    ensures
        r == field_value(bytes@, offset as int, width as nat),
{
    let mut acc: u64 = 0;
    let mut k: u32 = 0;
    while k < width
        invariant
            k <= width <= 64,
            offset + width <= 8 * bytes@.len(),
            offset + width <= usize::MAX,
            acc == field_value(bytes@, offset as int, k as nat),
        decreases width - k,
    {
        proof {
            lemma_field_value_bound(bytes@, offset as int, k as nat);
            lemma_field_value_bound(bytes@, offset as int, (k + 1) as nat);
            vstd::arithmetic::power2::lemma2_to64();
            if k + 1 < 64 {
                vstd::arithmetic::power2::lemma_pow2_strictly_increases((k + 1) as nat, 64);
            }
        }
        let b = get_bit(bytes, offset + k as usize);
        acc = acc * 2 + (if b { 1 } else { 0 });
        k = k + 1;
    }
    acc
}

/// Writes the low `width` bits of `value` into the field that starts at bit
/// `offset`, first bit most significant, and leaves every other bit alone.
pub fn set_field(bytes: &mut [u8], offset: usize, width: u32, value: u64)
    requires
        offset + width <= 8 * old(bytes)@.len(),
        offset + width <= usize::MAX,
    ensures
        final(bytes)@ == with_field(old(bytes)@, offset as int, width as nat, value),
{
    let mut k: u32 = 0;
    while k < width
        invariant
            k <= width,
            bytes@.len() == old(bytes)@.len(),
            offset + width <= 8 * bytes@.len(),
            offset + width <= usize::MAX,
            forall|i: int|
                0 <= i < 8 * bytes@.len() ==> bit(bytes@, i) == (if offset <= i < offset + k {
                    value_bit(value, offset + width - 1 - i)
                } else {
                    bit(old(bytes)@, i)
                }),
        decreases width - k,
    {
        let from_low: u32 = width - 1 - k;
        let v = from_low < 64 && (value >> (from_low as u64)) & 1u64 == 1u64;
        let index = offset + k as usize;
        let ghost before = bytes@;
        set_bit(bytes, index, v);
        proof {
            assert forall|i: int| 0 <= i < 8 * bytes@.len() implies bit(bytes@, i) == (if offset
                <= i < offset + k + 1 {
                value_bit(value, offset + width - 1 - i)
            } else {
                bit(old(bytes)@, i)
            }) by {
                if i / 8 == index as int / 8 {
                    lemma_byte_with_bit(before[index as int / 8], index as int % 8, v, i % 8);
                    assert(bit(before, i) == byte_bit(before[index as int / 8], i % 8));
                    assert(i % 8 == index as int % 8 ==> i == index);
                } else {
                    assert(bit(before, i) == bit(bytes@, i));
                }
                assert(v == value_bit(value, offset + width - 1 - index));
            }
        }
        k = k + 1;
    }
    proof {
        let target = with_field(old(bytes)@, offset as int, width as nat, value);
        assert forall|i: int| 0 <= i < 8 * bytes@.len()
            implies bit(bytes@, i) == bit(target, i) by {
            lemma_with_field_bit(old(bytes)@, offset as int, width as nat, value, i);
        }
        lemma_bits_equal(bytes@, target);
    }
}

/// One field of a record layout: how many bits it takes, and the value to
/// store in them. A reserved field is a field whose value is zero.
#[derive(Clone, Copy, Debug)]
pub struct Field {
    pub width: u32,
    pub value: u64,
}

/// The number of bits that the first `n` fields of a layout take.
pub open spec fn width_upto(fields: Seq<Field>, n: int) -> nat
    decreases n,
{
    if n <= 0 {
        0
    } else {
        width_upto(fields, n - 1) + fields[n - 1].width as nat
    }
}

/// The number of bits that a layout takes.
pub open spec fn total_width(fields: Seq<Field>) -> nat {
    width_upto(fields, fields.len() as int)
}

/// The bit at which field `i` of a layout starts: the fields before it, laid
/// end to end, come first.
pub open spec fn field_offset(fields: Seq<Field>, i: int) -> nat {
    width_upto(fields, i)
}

/// A record of `len` zero bytes.
pub open spec fn zeros(len: nat) -> Seq<u8> {
    Seq::new(len, |i: int| 0u8)
}

/// The record `bytes` after the first `n` fields of a layout were written
/// into it, one after the other, starting at bit 0.
pub open spec fn packed_upto(bytes: Seq<u8>, fields: Seq<Field>, n: int) -> Seq<u8>
    decreases n,
{
    if n <= 0 {
        bytes
    } else {
        with_field(
            packed_upto(bytes, fields, n - 1),
            width_upto(fields, n - 1) as int,
            fields[n - 1].width as nat,
            fields[n - 1].value,
        )
    }
}

/// The record that a layout describes: its fields laid end to end from bit 0
/// of a zeroed record of `total_width(fields) / 8` bytes.
pub open spec fn packed(fields: Seq<Field>) -> Seq<u8> {
    packed_upto(zeros(total_width(fields) / 8), fields, fields.len() as int)
}

/// A field starts no earlier than the fields before it.
pub proof fn lemma_width_upto_monotone(fields: Seq<Field>, a: int, b: int)
    requires
        a <= b,
    ensures
        width_upto(fields, a) <= width_upto(fields, b),
    decreases b - a,
{
    if a < b {
        lemma_width_upto_monotone(fields, a, b - 1);
    }
}

/// Packing keeps the length of the record it packs into.
pub proof fn lemma_packed_upto_len(bytes: Seq<u8>, fields: Seq<Field>, n: int)
    ensures
        packed_upto(bytes, fields, n).len() == bytes.len(),
    decreases n,
{
    if n > 0 {
        lemma_packed_upto_len(bytes, fields, n - 1);
    }
}

/// A packed record is exactly as long as its layout says: one byte for every
/// eight bits of field width.
pub proof fn lemma_packed_len(fields: Seq<Field>)
    ensures
        packed(fields).len() == total_width(fields) / 8,
{
    lemma_packed_upto_len(zeros(total_width(fields) / 8), fields, fields.len() as int);
}

/// Each field of a packed record reads back as the low bits of its value.
pub proof fn lemma_packed_field(fields: Seq<Field>, i: int)
    requires
        0 <= i < fields.len(),
        total_width(fields) % 8 == 0,
    ensures
        field_value(packed(fields), field_offset(fields, i) as int, fields[i].width as nat)
            == fields[i].value as nat % pow2(fields[i].width as nat),
{
    lemma_packed_upto_field(zeros(total_width(fields) / 8), fields, fields.len() as int, i);
}

/// A field of eight bits that starts at a byte of a packed record is that
/// byte: the low eight bits of its value.
pub proof fn lemma_packed_byte(fields: Seq<Field>, i: int)
    requires
        0 <= i < fields.len(),
        total_width(fields) % 8 == 0,
        fields[i].width == 8,
        field_offset(fields, i) % 8 == 0,
    ensures
        packed(fields)[field_offset(fields, i) as int / 8] == fields[i].value % 256,
{
    lemma_packed_field(fields, i);
    lemma_field_value_byte(packed(fields), field_offset(fields, i) as int / 8);
    vstd::arithmetic::power2::lemma2_to64();
}

proof fn lemma_packed_upto_field(bytes: Seq<u8>, fields: Seq<Field>, n: int, i: int)
    requires
        0 <= i < n <= fields.len(),
        total_width(fields) <= 8 * bytes.len(),
    ensures
        field_value(
            packed_upto(bytes, fields, n),
            field_offset(fields, i) as int,
            fields[i].width as nat,
        ) == fields[i].value as nat % pow2(fields[i].width as nat),
    decreases n,
{
    let before = packed_upto(bytes, fields, n - 1);
    lemma_packed_upto_len(bytes, fields, n - 1);
    lemma_width_upto_monotone(fields, n, fields.len() as int);
    if i == n - 1 {
        lemma_field_value_written(
            before,
            width_upto(fields, i) as int,
            fields[i].width as nat,
            fields[i].value,
        );
    } else {
        lemma_packed_upto_field(bytes, fields, n - 1, i);
        lemma_width_upto_monotone(fields, i + 1, n - 1);
        lemma_field_value_untouched(
            before,
            width_upto(fields, n - 1) as int,
            fields[n - 1].width as nat,
            fields[n - 1].value,
            width_upto(fields, i) as int,
            fields[i].width as nat,
        );
    }
}

/// Packs a layout into a record of `N` bytes: the fields laid end to end,
/// first field at the most significant bit of byte 0, each value cut to the
/// width of its field.
pub fn pack<const N: usize>(fields: &[Field]) -> (r: [u8; N])
    requires
        total_width(fields@) == 8 * N,
        8 * N <= usize::MAX,
    ensures
        r@ == packed(fields@),
{
    let mut record = [0u8; N];
    let mut offset: usize = 0;
    let mut i: usize = 0;
    assert(record@ =~= zeros(N as nat));
    while i < fields.len()
        invariant
            i <= fields@.len(),
            total_width(fields@) == 8 * N,
            8 * N <= usize::MAX,
            offset == width_upto(fields@, i as int),
            record@ == packed_upto(zeros(N as nat), fields@, i as int),
        decreases fields@.len() - i,
    {
        let f = fields[i];
        proof {
            lemma_width_upto_monotone(fields@, i + 1, fields@.len() as int);
            lemma_packed_upto_len(zeros(N as nat), fields@, i as int);
        }
        set_field(&mut record, offset, f.width, f.value);
        offset = offset + f.width as usize;
        i = i + 1;
    }
    record
}

/// A record is known by its bits read as one number: two records of one
/// length that spell the same number are the same record.
pub proof fn lemma_field_value_injective(a: Seq<u8>, b: Seq<u8>)
    requires
        a.len() == b.len(),
        field_value(a, 0, 8 * a.len()) == field_value(b, 0, 8 * b.len()),
    ensures
        a == b,
{
    lemma_same_value_same_bits(a, b, 8 * a.len());
    lemma_bits_equal(a, b);
}

proof fn lemma_same_value_same_bits(a: Seq<u8>, b: Seq<u8>, width: nat)
    requires
        field_value(a, 0, width) == field_value(b, 0, width),
    ensures
        forall|i: int| 0 <= i < width ==> bit(a, i) == bit(b, i),
    decreases width,
{
    if width > 0 {
        lemma_same_value_same_bits(a, b, (width - 1) as nat);
    }
}

/// Packs a layout into a record of `N` bytes, as `pack` does, and hands it
/// out as a vector.
pub fn pack_vec<const N: usize>(fields: &[Field]) -> (r: Vec<u8>)
    requires
        total_width(fields@) == 8 * N,
        8 * N <= usize::MAX,
    ensures
        r@ == packed(fields@),
        r@.len() == N,
{
    let record: [u8; N] = pack(fields);
    let mut r: Vec<u8> = Vec::new();
    let mut i: usize = 0;
    while i < N
        invariant
            i <= N,
            r@ == record@.take(i as int),
        decreases N - i,
    {
        r.push(record[i]);
        assert(record@.take(i as int).push(record@[i as int]) =~= record@.take(i + 1));
        i = i + 1;
    }
    assert(record@.take(N as int) =~= record@);
    r
}

/// Reads a field of at most eight bits.
pub fn get_u8(bytes: &[u8], offset: usize, width: u32) -> (r: u8)
    requires
        width <= 8,
        offset + width <= 8 * bytes@.len(),
        offset + width <= usize::MAX,
    ensures
        r == field_value(bytes@, offset as int, width as nat),
{
    proof {
        lemma_field_value_bound(bytes@, offset as int, width as nat);
        vstd::arithmetic::power2::lemma2_to64();
        if width < 8 {
            vstd::arithmetic::power2::lemma_pow2_strictly_increases(width as nat, 8);
        }
    }
    get_field(bytes, offset, width) as u8
}

/// Reads a field of at most sixteen bits.
pub fn get_u16(bytes: &[u8], offset: usize, width: u32) -> (r: u16)
    requires
        width <= 16,
        offset + width <= 8 * bytes@.len(),
        offset + width <= usize::MAX,
    ensures
        r == field_value(bytes@, offset as int, width as nat),
{
    proof {
        lemma_field_value_bound(bytes@, offset as int, width as nat);
        vstd::arithmetic::power2::lemma2_to64();
        if width < 16 {
            vstd::arithmetic::power2::lemma_pow2_strictly_increases(width as nat, 16);
        }
    }
    get_field(bytes, offset, width) as u16
}

/// Reads a field of at most thirty-two bits.
pub fn get_u32(bytes: &[u8], offset: usize, width: u32) -> (r: u32)
    requires
        width <= 32,
        offset + width <= 8 * bytes@.len(),
        offset + width <= usize::MAX,
    ensures
        r == field_value(bytes@, offset as int, width as nat),
{
    proof {
        lemma_field_value_bound(bytes@, offset as int, width as nat);
        vstd::arithmetic::power2::lemma2_to64();
        if width < 32 {
            vstd::arithmetic::power2::lemma_pow2_strictly_increases(width as nat, 32);
        }
    }
    get_field(bytes, offset, width) as u32
}

/// Reads a field of one bit.
pub fn get_flag(bytes: &[u8], offset: usize) -> (r: bool)
    requires
        offset < 8 * bytes@.len(),
    ensures
        r == (field_value(bytes@, offset as int, 1) != 0),
        r == bit(bytes@, offset as int),
{
    reveal_with_fuel(field_value, 2);
    get_bit(bytes, offset)
}

} // verus!
