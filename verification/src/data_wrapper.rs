//! A header followed by a growable array of fixed-size elements, held as the
//! bytes that travel: the shape of every SCSI parameter list.
//!
//! The buffer is one run of bytes. The header sits at byte 0, the elements
//! follow it without padding, and typed values are copied in and out through
//! their wire representation, so nothing depends on how the host lays out or
//! aligns a type.

use vstd::prelude::*;
use core::marker::PhantomData;
use crate::bitfield::{
    Field, field_value, get_field, lemma_field_value_injective, lemma_packed_field,
    lemma_packed_len, pack, packed, width_upto,
};

verus! {

/// A type with a fixed-size representation in bytes.
///
/// `wire` and `unwire` are inverse to each other on values and on byte
/// strings of `wire_size()` bytes; the three proof functions say so, and
/// every implementation proves them.
pub trait Wire: Sized {
    /// The number of bytes a value takes.
    spec fn wire_size() -> nat;

    /// The bytes of a value.
    spec fn wire(&self) -> Seq<u8>;

    /// The value that a run of `wire_size()` bytes stands for.
    spec fn unwire(bytes: Seq<u8>) -> Self;

    /// Every value takes exactly `wire_size()` bytes.
    proof fn lemma_wire_len(&self)
        ensures
            self.wire().len() == Self::wire_size(),
    ;

    /// Decoding what was encoded gives the value back.
    proof fn lemma_unwire_wire(&self)
        ensures
            Self::unwire(self.wire()) == *self,
    ;

    /// Encoding what was decoded gives the bytes back.
    proof fn lemma_wire_unwire(bytes: Seq<u8>)
        requires
            bytes.len() == Self::wire_size(),
        ensures
            Self::unwire(bytes).wire() == bytes,
    ;

    /// The number of bytes a value takes.
    fn size() -> (n: usize)
        ensures
            n == Self::wire_size(),
    ;

    /// Encodes a value.
    fn to_wire(&self) -> (bytes: Vec<u8>)
        ensures
            bytes@ == self.wire(),
    ;

    /// Decodes a value.
    fn from_wire(bytes: &[u8]) -> (r: Self)
        requires
            bytes@.len() == Self::wire_size(),
        ensures
            r == Self::unwire(bytes@),
    ;
}

impl Wire for () {
    open spec fn wire_size() -> nat {
        0
    }

    open spec fn wire(&self) -> Seq<u8> {
        Seq::empty()
    }

    open spec fn unwire(bytes: Seq<u8>) -> Self {
        ()
    }

    proof fn lemma_wire_len(&self) {
    }

    proof fn lemma_unwire_wire(&self) {
    }

    proof fn lemma_wire_unwire(bytes: Seq<u8>) {
        assert(bytes =~= Seq::empty());
    }

    fn size() -> (n: usize) {
        0
    }

    fn to_wire(&self) -> (bytes: Vec<u8>) {
        Vec::new()
    }

    fn from_wire(bytes: &[u8]) -> (r: Self) {
        ()
    }
}

impl Wire for u8 {
    open spec fn wire_size() -> nat {
        1
    }

    open spec fn wire(&self) -> Seq<u8> {
        seq![*self]
    }

    open spec fn unwire(bytes: Seq<u8>) -> Self {
        bytes[0]
    }

    proof fn lemma_wire_len(&self) {
    }

    proof fn lemma_unwire_wire(&self) {
    }

    proof fn lemma_wire_unwire(bytes: Seq<u8>) {
        assert(seq![bytes[0]] =~= bytes);
    }

    fn size() -> (n: usize) {
        1
    }

    fn to_wire(&self) -> (bytes: Vec<u8>) {
        let mut bytes = Vec::new();
        bytes.push(*self);
        assert(bytes@ =~= seq![*self]);
        bytes
    }

    fn from_wire(bytes: &[u8]) -> (r: Self) {
        bytes[0]
    }
}

/// The big-endian bytes of a number that takes `width / 8` bytes.
pub open spec fn be_bytes(value: u64, width: u32) -> Seq<u8> {
    packed(seq![Field { width, value }])
}

/// The big-endian bytes of a number read back give the number, as far as it
/// fits the width.
pub proof fn lemma_be_bytes_value(value: u64, width: u32)
    requires
        width % 8 == 0,
    ensures
        be_bytes(value, width).len() == width / 8,
        field_value(be_bytes(value, width), 0, width as nat) == value as nat
            % vstd::arithmetic::power2::pow2(width as nat),
{
    reveal_with_fuel(width_upto, 2);
    let fields = seq![Field { width, value }];
    lemma_packed_len(fields);
    lemma_packed_field(fields, 0);
}

/// A run of `width / 8` bytes is the big-endian form of the number it spells.
pub proof fn lemma_be_bytes_of_value(bytes: Seq<u8>, width: u32)
    requires
        width % 8 == 0,
        width <= 64,
        bytes.len() == width / 8,
    ensures
        be_bytes(field_value(bytes, 0, width as nat) as u64, width) == bytes,
{
    let value = field_value(bytes, 0, width as nat);
    crate::bitfield::lemma_field_value_bound(bytes, 0, width as nat);
    vstd::arithmetic::power2::lemma2_to64();
    if width < 64 {
        vstd::arithmetic::power2::lemma_pow2_strictly_increases(width as nat, 64);
    }
    lemma_be_bytes_value(value as u64, width);
    vstd::arithmetic::div_mod::lemma_small_mod(
        value,
        vstd::arithmetic::power2::pow2(width as nat),
    );
    lemma_field_value_injective(be_bytes(value as u64, width), bytes);
}

fn array_to_vec<const N: usize>(array: &[u8; N]) -> (r: Vec<u8>)
    ensures
        r@ == array@,
{
    let mut r: Vec<u8> = Vec::new();
    let mut i: usize = 0;
    while i < N
        invariant
            i <= N,
            r@ == array@.take(i as int),
        decreases N - i,
    {
        r.push(array[i]);
        assert(array@.take(i as int).push(array@[i as int]) =~= array@.take(i + 1));
        i = i + 1;
    }
    assert(array@.take(N as int) =~= array@);
    r
}

impl Wire for u16 {
    open spec fn wire_size() -> nat {
        2
    }

    open spec fn wire(&self) -> Seq<u8> {
        be_bytes(*self as u64, 16)
    }

    open spec fn unwire(bytes: Seq<u8>) -> Self {
        field_value(bytes, 0, 16) as u16
    }

    proof fn lemma_wire_len(&self) {
        lemma_be_bytes_value(*self as u64, 16);
    }

    proof fn lemma_unwire_wire(&self) {
        lemma_be_bytes_value(*self as u64, 16);
        vstd::arithmetic::power2::lemma2_to64();
    }

    proof fn lemma_wire_unwire(bytes: Seq<u8>) {
        crate::bitfield::lemma_field_value_bound(bytes, 0, 16);
        vstd::arithmetic::power2::lemma2_to64();
        lemma_be_bytes_of_value(bytes, 16);
    }

    fn size() -> (n: usize) {
        2
    }

    fn to_wire(&self) -> (bytes: Vec<u8>) {
        reveal_with_fuel(width_upto, 2);
        let fields = [Field { width: 16, value: *self as u64 }];
        assert(fields@ =~= seq![Field { width: 16, value: *self as u64 }]);
        let record: [u8; 2] = pack(&fields);
        array_to_vec(&record)
    }

    fn from_wire(bytes: &[u8]) -> (r: Self) {
        proof {
            crate::bitfield::lemma_field_value_bound(bytes@, 0, 16);
            vstd::arithmetic::power2::lemma2_to64();
        }
        get_field(bytes, 0, 16) as u16
    }
}

impl Wire for u32 {
    open spec fn wire_size() -> nat {
        4
    }

    open spec fn wire(&self) -> Seq<u8> {
        be_bytes(*self as u64, 32)
    }

    open spec fn unwire(bytes: Seq<u8>) -> Self {
        field_value(bytes, 0, 32) as u32
    }

    proof fn lemma_wire_len(&self) {
        lemma_be_bytes_value(*self as u64, 32);
    }

    proof fn lemma_unwire_wire(&self) {
        lemma_be_bytes_value(*self as u64, 32);
        vstd::arithmetic::power2::lemma2_to64();
    }

    proof fn lemma_wire_unwire(bytes: Seq<u8>) {
        crate::bitfield::lemma_field_value_bound(bytes, 0, 32);
        vstd::arithmetic::power2::lemma2_to64();
        lemma_be_bytes_of_value(bytes, 32);
    }

    fn size() -> (n: usize) {
        4
    }

    fn to_wire(&self) -> (bytes: Vec<u8>) {
        reveal_with_fuel(width_upto, 2);
        let fields = [Field { width: 32, value: *self as u64 }];
        assert(fields@ =~= seq![Field { width: 32, value: *self as u64 }]);
        let record: [u8; 4] = pack(&fields);
        array_to_vec(&record)
    }

    fn from_wire(bytes: &[u8]) -> (r: Self) {
        proof {
            crate::bitfield::lemma_field_value_bound(bytes@, 0, 32);
            vstd::arithmetic::power2::lemma2_to64();
        }
        get_field(bytes, 0, 32) as u32
    }
}

impl Wire for u64 {
    open spec fn wire_size() -> nat {
        8
    }

    open spec fn wire(&self) -> Seq<u8> {
        be_bytes(*self, 64)
    }

    open spec fn unwire(bytes: Seq<u8>) -> Self {
        field_value(bytes, 0, 64) as u64
    }

    proof fn lemma_wire_len(&self) {
        lemma_be_bytes_value(*self, 64);
    }

    proof fn lemma_unwire_wire(&self) {
        lemma_be_bytes_value(*self, 64);
        vstd::arithmetic::power2::lemma2_to64();
    }

    proof fn lemma_wire_unwire(bytes: Seq<u8>) {
        crate::bitfield::lemma_field_value_bound(bytes, 0, 64);
        vstd::arithmetic::power2::lemma2_to64();
        lemma_be_bytes_of_value(bytes, 64);
    }

    fn size() -> (n: usize) {
        8
    }

    fn to_wire(&self) -> (bytes: Vec<u8>) {
        reveal_with_fuel(width_upto, 2);
        let fields = [Field { width: 64, value: *self }];
        assert(fields@ =~= seq![Field { width: 64, value: *self }]);
        let record: [u8; 8] = pack(&fields);
        array_to_vec(&record)
    }

    fn from_wire(bytes: &[u8]) -> (r: Self) {
        get_field(bytes, 0, 64)
    }
}

/// The array of `N` bytes whose first `k` bytes are those of `bytes` and
/// whose other bytes are zero.
pub open spec fn array_upto<const N: usize>(bytes: Seq<u8>, k: int) -> [u8; N]
    decreases k,
{
    if k <= 0 {
        vstd::array::spec_array_fill_for_copy_type::<u8, N>(0u8)
    } else {
        vstd::array::spec_array_update(array_upto::<N>(bytes, k - 1), k - 1, bytes[k - 1])
    }
}

/// `array_upto` holds what it says.
pub proof fn lemma_array_upto<const N: usize>(bytes: Seq<u8>, k: int)
    requires
        k <= N,
    ensures
        forall|i: int| 0 <= i < k ==> array_upto::<N>(bytes, k)@[i] == bytes[i],
        array_upto::<N>(bytes, k)@.len() == N,
    decreases k,
{
    if k > 0 {
        lemma_array_upto::<N>(bytes, k - 1);
    }
}

impl<const N: usize> Wire for [u8; N] {
    open spec fn wire_size() -> nat {
        N as nat
    }

    open spec fn wire(&self) -> Seq<u8> {
        self@
    }

    open spec fn unwire(bytes: Seq<u8>) -> Self {
        array_upto::<N>(bytes, N as int)
    }

    proof fn lemma_wire_len(&self) {
    }

    proof fn lemma_unwire_wire(&self) {
        lemma_array_upto::<N>(self@, N as int);
        assert(array_upto::<N>(self@, N as int) =~= *self);
    }

    proof fn lemma_wire_unwire(bytes: Seq<u8>) {
        lemma_array_upto::<N>(bytes, N as int);
        assert(array_upto::<N>(bytes, N as int)@ =~= bytes);
    }

    fn size() -> (n: usize) {
        N
    }

    fn to_wire(&self) -> (bytes: Vec<u8>) {
        array_to_vec(self)
    }

    fn from_wire(bytes: &[u8]) -> (r: Self) {
        let mut array = [0u8; N];
        let mut i: usize = 0;
        while i < N
            invariant
                i <= N,
                bytes@.len() == N,
                forall|j: int| 0 <= j < i ==> array@[j] == bytes@[j],
            decreases N - i,
        {
            array[i] = bytes[i];
            i = i + 1;
        }
        proof {
            lemma_array_upto::<N>(bytes@, N as int);
            let target = array_upto::<N>(bytes@, N as int);
            assert forall|j: int| 0 <= j < N implies array@[j] == target@[j] by {
                assert(array@[j] == bytes@[j]);
            }
            assert(array@ =~= target@);
            assert(array =~= target);
        }
        array
    }
}

/// Overwrites `buffer[at .. at + src.len()]` with `src`.
fn copy_into(buffer: &mut Vec<u8>, at: usize, src: &[u8])
    requires
        at + src@.len() <= old(buffer)@.len(),
    ensures
        final(buffer)@ == old(buffer)@.subrange(0, at as int) + src@ + old(buffer)@.skip(
            at + src@.len(),
        ),
        final(buffer)@.len() == old(buffer)@.len(),
{
    let mut i: usize = 0;
    let len = buffer.len();
    while i < src.len()
        invariant
            i <= src@.len(),
            at + src@.len() <= buffer@.len(),
            buffer@.len() == len,
            buffer@.len() == old(buffer)@.len(),
            forall|j: int| 0 <= j < at ==> buffer@[j] == old(buffer)@[j],
            forall|j: int| 0 <= j < i ==> buffer@[at + j] == src@[j],
            forall|j: int| at + i <= j < buffer@.len() ==> buffer@[j] == old(buffer)@[j],
        decreases src@.len() - i,
    {
        buffer[at + i] = src[i];
        i = i + 1;
    }
    proof {
        let target = old(buffer)@.subrange(0, at as int) + src@ + old(buffer)@.skip(
            at + src@.len(),
        );
        assert forall|j: int| 0 <= j < buffer@.len() implies buffer@[j] == target[j] by {
            if at <= j < at + src@.len() {
                assert(buffer@[at + (j - at)] == src@[j - at]);
            }
        }
        assert(buffer@ =~= target);
    }
}

/// The wire forms of a row of values, one after the other.
pub open spec fn wire_concat<E: Wire>(elements: Seq<E>) -> Seq<u8>
    decreases elements.len(),
{
    if elements.len() == 0 {
        Seq::empty()
    } else {
        wire_concat(elements.drop_last()) + elements.last().wire()
    }
}

/// A row of `n` values takes `n` times the bytes of one.
pub proof fn lemma_wire_concat_len<E: Wire>(elements: Seq<E>)
    ensures
        wire_concat(elements).len() == elements.len() * E::wire_size(),
    decreases elements.len(),
{
    if elements.len() > 0 {
        lemma_wire_concat_len(elements.drop_last());
        elements.last().lemma_wire_len();
        assert((elements.len() - 1) * E::wire_size() + E::wire_size() == elements.len()
            * E::wire_size()) by (nonlinear_arith);
    } else {
        assert(0 * E::wire_size() == 0) by (nonlinear_arith);
    }
}

/// What a `FlexibleStruct` holds: a header, the elements in the order they
/// were pushed, the number of elements that fit before it must grow, and the
/// bytes of the room that is left behind the elements.
pub ghost struct FlexibleView<Body, Element> {
    pub body: Body,
    pub elements: Seq<Element>,
    pub capacity: nat,
    pub spare: Seq<u8>,
}

/// A header followed by a growable array of elements, in one byte buffer.
#[derive(Debug)]
pub struct FlexibleStruct<Body, Element> {
    length: usize,
    capacity: usize,
    buffer: Vec<u8>,
    marker: PhantomData<(Body, Element)>,
}

impl<Body: Wire, Element: Wire> View for FlexibleStruct<Body, Element> {
    type V = FlexibleView<Body, Element>;

    closed spec fn view(&self) -> FlexibleView<Body, Element> {
        FlexibleView {
            body: Body::unwire(self.buffer@.subrange(0, Body::wire_size() as int)),
            elements: Seq::new(
                self.length as nat,
                |i: int| Element::unwire(self.buffer@.subrange(Self::start(i), Self::start(i + 1))),
            ),
            capacity: self.capacity as nat,
            spare: self.buffer@.skip(Self::start(self.length as int)),
        }
    }
}

impl<Body: Wire, Element: Wire> FlexibleStruct<Body, Element> {
    /// The byte at which element `i` starts.
    pub open spec fn start(i: int) -> int {
        Body::wire_size() + i * Element::wire_size()
    }

    /// The number of bytes that `count` elements take.
    pub open spec fn room(count: int) -> nat {
        (Self::start(count) - Self::start(0)) as nat
    }

    /// The bytes behind the header: those of the elements held, and the room
    /// that is left.
    pub open spec fn tail(view: FlexibleView<Body, Element>) -> Seq<u8> {
        wire_concat(view.elements) + view.spare
    }

    /// Whether a buffer for `capacity` elements can be had: the count and the
    /// number of bytes both fit the machine's word.
    pub open spec fn fits(capacity: int) -> bool {
        capacity <= usize::MAX && Self::start(capacity) <= usize::MAX
    }

    /// The buffer is as long as its capacity says, and holds no more
    /// elements than fit.
    pub closed spec fn wf(&self) -> bool {
        &&& self.length <= self.capacity
        &&& self.buffer@.len() == Self::start(self.capacity as int)
    }

    /// The bytes of a header followed by those of the elements.
    pub open spec fn wire_of(view: FlexibleView<Body, Element>) -> Seq<u8> {
        view.body.wire() + wire_concat(view.elements)
    }

    /// A record never holds more elements than its capacity says.
    pub proof fn lemma_wf_bound(&self)
        requires
            self.wf(),
        ensures
            self@.elements.len() <= self@.capacity,
    {
    }

    proof fn lemma_start(i: int, j: int)
        requires
            0 <= i <= j,
        ensures
            Self::start(i) <= Self::start(j),
            i < j ==> Self::start(i + 1) <= Self::start(j),
            Self::start(i + 1) == Self::start(i) + Element::wire_size(),
            Self::start(0) == Body::wire_size(),
    {
        let e = Element::wire_size() as int;
        assert(i * e <= j * e) by (nonlinear_arith)
            requires
                0 <= i <= j,
                0 <= e,
        ;
        assert((i + 1) * e == i * e + e) by (nonlinear_arith);
        assert(i < j ==> (i + 1) * e <= j * e) by (nonlinear_arith)
            requires
                0 <= i <= j,
                0 <= e,
        ;
        assert(0 * e == 0) by (nonlinear_arith);
    }

    proof fn lemma_room(i: int, j: int)
        requires
            0 <= i <= j,
        ensures
            Self::room(j - i) == Self::start(j) - Self::start(i),
            Self::room(0) == 0,
    {
        let e = Element::wire_size() as int;
        assert((j - i) * e == j * e - i * e) by (nonlinear_arith);
        assert(0 * e == 0) by (nonlinear_arith);
        assert(0 <= (j - i) * e) by (nonlinear_arith)
            requires
                0 <= j - i,
                0 <= e,
        ;
    }

    /// The buffer of a well-formed value holds the wire form of its view,
    /// followed by the room that is left.
    proof fn lemma_prefix(&self, n: int)
        requires
            self.wf(),
            0 <= n <= self.length,
        ensures
            self.buffer@.subrange(0, Self::start(n)) == self@.body.wire() + wire_concat(
                self@.elements.take(n),
            ),
        decreases n,
    {
        Self::lemma_start(0, n);
        Self::lemma_start(n, self.capacity as int);
        if n == 0 {
            Body::lemma_wire_unwire(self.buffer@.subrange(0, Body::wire_size() as int));
            assert(self@.elements.take(0) =~= Seq::empty());
            assert(self@.body.wire() + wire_concat(self@.elements.take(0)) =~= self@.body.wire());
        } else {
            self.lemma_prefix(n - 1);
            Self::lemma_start(n - 1, n);
            Element::lemma_wire_unwire(self.buffer@.subrange(Self::start(n - 1), Self::start(n)));
            assert(self@.elements.take(n).drop_last() =~= self@.elements.take(n - 1));
            assert(self.buffer@.subrange(0, Self::start(n)) =~= self.buffer@.subrange(
                0,
                Self::start(n - 1),
            ) + self.buffer@.subrange(Self::start(n - 1), Self::start(n)));
            assert(self@.body.wire() + (wire_concat(self@.elements.take(n - 1))
                + self@.elements.take(n).last().wire()) =~= (self@.body.wire() + wire_concat(
                self@.elements.take(n - 1),
            )) + self@.elements.take(n).last().wire());
        }
    }

    /// Behind the header, the buffer of a well-formed value holds the bytes
    /// of its elements and the room that is left.
    proof fn lemma_tail(&self)
        requires
            self.wf(),
        ensures
            self.buffer@.skip(Self::start(0)) == Self::tail(self@),
            Self::tail(self@).len() == Self::room(self.capacity as int),
    {
        let n = self.length as int;
        self.lemma_prefix(n);
        Self::lemma_start(0, n);
        Self::lemma_start(n, self.capacity as int);
        Self::lemma_room(0, self.capacity as int);
        self@.body.lemma_wire_len();
        assert(self@.elements.take(n) =~= self@.elements);
        let held = self.buffer@.subrange(0, Self::start(n));
        assert(held.skip(Body::wire_size() as int) =~= wire_concat(self@.elements));
        assert(self.buffer@.skip(Self::start(0)) =~= held.skip(Body::wire_size() as int)
            + self@.spare);
    }

    /// Number of elements held.
    pub fn length(&self) -> (n: usize)
        ensures
            n == self@.elements.len(),
    {
        self.length
    }

    /// Number of elements that fit before the buffer must grow.
    pub fn capacity(&self) -> (n: usize)
        ensures
            n == self@.capacity,
    {
        self.capacity
    }

    /// The byte at which element `index` starts, or at which the room ends
    /// where `index` is the capacity.
    fn offset(&self, index: usize) -> (at: usize)
        requires
            self.wf(),
            index <= self.capacity,
        ensures
            at == Self::start(index as int),
            at <= self.buffer@.len() <= usize::MAX,
            index < self.capacity ==> at + Element::wire_size() <= self.buffer@.len(),
    {
        proof {
            Self::lemma_start(0, index as int);
            Self::lemma_start(index as int, self.capacity as int);
            assert(Element::wire_size() * index == index * Element::wire_size())
                by (nonlinear_arith);
            assert(0 <= Element::wire_size() * index) by (nonlinear_arith);
        }
        let held = self.buffer.len();
        Body::size() + Element::size() * index
    }
}

impl<Body: Wire, Element: Wire> FlexibleStruct<Body, Element> {
    /// The number of bytes of a buffer with room for `capacity` elements.
    fn byte_size(capacity: usize) -> (size: usize)
        requires
            Self::fits(capacity as int),
        ensures
            size == Self::start(capacity as int),
    {
        let header = Body::size();
        let element = Element::size();
        proof {
            Self::lemma_start(0, capacity as int);
            assert(element * capacity == capacity * element) by (nonlinear_arith);
            assert(0 <= element * capacity) by (nonlinear_arith);
        }
        header + element * capacity
    }

    /// A zeroed buffer with room for `capacity` elements, of which `length`
    /// count as held, with `body` written at its start.
    fn zeroed(body: Body, capacity: usize, length: usize) -> (r: Self)
        requires
            Self::fits(capacity as int),
            length <= capacity,
        ensures
            r.wf(),
            r@.body == body,
            r@.capacity == capacity,
            r@.elements == Seq::new(
                length as nat,
                |i: int| Element::unwire(crate::bitfield::zeros(Element::wire_size())),
            ),
            r@.spare == crate::bitfield::zeros(Self::room(capacity - length)),
    {
        let size = Self::byte_size(capacity);
        let mut buffer: Vec<u8> = vec![0u8; size];
        let bytes = body.to_wire();
        proof {
            Self::lemma_start(0, capacity as int);
        }
        proof {
            body.lemma_wire_len();
            body.lemma_unwire_wire();
        }
        copy_into(&mut buffer, 0, bytes.as_slice());
        let r = FlexibleStruct { length, capacity, buffer, marker: PhantomData };
        proof {
            assert(r.buffer@.subrange(0, Body::wire_size() as int) =~= body.wire());
            assert forall|i: int| 0 <= i < length implies #[trigger] r@.elements[i]
                == Element::unwire(crate::bitfield::zeros(Element::wire_size())) by {
                Self::lemma_start(0, i);
                Self::lemma_start(i, capacity as int);
                assert(r.buffer@.subrange(Self::start(i), Self::start(i + 1))
                    =~= crate::bitfield::zeros(Element::wire_size()));
            }
            assert(r@.elements =~= Seq::new(
                length as nat,
                |i: int| Element::unwire(crate::bitfield::zeros(Element::wire_size())),
            ));
            Self::lemma_start(0, length as int);
            Self::lemma_start(length as int, capacity as int);
            Self::lemma_room(length as int, capacity as int);
            assert(r@.spare =~= crate::bitfield::zeros(Self::room(capacity - length)));
        }
        r
    }

    /// A buffer with room for `capacity` elements, holding `body` and no
    /// elements. The room is zeroed.
    pub fn with_body_capacity(body: Body, capacity: usize) -> (r: Self)
        requires
            Self::fits(capacity as int),
        ensures
            r.wf(),
            r@.body == body,
            r@.elements == Seq::<Element>::empty(),
            r@.capacity == capacity,
            r@.spare == crate::bitfield::zeros(Self::room(capacity as int)),
    {
        let r = Self::zeroed(body, capacity, 0);
        assert(r@.elements =~= Seq::<Element>::empty());
        r
    }

    /// The header.
    pub fn get_body(&self) -> (body: Body)
        requires
            self.wf(),
        ensures
            body == self@.body,
    {
        proof {
            Self::lemma_start(0, self.capacity as int);
        }
        Body::from_wire(vstd::slice::slice_subrange(self.buffer.as_slice(), 0, Body::size()))
    }

    /// Replaces the header and leaves the elements alone.
    pub fn set_body(&mut self, value: Body)
        requires
            old(self).wf(),
        ensures
            final(self).wf(),
            final(self)@.body == value,
            final(self)@.elements == old(self)@.elements,
            final(self)@.capacity == old(self)@.capacity,
            final(self)@.spare == old(self)@.spare,
    {
        let bytes = value.to_wire();
        proof {
            value.lemma_wire_len();
            value.lemma_unwire_wire();
            Self::lemma_start(0, self.capacity as int);
        }
        copy_into(&mut self.buffer, 0, bytes.as_slice());
        proof {
            assert(self.buffer@.subrange(0, Body::wire_size() as int) =~= value.wire());
            assert forall|i: int| 0 <= i < self.length
                implies #[trigger] self@.elements[i] == old(self)@.elements[i] by {
                Self::lemma_start(0, i);
                Self::lemma_start(i, self.capacity as int);
                assert(self.buffer@.subrange(Self::start(i), Self::start(i + 1))
                    =~= old(self).buffer@.subrange(Self::start(i), Self::start(i + 1)));
            }
            assert(self@.elements =~= old(self)@.elements);
            Self::lemma_start(0, self.length as int);
            Self::lemma_start(self.length as int, self.capacity as int);
            assert(self@.spare =~= old(self)@.spare);
        }
    }

    /// Makes room for `new_capacity` elements if there is less; what is held
    /// stays where it is, and the new room is zeroed.
    fn try_grow_to(&mut self, new_capacity: usize)
        requires
            old(self).wf(),
            Self::start(new_capacity as int) <= usize::MAX,
        ensures
            final(self).wf(),
            final(self).length == old(self).length,
            final(self).capacity == (if new_capacity <= old(self).capacity {
                old(self).capacity
            } else {
                new_capacity
            }),
            final(self).buffer@.subrange(0, old(self).buffer@.len() as int) == old(self).buffer@,
            final(self)@.body == old(self)@.body,
            final(self)@.elements == old(self)@.elements,
            final(self)@.spare == old(self)@.spare + crate::bitfield::zeros(
                Self::room(final(self).capacity - old(self).capacity),
            ),
    {
        if new_capacity <= self.capacity {
            proof {
                assert(self.buffer@.subrange(0, self.buffer@.len() as int) =~= self.buffer@);
                Self::lemma_room(self.capacity as int, self.capacity as int);
                assert(self@.spare + crate::bitfield::zeros(0) =~= self@.spare);
            }
            return ;
        }
        let held = self.buffer.len();
        let new_size = Self::byte_size(new_capacity);
        proof {
            Self::lemma_start(self.capacity as int, new_capacity as int);
        }
        self.buffer.resize(new_size, 0);
        self.capacity = new_capacity;
        proof {
            let before = old(self).buffer@;
            assert(self.buffer@.subrange(0, Body::wire_size() as int) =~= before.subrange(
                0,
                Body::wire_size() as int,
            )) by {
                Self::lemma_start(0, old(self).capacity as int);
                assert(self.buffer@.subrange(0, before.len() as int) == before);
                assert forall|j: int| 0 <= j < Body::wire_size() implies self.buffer@[j]
                    == before[j] by {
                    assert(self.buffer@.subrange(0, before.len() as int)[j] == before[j]);
                }
            }
            assert forall|i: int| 0 <= i < self.length
                implies #[trigger] self@.elements[i] == old(self)@.elements[i] by {
                Self::lemma_start(0, i);
                Self::lemma_start(i, old(self).capacity as int);
                assert forall|j: int| Self::start(i) <= j < Self::start(i + 1)
                    implies self.buffer@[j]
                    == before[j] by {
                    assert(self.buffer@.subrange(0, before.len() as int)[j] == before[j]);
                }
                assert(self.buffer@.subrange(Self::start(i), Self::start(i + 1))
                    =~= before.subrange(Self::start(i), Self::start(i + 1)));
            }
            assert(self@.elements =~= old(self)@.elements);
            Self::lemma_start(0, self.length as int);
            Self::lemma_start(self.length as int, old(self).capacity as int);
            Self::lemma_room(old(self).capacity as int, new_capacity as int);
            let grown = crate::bitfield::zeros(Self::room(new_capacity - old(self).capacity));
            assert forall|j: int| 0 <= j < self@.spare.len() implies self@.spare[j] == (old(
                self,
            )@.spare + grown)[j] by {
                let at = Self::start(self.length as int) + j;
                if at < before.len() {
                    assert(self.buffer@.subrange(0, before.len() as int)[at] == before[at]);
                }
            }
            assert(self@.spare =~= old(self)@.spare + grown);
        }
    }

    /// Appends an element. A full buffer first grows to hold twice as many
    /// elements and one more; header and elements keep their bytes, and the
    /// bytes of the new element follow them. A full buffer must be able to
    /// grow, which `try_push` tests.
    pub fn push(&mut self, value: Element)
        requires
            old(self).wf(),
            old(self)@.elements.len() == old(self)@.capacity ==> Self::fits(
                2 * old(self)@.capacity as int + 1,
            ),
        ensures
            final(self).wf(),
            final(self)@.body == old(self)@.body,
            final(self)@.elements == old(self)@.elements.push(value),
            final(self)@.capacity == (if old(self)@.elements.len() == old(self)@.capacity {
                2 * old(self)@.capacity + 1
            } else {
                old(self)@.capacity
            }),
            final(self)@.spare == (old(self)@.spare + crate::bitfield::zeros(
                Self::room(final(self)@.capacity - old(self)@.capacity),
            )).skip(Element::wire_size() as int),
            Self::wire_of(final(self)@) == Self::wire_of(old(self)@) + value.wire(),
            Self::wire_of(final(self)@).subrange(0, Body::wire_size() as int) == old(
                self,
            )@.body.wire(),
            final(self)@.popped() == (Some(value), old(self)@.elements),
    {
        let held = self.buffer.len();
        proof {
            Self::lemma_start(self.length as int, self.capacity as int);
        }
        let new_capacity = if self.length == self.capacity {
            self.capacity * 2 + 1
        } else {
            self.capacity
        };
        self.try_grow_to(new_capacity);
        let at = self.offset(self.length);
        let bytes = value.to_wire();
        let ghost before = *self;
        proof {
            value.lemma_wire_len();
            value.lemma_unwire_wire();
        }
        copy_into(&mut self.buffer, at, bytes.as_slice());
        self.length = self.length + 1;
        proof {
            let n = before.length as int;
            assert(self.buffer@.subrange(0, Body::wire_size() as int) =~= before.buffer@.subrange(
                0,
                Body::wire_size() as int,
            ));
            assert forall|i: int| 0 <= i < n + 1
                implies #[trigger] self@.elements[i] == old(self)@.elements.push(value)[i] by {
                Self::lemma_start(0, i);
                Self::lemma_start(i, n);
                if i < n {
                    assert(self.buffer@.subrange(Self::start(i), Self::start(i + 1))
                        =~= before.buffer@.subrange(Self::start(i), Self::start(i + 1)));
                    assert(before@.elements[i] == old(self)@.elements[i]);
                } else {
                    assert(self.buffer@.subrange(Self::start(i), Self::start(i + 1))
                        =~= value.wire());
                }
            }
            assert(self@.elements =~= old(self)@.elements.push(value));
            Self::lemma_start(0, n);
            Self::lemma_start(n, before.capacity as int);
            assert(self@.spare =~= before@.spare.skip(Element::wire_size() as int));
            lemma_wire_of_push(old(self)@, self@, value);
            lemma_wire_of_parts(self@);
            assert(old(self)@.elements.push(value).drop_last() =~= old(self)@.elements);
        }
    }

    /// Whether a record can take one more element: it has room for it, or it
    /// can grow to twice its capacity and one more.
    pub open spec fn can_push(view: FlexibleView<Body, Element>) -> bool {
        view.elements.len() < view.capacity || Self::fits(2 * view.capacity as int + 1)
    }

    /// Whether a buffer for twice `capacity` elements and one more can be had.
    fn can_grow(capacity: usize) -> (r: bool)
        ensures
            r == Self::fits(2 * capacity as int + 1),
    {
        if capacity > (usize::MAX - 1) / 2 {
            return false;
        }
        let count = 2 * capacity + 1;
        proof {
            Self::lemma_start(0, count as int);
            assert(Element::wire_size() * count == count * Element::wire_size())
                by (nonlinear_arith);
        }
        match Element::size().checked_mul(count) {
            Some(room) => Body::size().checked_add(room).is_some(),
            None => false,
        }
    }

    /// Appends an element where `push` can, and says whether it did: a
    /// record that is full and cannot grow stays as it is.
    pub fn try_push(&mut self, value: Element) -> (r: bool)
        requires
            old(self).wf(),
        ensures
            final(self).wf(),
            r == Self::can_push(old(self)@),
            r ==> {
                &&& final(self)@.body == old(self)@.body
                &&& final(self)@.elements == old(self)@.elements.push(value)
                &&& final(self)@.capacity == (if old(self)@.elements.len() == old(
                    self,
                )@.capacity {
                    2 * old(self)@.capacity + 1
                } else {
                    old(self)@.capacity
                })
                &&& Self::wire_of(final(self)@) == Self::wire_of(old(self)@) + value.wire()
                &&& final(self)@.popped() == (Some(value), old(self)@.elements)
            },
            !r ==> final(self)@ == old(self)@,
    {
        if self.length < self.capacity || Self::can_grow(self.capacity) {
            self.push(value);
            true
        } else {
            false
        }
    }
}

impl<Body: Wire, Element: Wire> FlexibleStruct<Body, Element> {
    /// Takes the last element off, if there is one.
    pub fn pop(&mut self) -> (r: Option<Element>)
        requires
            old(self).wf(),
        ensures
            final(self).wf(),
            final(self)@.body == old(self)@.body,
            final(self)@.capacity == old(self)@.capacity,
            (r, final(self)@.elements) == old(self)@.popped(),
            final(self)@.spare == (match r {
                Some(element) => element.wire() + old(self)@.spare,
                None => old(self)@.spare,
            }),
            Self::wire_of(old(self)@) == (match r {
                Some(element) => Self::wire_of(final(self)@) + element.wire(),
                None => Self::wire_of(final(self)@),
            }),
    {
        if self.length == 0 {
            assert(self@.elements =~= Seq::<Element>::empty());
            None
        } else {
            self.length = self.length - 1;
            let at = self.offset(self.length);
            proof {
                Self::lemma_start(self.length as int, self.capacity as int);
            }
            let value = Element::from_wire(
                vstd::slice::slice_subrange(self.buffer.as_slice(), at, at + Element::size()),
            );
            proof {
                assert(value == old(self)@.elements[self.length as int]);
                assert(self@.elements =~= old(self)@.elements.drop_last());
                let bytes = self.buffer@.subrange(at as int, at + Element::wire_size());
                Element::lemma_wire_unwire(bytes);
                assert(self@.spare =~= bytes + old(self)@.spare);
                assert(self@.elements.push(value) =~= old(self)@.elements);
                lemma_wire_of_push(self@, old(self)@, value);
            }
            Some(value)
        }
    }

    /// Drops every element; the header stays, and the bytes of the elements
    /// count as room from then on.
    pub fn clear(&mut self)
        requires
            old(self).wf(),
        ensures
            final(self).wf(),
            final(self)@.body == old(self)@.body,
            final(self)@.capacity == old(self)@.capacity,
            final(self)@.elements == Seq::<Element>::empty(),
            final(self)@.spare == Self::tail(old(self)@),
    {
        proof {
            self.lemma_tail();
        }
        self.length = 0;
        proof {
            assert(self@.elements =~= Seq::<Element>::empty());
            Self::lemma_start(0, 0);
        }
    }

    /// The number of bytes that header and elements take together.
    pub fn total_size(&self) -> (n: usize)
        requires
            self.wf(),
        ensures
            n == Body::wire_size() + Element::wire_size() * self@.elements.len(),
            n == Self::wire_of(self@).len(),
    {
        proof {
            assert(Element::wire_size() * self.length == self.length * Element::wire_size())
                by (nonlinear_arith);
            self.lemma_prefix(self.length as int);
            assert(self@.elements.take(self.length as int) =~= self@.elements);
        }
        self.offset(self.length)
    }

    /// The bytes of the header and of the elements held, as they travel.
    pub fn as_bytes(&self) -> (bytes: &[u8])
        requires
            self.wf(),
        ensures
            bytes@ == Self::wire_of(self@),
    {
        let total = self.total_size();
        proof {
            Self::lemma_start(self.length as int, self.capacity as int);
            self.lemma_prefix(self.length as int);
            assert(self@.elements.take(self.length as int) =~= self@.elements);
            assert(Element::wire_size() * self.length == self.length * Element::wire_size())
                by (nonlinear_arith);
        }
        vstd::slice::slice_subrange(self.buffer.as_slice(), 0, total)
    }

    /// The element at `index`, if there is one.
    pub fn get_element(&self, index: usize) -> (r: Option<Element>)
        requires
            self.wf(),
        ensures
            r == (if index < self@.elements.len() {
                Some(self@.elements[index as int])
            } else {
                None
            }),
    {
        if index >= self.length {
            None
        } else {
            let at = self.offset(index);
            proof {
                Self::lemma_start(index as int, self.capacity as int);
            }
            Some(
                Element::from_wire(
                    vstd::slice::slice_subrange(self.buffer.as_slice(), at, at + Element::size()),
                ),
            )
        }
    }

    /// The elements, copied out in order.
    pub fn elements_to_vec(&self) -> (r: Vec<Element>)
        requires
            self.wf(),
        ensures
            r@ == self@.elements,
    {
        let mut r: Vec<Element> = Vec::new();
        let mut i: usize = 0;
        while i < self.length
            invariant
                self.wf(),
                i <= self.length,
                r@ == self@.elements.take(i as int),
            decreases self.length - i,
        {
            let e = self.get_element(i);
            match e {
                Some(e) => {
                    r.push(e);
                },
                None => {},
            }
            assert(self@.elements.take(i as int).push(self@.elements[i as int])
                =~= self@.elements.take(i + 1));
            i = i + 1;
        }
        assert(self@.elements.take(self.length as int) =~= self@.elements);
        r
    }
}

impl<Body, Element> FlexibleView<Body, Element> {
    /// What `pop` hands out and what it leaves: the last element and the
    /// ones before it, or nothing and no change where there is no element.
    pub open spec fn popped(self) -> (Option<Element>, Seq<Element>) {
        if self.elements.len() == 0 {
            (None, self.elements)
        } else {
            (Some(self.elements.last()), self.elements.drop_last())
        }
    }
}

impl<Body: Wire, Element: Wire> FlexibleStruct<Body, Element> {
    /// A buffer over received bytes: a header and `length` elements, exactly
    /// filled. `None` where `bytes` is not of that size.
    pub fn from_bytes(bytes: Vec<u8>, length: usize) -> (r: Option<Self>)
        ensures
            r is Some <==> bytes@.len() == Self::start(length as int),
            r matches Some(s) ==> {
                &&& s.wf()
                &&& Self::wire_of(s@) == bytes@
                &&& s@.capacity == length
                &&& s@.spare == Seq::<u8>::empty()
                &&& s@.body == Body::unwire(bytes@.subrange(0, Body::wire_size() as int))
                &&& s@.elements == Seq::new(
                    length as nat,
                    |i: int| Element::unwire(bytes@.subrange(Self::start(i), Self::start(i + 1))),
                )
            },
    {
        let header = Body::size();
        let element = Element::size();
        let held = bytes.len();
        if held < header {
            proof {
                Self::lemma_start(0, length as int);
            }
            return None;
        }
        let room = held - header;
        proof {
            assert(length * Element::wire_size() == room <==> Self::start(length as int) == held);
            assert(element == 0 ==> length * Element::wire_size() == 0) by (nonlinear_arith)
                requires
                    element == Element::wire_size(),
            ;
        }
        let exact = if element == 0 {
            room == 0
        } else {
            proof {
                let e = element as int;
                let n = length as int;
                let q = room as int / e;
                let m = room as int % e;
                vstd::arithmetic::div_mod::lemma_fundamental_div_mod(room as int, e);
                vstd::arithmetic::div_mod::lemma_fundamental_div_mod_converse(
                    n * e,
                    e,
                    n,
                    0,
                );
                assert(n * e == e * n) by (nonlinear_arith);
                assert(e * q == q * e) by (nonlinear_arith);
            }
            room % element == 0 && room / element == length
        };
        if !exact {
            return None;
        }
        let s = FlexibleStruct { length, capacity: length, buffer: bytes, marker: PhantomData };
        proof {
            s.lemma_prefix(length as int);
            assert(s@.elements.take(length as int) =~= s@.elements);
            assert(s.buffer@.subrange(0, Self::start(length as int)) =~= bytes@);
            assert(s@.elements =~= Seq::new(
                length as nat,
                |i: int| Element::unwire(bytes@.subrange(Self::start(i), Self::start(i + 1))),
            ));
            assert(s@.spare =~= Seq::<u8>::empty());
        }
        Some(s)
    }

    /// A buffer holding `body` and `length` elements whose bytes are zero.
    pub fn with_body_length(body: Body, length: usize) -> (r: Self)
        requires
            Self::fits(length as int),
        ensures
            r.wf(),
            r@.body == body,
            r@.capacity == length,
            r@.elements == Seq::new(
                length as nat,
                |i: int| Element::unwire(crate::bitfield::zeros(Element::wire_size())),
            ),
            r@.spare == Seq::<u8>::empty(),
    {
        let r = Self::zeroed(body, length, length);
        proof {
            Self::lemma_room(length as int, length as int);
            assert(r@.spare =~= Seq::<u8>::empty());
        }
        r
    }

    /// A buffer of zeros that counts as a header and `length` elements.
    pub fn with_length(length: usize) -> (r: Self)
        requires
            Self::fits(length as int),
        ensures
            r.wf(),
            r@.capacity == length,
            r@.elements.len() == length,
            r@.spare == Seq::<u8>::empty(),
            Self::wire_of(r@) == crate::bitfield::zeros(Self::start(length as int) as nat),
    {
        let size = Self::byte_size(length);
        let r = FlexibleStruct {
            length,
            capacity: length,
            buffer: VecBufferWrapper::with_len(size).0,
            marker: PhantomData,
        };
        proof {
            r.lemma_prefix(length as int);
            assert(r@.elements.take(length as int) =~= r@.elements);
            assert(r.buffer@.subrange(0, Self::start(length as int)) =~= r.buffer@);
            assert(r@.spare =~= Seq::<u8>::empty());
        }
        r
    }

    /// Makes the buffer hold `length` elements, growing it if need be. No
    /// byte changes: the bytes behind the header are those of before, with
    /// zeros behind them where the buffer grew, and the first `length`
    /// elements' worth of them count as elements from then on. So the elements
    /// that were held and still are keep their values, and the others are
    /// what the room held.
    pub fn set_length(&mut self, length: usize)
        requires
            old(self).wf(),
            Self::fits(length as int),
        ensures
            final(self).wf(),
            final(self)@.body == old(self)@.body,
            final(self)@.elements.len() == length,
            final(self)@.capacity == (if length <= old(self)@.capacity {
                old(self)@.capacity
            } else {
                length as nat
            }),
            forall|i: int|
                0 <= i < length && i < old(self)@.elements.len()
                    ==> final(self)@.elements[i] == old(self)@.elements[i],
            Self::tail(final(self)@) == Self::tail(old(self)@) + crate::bitfield::zeros(
                Self::room(final(self)@.capacity - old(self)@.capacity),
            ),
    {
        proof {
            self.lemma_tail();
        }
        self.try_grow_to(length);
        let ghost before = *self;
        proof {
            before.lemma_tail();
        }
        self.length = length;
        proof {
            assert forall|i: int| 0 <= i < length && i < old(self)@.elements.len()
                implies self@.elements[i]
                == old(self)@.elements[i] by {
                assert(self@.elements[i] == before@.elements[i]);
            }
            self.lemma_tail();
            assert((wire_concat(old(self)@.elements) + old(self)@.spare) + crate::bitfield::zeros(
                Self::room(before.capacity - old(self).capacity),
            ) =~= wire_concat(old(self)@.elements) + (old(self)@.spare + crate::bitfield::zeros(
                Self::room(before.capacity - old(self).capacity),
            )));
        }
    }
}

impl<Body: Wire + Default, Element: Wire> FlexibleStruct<Body, Element> {
    /// An empty buffer around a default header.
    pub fn new() -> (r: Self)
        ensures
            r.wf(),
            call_ensures(Body::default, (), r@.body),
            r@.elements == Seq::<Element>::empty(),
            r@.capacity == 0,
            r@.spare == Seq::<u8>::empty(),
    {
        let header = Body::size();
        proof {
            Self::lemma_start(0, 0);
            Self::lemma_room(0, 0);
        }
        let r = Self::with_capacity(0);
        assert(r@.spare =~= Seq::<u8>::empty());
        r
    }

    /// A buffer with room for `capacity` elements around a default header.
    pub fn with_capacity(capacity: usize) -> (r: Self)
        requires
            Self::fits(capacity as int),
        ensures
            r.wf(),
            call_ensures(Body::default, (), r@.body),
            r@.elements == Seq::<Element>::empty(),
            r@.capacity == capacity,
            r@.spare == crate::bitfield::zeros(Self::room(capacity as int)),
    {
        Self::with_body_capacity(Body::default(), capacity)
    }
}

impl<Body: Wire, Element: Wire> FlexibleStruct<Body, Element> {
    /// A walk over the elements, first to last.
    pub fn iter_maybe_uninit(&self) -> (r: MaybeUninitIter<'_, Body, Element>)
        requires
            self.wf(),
        ensures
            r.wf(),
            r.remaining() == self@.elements,
    {
        let r = MaybeUninitIter { this: self, index: 0 };
        assert(self@.elements.skip(0) =~= self@.elements);
        r
    }

    /// A walk over copies of the elements, first to last.
    pub fn iter_clone(&self) -> (r: CloneIter<'_, Body, Element>)
        requires
            self.wf(),
        ensures
            r.wf(),
            r.remaining() == self@.elements,
    {
        CloneIter { maybe_uninit_iter: self.iter_maybe_uninit() }
    }
}

impl<Body: Wire, Element: Wire> Clone for FlexibleStruct<Body, Element> {
    /// A copy with the same header and elements, and room for no more than
    /// it holds.
    fn clone(&self) -> (r: Self)
        ensures
            self.wf() ==> r.wf() && r@.body == self@.body && r@.elements == self@.elements
                && r@.capacity == self@.elements.len() && r@.spare == Seq::<u8>::empty(),
    {
        let taken = match Element::size().checked_mul(self.length) {
            Some(room) => Body::size().checked_add(room),
            None => None,
        };
        let mut buffer = self.buffer.clone();
        match taken {
            Some(total) => {
                buffer.truncate(total);
                let r = FlexibleStruct {
                    length: self.length,
                    capacity: self.length,
                    buffer,
                    marker: PhantomData,
                };
                proof {
                    if self.wf() {
                        Self::lemma_start(0, self.length as int);
                        Self::lemma_start(self.length as int, self.capacity as int);
                        assert(Element::wire_size() * self.length == self.length
                            * Element::wire_size()) by (nonlinear_arith);
                        assert(buffer@ =~= self.buffer@.subrange(0, total as int));
                        assert(r.buffer@.subrange(0, Body::wire_size() as int)
                            =~= self.buffer@.subrange(0, Body::wire_size() as int));
                        assert forall|i: int| 0 <= i < self.length implies #[trigger] r@.elements[i]
                            == self@.elements[i] by {
                            Self::lemma_start(0, i);
                            Self::lemma_start(i, self.length as int);
                            assert(r.buffer@.subrange(Self::start(i), Self::start(i + 1))
                                =~= self.buffer@.subrange(Self::start(i), Self::start(i + 1)));
                        }
                        assert(r@.elements =~= self@.elements);
                        assert(r@.spare =~= Seq::<u8>::empty());
                    }
                }
                r
            },
            None => {
                proof {
                    if self.wf() {
                        Self::lemma_start(0, self.length as int);
                        Self::lemma_start(self.length as int, self.capacity as int);
                        assert(Element::wire_size() * self.length == self.length
                            * Element::wire_size()) by (nonlinear_arith);
                        let held = self.buffer@.len();
                        assert(held <= usize::MAX);
                    }
                }
                FlexibleStruct {
                    length: self.length,
                    capacity: self.capacity,
                    buffer,
                    marker: PhantomData,
                }
            },
        }
    }
}

impl<Body: Wire + Default, Element: Wire> Default for FlexibleStruct<Body, Element> {
    /// An empty buffer around a default header.
    fn default() -> (r: Self)
        ensures
            r.wf(),
            call_ensures(Body::default, (), r@.body),
            r@.elements == Seq::<Element>::empty(),
            r@.capacity == 0,
            r@.spare == Seq::<u8>::empty(),
    {
        Self::new()
    }
}

/// A walk over the elements of a `FlexibleStruct`, decoding each from the
/// bytes the buffer holds for it.
#[derive(Debug)]
pub struct MaybeUninitIter<'a, B, E> {
    this: &'a FlexibleStruct<B, E>,
    index: usize,
}

impl<'a, B: Wire, E: Wire> MaybeUninitIter<'a, B, E> {
    /// The walk is over a well-formed buffer and has not run past its end.
    pub closed spec fn wf(&self) -> bool {
        self.this.wf() && self.index <= self.this.length
    }

    /// The elements still to come.
    pub closed spec fn remaining(&self) -> Seq<E> {
        self.this@.elements.skip(self.index as int)
    }

    /// The next element, or `None` when the walk is over.
    pub fn next(&mut self) -> (r: Option<E>)
        requires
            old(self).wf(),
        ensures
            final(self).wf(),
            old(self).remaining().len() == 0
                ==> r is None && final(self).remaining() == old(self).remaining(),
            old(self).remaining().len() > 0
                ==> r == Some(old(self).remaining()[0])
                && final(self).remaining() == old(self).remaining().skip(1),
    {
        if self.index == self.this.length {
            None
        } else {
            let r = self.this.get_element(self.index);
            self.index = self.index + 1;
            proof {
                assert(self.remaining() =~= old(self).remaining().skip(1));
            }
            r
        }
    }
}

/// A walk over copies of the elements of a `FlexibleStruct`.
#[derive(Debug)]
pub struct CloneIter<'a, B, E> {
    maybe_uninit_iter: MaybeUninitIter<'a, B, E>,
}

impl<'a, B: Wire, E: Wire> CloneIter<'a, B, E> {
    /// The walk is over a well-formed buffer and has not run past its end.
    pub closed spec fn wf(&self) -> bool {
        self.maybe_uninit_iter.wf()
    }

    /// The elements still to come.
    pub closed spec fn remaining(&self) -> Seq<E> {
        self.maybe_uninit_iter.remaining()
    }

    /// The next element, or `None` when the walk is over.
    pub fn next(&mut self) -> (r: Option<E>)
        requires
            old(self).wf(),
        ensures
            final(self).wf(),
            old(self).remaining().len() == 0
                ==> r is None && final(self).remaining() == old(self).remaining(),
            old(self).remaining().len() > 0
                ==> r == Some(old(self).remaining()[0])
                && final(self).remaining() == old(self).remaining().skip(1),
    {
        self.maybe_uninit_iter.next()
    }
}

/// A byte buffer handed to the transport as the payload of a transfer.
#[derive(Debug, Default)]
pub struct VecBufferWrapper(pub Vec<u8>);

impl VecBufferWrapper {
    /// A buffer of `len` zero bytes.
    pub fn with_len(len: usize) -> (r: Self)
        ensures
            r.0@ == crate::bitfield::zeros(len as nat),
    {
        let buffer: Vec<u8> = vec![0u8; len];
        assert(buffer@ =~= crate::bitfield::zeros(len as nat));
        VecBufferWrapper(buffer)
    }
}

/// The bytes of a buffer are the header's bytes, then the elements' bytes.
pub proof fn lemma_wire_of_parts<Body: Wire, Element: Wire>(view: FlexibleView<Body, Element>)
    ensures
        FlexibleStruct::<Body, Element>::wire_of(view).len() == Body::wire_size()
            + view.elements.len() * Element::wire_size(),
        FlexibleStruct::<Body, Element>::wire_of(view).subrange(0, Body::wire_size() as int)
            == view.body.wire(),
        FlexibleStruct::<Body, Element>::wire_of(view).skip(Body::wire_size() as int)
            == wire_concat(view.elements),
{
    view.body.lemma_wire_len();
    lemma_wire_concat_len(view.elements);
    let w = FlexibleStruct::<Body, Element>::wire_of(view);
    assert(w.subrange(0, Body::wire_size() as int) =~= view.body.wire());
    assert(w.skip(Body::wire_size() as int) =~= wire_concat(view.elements));
}

/// Pushing an element appends its bytes and changes none of those before:
/// the header's bytes and the bytes of the elements pushed earlier stay, in
/// the order of the pushes.
pub proof fn lemma_wire_of_push<Body: Wire, Element: Wire>(
    view: FlexibleView<Body, Element>,
    after: FlexibleView<Body, Element>,
    value: Element,
)
    requires
        after.body == view.body,
        after.elements == view.elements.push(value),
    ensures
        FlexibleStruct::<Body, Element>::wire_of(after) == FlexibleStruct::<
            Body,
            Element,
        >::wire_of(view) + value.wire(),
{
    assert(view.elements.push(value).drop_last() =~= view.elements);
    assert(view.body.wire() + (wire_concat(view.elements) + value.wire()) =~= (view.body.wire()
        + wire_concat(view.elements)) + value.wire());
}

/// The bytes of two rows, one after the other, are the bytes of the rows put
/// together.
pub proof fn lemma_wire_concat_add<E: Wire>(first: Seq<E>, second: Seq<E>)
    ensures
        wire_concat(first + second) == wire_concat(first) + wire_concat(second),
    decreases second.len(),
{
    if second.len() == 0 {
        assert(first + second =~= first);
        assert(wire_concat(first) + wire_concat(second) =~= wire_concat(first));
    } else {
        lemma_wire_concat_add(first, second.drop_last());
        assert((first + second).drop_last() =~= first + second.drop_last());
        assert((first + second).last() == second.last());
        assert(wire_concat(first) + (wire_concat(second.drop_last()) + second.last().wire())
            =~= (wire_concat(first) + wire_concat(second.drop_last())) + second.last().wire());
    }
}

/// Whatever was pushed, and however often the buffer grew for it: after a
/// row of pushes the bytes of a buffer start with the bytes of its header
/// as it was last set, go on with the bytes of the elements held before, and
/// end with the bytes of the pushed elements in the order of the pushes.
pub proof fn lemma_wire_of_pushes<Body: Wire, Element: Wire>(
    view: FlexibleView<Body, Element>,
    after: FlexibleView<Body, Element>,
    pushed: Seq<Element>,
)
    requires
        after.body == view.body,
        after.elements == view.elements + pushed,
    ensures
        FlexibleStruct::<Body, Element>::wire_of(after) == FlexibleStruct::<
            Body,
            Element,
        >::wire_of(view) + wire_concat(pushed),
        FlexibleStruct::<Body, Element>::wire_of(after).subrange(0, Body::wire_size() as int)
            == view.body.wire(),
        FlexibleStruct::<Body, Element>::wire_of(after).skip(Body::wire_size() as int)
            == wire_concat(view.elements) + wire_concat(pushed),
{
    lemma_wire_concat_add(view.elements, pushed);
    lemma_wire_of_parts(after);
    assert(view.body.wire() + (wire_concat(view.elements) + wire_concat(pushed)) =~= (
    view.body.wire() + wire_concat(view.elements)) + wire_concat(pushed));
}

/// Element `i` of a row sits at byte `i * wire_size()` of the row's bytes.
pub proof fn lemma_wire_concat_index<E: Wire>(elements: Seq<E>, i: int)
    requires
        0 <= i < elements.len(),
    ensures
        (i + 1) * E::wire_size() <= wire_concat(elements).len(),
        wire_concat(elements).subrange(i * E::wire_size(), (i + 1) * E::wire_size())
            == elements[i].wire(),
    decreases elements.len(),
{
    let e = E::wire_size() as int;
    let n = elements.len() as int;
    lemma_wire_concat_len(elements);
    lemma_wire_concat_len(elements.drop_last());
    elements.last().lemma_wire_len();
    assert((i + 1) * e <= n * e) by (nonlinear_arith)
        requires
            0 <= i < n,
            0 <= e,
    ;
    assert((i + 1) * e == i * e + e) by (nonlinear_arith);
    assert((n - 1) * e + e == n * e) by (nonlinear_arith);
    assert(0 <= i * e) by (nonlinear_arith)
        requires
            0 <= i,
            0 <= e,
    ;
    if i == n - 1 {
        assert(wire_concat(elements).subrange(i * e, (i + 1) * e) =~= elements[i].wire());
    } else {
        lemma_wire_concat_index(elements.drop_last(), i);
        assert((i + 1) * e <= (n - 1) * e) by (nonlinear_arith)
            requires
                0 <= i < n - 1,
                0 <= e,
        ;
        assert(wire_concat(elements).subrange(i * e, (i + 1) * e) =~= wire_concat(
            elements.drop_last(),
        ).subrange(i * e, (i + 1) * e));
    }
}

/// Popping after a push hands back what was pushed and leaves the record
/// as it was before the push: as many elements, the same ones, and the same
/// bytes of header and elements. Only the capacity may have grown.
pub proof fn lemma_push_pop<Body: Wire, Element: Wire>(
    before: FlexibleView<Body, Element>,
    pushed: FlexibleView<Body, Element>,
    after: FlexibleView<Body, Element>,
    value: Element,
    popped: Option<Element>,
)
    requires
        pushed.body == before.body,
        pushed.elements == before.elements.push(value),
        after.body == pushed.body,
        (popped, after.elements) == pushed.popped(),
    ensures
        popped == Some(value),
        after.elements == before.elements,
        after.elements.len() == before.elements.len(),
        FlexibleStruct::<Body, Element>::wire_of(after) == FlexibleStruct::<
            Body,
            Element,
        >::wire_of(before),
        FlexibleStruct::<Body, Element>::wire_of(after).len() == FlexibleStruct::<
            Body,
            Element,
        >::wire_of(before).len(),
{
    assert(before.elements.push(value).drop_last() =~= before.elements);
}

} // verus!
