//! What every command shares: the transfer contract, the bound check that
//! precedes every packing of a caller's value into a narrower field, and the
//! splitting of received bytes into fixed-size pieces.

pub mod ata;
pub mod background_control;
pub mod format_unit;
pub mod get_lba_status;
pub mod inquiry;
pub mod log_select;
pub mod log_sense;
pub mod mode_select;
pub mod mode_sense;
pub mod persistent_reserve_in;
pub mod persistent_reserve_out;
pub mod read;
pub mod read_buffer;
pub mod read_capacity;
pub mod read_defect_data;
pub mod reassign_blocks;
pub mod receive_diagnostic_results;
pub mod report_identifying_information;
pub mod report_luns;
pub mod report_supported_operation_codes;
pub mod report_supported_task_management_functions;
pub mod report_timestamp;
pub mod request_sense;
pub mod sanitize;
pub mod security_protocol_in;
pub mod security_protocol_out;
pub mod send_diagnostic;
pub mod sense;
pub mod set_identifying_information;
pub mod set_timestamp;
pub mod start_stop_unit;
pub mod stream_control;
pub mod synchronize_cache;
pub mod test_unit_ready;
pub mod unmap;
pub mod write_and_verify;
pub mod write_atomic;
pub mod write_buffer;
pub mod write_long;
pub mod write_same;
pub mod write_stream;

use vstd::prelude::*;
use vstd::arithmetic::power2::pow2;
use crate::data_direction::DataDirection;
use crate::error::{BoundCheckError, Error};
use crate::result_data::ResultData;

verus! {

/// What a command hands to the transport, and what it makes of the answer.
///
/// The transport takes the descriptor block, the direction, the payload
/// buffer and the number of bytes to move from here, performs the platform
/// call, and gives the outcome to `process_result`. It knows nothing else of
/// the command.
pub trait Command {
    /// What the command returns to its caller.
    type ReturnType;

    /// The direction of the data phase.
    spec fn direction_spec(&self) -> DataDirection;

    /// The bytes of the packed command descriptor block.
    spec fn command_spec(&self) -> Seq<u8>;

    /// The bytes of the payload buffer before the call.
    spec fn data_spec(&self) -> Seq<u8>;

    /// The number of bytes the transport is to move.
    spec fn data_size_spec(&self) -> u32;

    /// The direction of the data phase.
    fn direction(&self) -> (r: DataDirection)
        ensures
            r == self.direction_spec(),
    ;

    /// The packed command descriptor block.
    fn command(&self) -> (r: Vec<u8>)
        ensures
            r@ == self.command_spec(),
    ;

    /// The payload buffer: what is sent to the device, or the room for what
    /// it sends back.
    fn data(&self) -> (r: Vec<u8>)
        ensures
            r@ == self.data_spec(),
    ;

    /// The number of bytes the transport is to move. It need not be the
    /// length of the payload buffer.
    fn data_size(&self) -> (r: u32)
        ensures
            r == self.data_size_spec(),
    ;

    /// Turns the outcome of the transfer into what the command returns.
    fn process_result(&self, result: ResultData) -> Self::ReturnType;
}

/// The largest value that a field of `bits` bits can hold.
pub open spec fn max_value(bits: nat) -> nat {
    (pow2(bits) - 1) as nat
}

/// Whether `value` can be stored in a field of `bits` bits without loss.
pub open spec fn fits(value: nat, bits: nat) -> bool {
    value < pow2(bits)
}

/// Checks that `value` fits a field of `bit_count` bits. It succeeds exactly
/// when `value < 2^bit_count`; otherwise the error names the field and
/// carries the largest value the field can hold, `2^bit_count - 1`, and the
/// value that was offered.
pub fn bitfield_bound_check(value: u64, bit_count: u32, name: &'static str) -> (r: Result<
    (),
    Error,
>)
    ensures
        r is Ok <==> fits(value as nat, bit_count as nat),
        r is Err ==> r == Err::<(), Error>(
            Error::ArgumentOutOfBounds(
                BoundCheckError { name, max: max_value(bit_count as nat) as u64, given: value },
            ),
        ),
        r is Err ==> max_value(bit_count as nat) < value,
{
    proof {
        vstd::arithmetic::power2::lemma2_to64();
    }
    if bit_count >= 64 {
        proof {
            if bit_count > 64 {
                vstd::arithmetic::power2::lemma_pow2_strictly_increases(64, bit_count as nat);
            }
        }
        Ok(())
    } else {
        let limit: u64 = 1u64 << (bit_count as u64);
        proof {
            vstd::arithmetic::power2::lemma_pow2_strictly_increases(bit_count as nat, 64);
            vstd::arithmetic::power2::lemma_pow2_pos(bit_count as nat);
            vstd::bits::lemma_u64_shl_is_mul(1, bit_count as u64);
            assert(limit == pow2(bit_count as nat));
        }
        if value >= limit {
            Err(Error::ArgumentOutOfBounds(BoundCheckError { name, max: limit - 1, given: value }))
        } else {
            Ok(())
        }
    }
}

/// One bound check: a value, the width of the field it is meant for, and
/// the name of that field.
#[derive(Clone, Copy, Debug)]
pub struct Bound {
    pub value: u64,
    pub bits: u32,
    pub name: &'static str,
}

impl Bound {
    /// The error that a failed check reports.
    pub open spec fn error(self) -> Error {
        Error::ArgumentOutOfBounds(
            BoundCheckError {
                name: self.name,
                max: max_value(self.bits as nat) as u64,
                given: self.value,
            },
        )
    }

    /// Whether the value fits the field.
    pub open spec fn holds(self) -> bool {
        fits(self.value as nat, self.bits as nat)
    }
}

/// The error of the first check, from check `from` on, that fails; `None`
/// where all of them hold.
pub open spec fn first_failure_from(bounds: Seq<Bound>, from: int) -> Option<Error>
    decreases bounds.len() - from,
{
    if from < 0 || from >= bounds.len() {
        None
    } else if !bounds[from].holds() {
        Some(bounds[from].error())
    } else {
        first_failure_from(bounds, from + 1)
    }
}

/// The error of the first check in the list that fails; `None` where all of
/// them hold.
pub open spec fn first_failure(bounds: Seq<Bound>) -> Option<Error> {
    first_failure_from(bounds, 0)
}

/// Where no check of a list fails, each of them holds.
pub proof fn lemma_first_failure_none(bounds: Seq<Bound>, i: int)
    requires
        first_failure(bounds) is None,
        0 <= i < bounds.len(),
    ensures
        bounds[i].holds(),
{
    lemma_first_failure_from_none(bounds, 0, i);
}

proof fn lemma_first_failure_from_none(bounds: Seq<Bound>, from: int, i: int)
    requires
        first_failure_from(bounds, from) is None,
        0 <= from <= i < bounds.len(),
    ensures
        bounds[i].holds(),
    decreases i - from,
{
    if from < i {
        lemma_first_failure_from_none(bounds, from + 1, i);
    }
}

/// Makes the checks of a list in their order and stops at the first that
/// fails.
pub fn check_bounds(bounds: &[Bound]) -> (r: Result<(), Error>)
    ensures
        match first_failure(bounds@) {
            Some(e) => r == Err::<(), Error>(e),
            None => r is Ok,
        },
{
    let mut i: usize = 0;
    while i < bounds.len()
        invariant
            i <= bounds@.len(),
            first_failure(bounds@) == first_failure_from(bounds@, i as int),
        decreases bounds@.len() - i,
    {
        let b = bounds[i];
        match bitfield_bound_check(b.value, b.bits, b.name) {
            Err(e) => {
                return Err(e);
            },
            Ok(()) => {},
        }
        i = i + 1;
    }
    Ok(())
}

/// Appends `bytes` to `out`.
pub fn append(out: &mut Vec<u8>, bytes: &[u8])
    ensures
        final(out)@ == old(out)@ + bytes@,
{
    out.extend_from_slice(bytes);
    assert(out@ =~= old(out)@ + bytes@);
}

/// A copy of `bytes`.
pub fn duplicate(bytes: &[u8]) -> (r: Vec<u8>)
    ensures
        r@ == bytes@,
{
    vstd::slice::slice_to_vec(bytes)
}

/// A payload buffer of `len` zero bytes.
pub fn zeroed(len: usize) -> (r: Vec<u8>)
    ensures
        r@ == crate::bitfield::zeros(len as nat),
{
    crate::data_wrapper::VecBufferWrapper::with_len(len).0
}

/// The buffer that a transfer works on: `data`, filled up with zeros to
/// `size` bytes where it is shorter.
pub open spec fn payload_spec(data: Seq<u8>, size: nat) -> Seq<u8> {
    if data.len() < size {
        data + crate::bitfield::zeros((size - data.len()) as nat)
    } else {
        data
    }
}

/// The buffer that the transport hands to the platform for `command`: the
/// command's payload, filled up with zeros where the command asks for more
/// bytes to be moved than the payload has. The platform moves as many bytes
/// as the command asks for, so the buffer holds at least as many.
pub fn payload<T: Command>(command: &T) -> (r: Vec<u8>)
    ensures
        r@ == payload_spec(command.data_spec(), command.data_size_spec() as nat),
        r@.len() >= command.data_size_spec(),
        r@.len() >= command.data_spec().len(),
        r@.take(command.data_spec().len() as int) == command.data_spec(),
        forall|i: int| command.data_spec().len() <= i < r@.len() ==> r@[i] == 0u8,
{
    let mut data = command.data();
    let size = command.data_size() as usize;
    if data.len() < size {
        data.resize(size, 0);
    }
    assert(data@ =~= payload_spec(command.data_spec(), command.data_size_spec() as nat));
    assert(data@.take(command.data_spec().len() as int) =~= command.data_spec());
    data
}

/// What is left of `bytes` after its first `n` bytes; nothing where there
/// are no more than `n`.
pub open spec fn after(bytes: Seq<u8>, n: nat) -> Seq<u8> {
    if n <= bytes.len() {
        bytes.skip(n as int)
    } else {
        Seq::empty()
    }
}

/// Takes the first `N` bytes of `bytes` as an array and hands back what is
/// left. Where fewer than `N` bytes are there, the array is filled up with
/// zeros and nothing is left.
pub fn get_array<const N: usize>(bytes: &[u8]) -> (r: ([u8; N], &[u8]))
    ensures
        r.0@ == chunk(bytes@, N as nat, 0),
        r.1@ == after(bytes@, N as nat),
{
    let mut array: [u8; N] = [0u8; N];
    let min_len = if N <= bytes.len() { N } else { bytes.len() };
    let mut i: usize = 0;
    while i < min_len
        invariant
            i <= min_len,
            min_len <= N,
            min_len <= bytes@.len(),
            forall|j: int| 0 <= j < i ==> array@[j] == bytes@[j],
            forall|j: int| i <= j < N ==> array@[j] == 0u8,
        decreases min_len - i,
    {
        array[i] = bytes[i];
        i = i + 1;
    }
    let rest = vstd::slice::slice_subrange(bytes, min_len, bytes.len());
    assert(array@ =~= chunk(bytes@, N as nat, 0));
    assert(rest@ =~= after(bytes@, N as nat));
    (array, rest)
}

/// Piece `i` of `bytes` cut into pieces of `size` bytes, filled up with
/// zeros where the bytes run out.
pub open spec fn chunk(bytes: Seq<u8>, size: nat, i: int) -> Seq<u8> {
    Seq::new(size, |k: int| if i * size + k < bytes.len() { bytes[i * size + k] } else { 0u8 })
}

/// The number of pieces of `size` bytes that `len` bytes make, a last
/// shorter piece counted.
pub open spec fn chunk_count(len: nat, size: nat) -> nat {
    if size == 0 {
        0
    } else {
        ((len + size - 1) / size as int) as nat
    }
}

/// Every piece that is counted starts inside the bytes.
pub proof fn lemma_chunk_starts(len: nat, size: nat, i: int)
    requires
        0 <= i < chunk_count(len, size),
    ensures
        0 <= i * size < len,
{
    let n = size as int;
    let l = len as int;
    let r = chunk_count(len, size) as int;
    vstd::arithmetic::div_mod::lemma_fundamental_div_mod(l + n - 1, n);
    vstd::arithmetic::div_mod::lemma_mod_bound(l + n - 1, n);
    assert(n * r == r * n) by (nonlinear_arith);
    assert(i * n <= (r - 1) * n) by (nonlinear_arith)
        requires
            0 <= i <= r - 1,
            0 < n,
    ;
    assert((r - 1) * n == r * n - n) by (nonlinear_arith);
    assert(0 <= i * n) by (nonlinear_arith)
        requires
            0 <= i,
            0 < n,
    ;
}

/// The number of pieces of `N` bytes that `bytes` make, a last shorter piece
/// counted.
pub fn count_chunks<const N: usize>(bytes: &[u8]) -> (r: usize)
    requires
        N > 0,
    ensures
        r == chunk_count(bytes@.len(), N as nat),
{
    let len = bytes.len();
    let whole = len / N;
    proof {
        vstd::arithmetic::div_mod::lemma_fundamental_div_mod(len as int, N as int);
        assert(whole <= N * whole) by (nonlinear_arith)
            requires
                N >= 1,
                whole >= 0,
        ;
    }
    let r = if len % N == 0 {
        whole
    } else {
        whole + 1
    };
    proof {
        let n = N as int;
        let l = len as int;
        vstd::arithmetic::div_mod::lemma_fundamental_div_mod(l, n);
        let q = l / n;
        let m = l % n;
        assert(n * q == q * n) by (nonlinear_arith);
        if m == 0 {
            vstd::arithmetic::div_mod::lemma_fundamental_div_mod_converse(
                l + n - 1,
                n,
                q,
                n - 1,
            );
        } else {
            assert(n * (q + 1) == n * q + n) by (nonlinear_arith);
            vstd::arithmetic::div_mod::lemma_fundamental_div_mod_converse(
                l + n - 1,
                n,
                q + 1,
                m - 1,
            );
        }
    }
    r
}

/// Piece `i` of `bytes` cut into pieces of `N` bytes.
pub fn get_chunk<const N: usize>(bytes: &[u8], i: usize) -> (r: [u8; N])
    requires
        i < chunk_count(bytes@.len(), N as nat),
    ensures
        r@ == chunk(bytes@, N as nat, i as int),
{
    let len = bytes.len();
    proof {
        lemma_chunk_starts(bytes@.len(), N as nat, i as int);
    }
    let start = i * N;
    let (array, rest) = get_array::<N>(vstd::slice::slice_subrange(bytes, start, len));
    assert(array@ =~= chunk(bytes@, N as nat, i as int));
    array
}

/// Five hundred and twelve times `n`, as far as thirty-two bits hold it.
pub open spec fn blocks_to_bytes_spec(n: u32) -> u32 {
    if n * 512 > u32::MAX {
        u32::MAX
    } else {
        (n * 512) as u32
    }
}

/// Five hundred and twelve times `n`, as far as thirty-two bits hold it.
pub fn blocks_to_bytes(n: u32) -> (r: u32)
    ensures
        r == blocks_to_bytes_spec(n),
{
    if n > u32::MAX / 512 {
        u32::MAX
    } else {
        n * 512
    }
}

/// Five hundred and twelve times `n`, as far as a machine word holds it.
pub open spec fn blocks_to_len_spec(n: u32) -> usize {
    if n * 512 > usize::MAX {
        usize::MAX
    } else {
        (n * 512) as usize
    }
}

/// Five hundred and twelve times `n`, as far as a machine word holds it.
pub fn blocks_to_len(n: u32) -> (r: usize)
    ensures
        r == blocks_to_len_spec(n),
{
    if n as usize > usize::MAX / 512 {
        usize::MAX
    } else {
        n as usize * 512
    }
}

/// The numbers that the pieces of eight bytes of `bytes` spell, big-endian,
/// a last shorter piece filled up with zeros.
pub open spec fn be_u64_chunks_spec(bytes: Seq<u8>) -> Seq<u64> {
    Seq::new(
        chunk_count(bytes.len(), 8),
        |i: int| crate::bitfield::field_value(chunk(bytes, 8, i), 0, 64) as u64,
    )
}

/// Reads `bytes` as a row of big-endian numbers of eight bytes each.
pub fn be_u64_chunks(bytes: &[u8]) -> (r: Vec<u64>)
    ensures
        r@ == be_u64_chunks_spec(bytes@),
{
    let count = count_chunks::<8>(bytes);
    let mut r: Vec<u64> = Vec::new();
    let mut i: usize = 0;
    while i < count
        invariant
            i <= count,
            count == chunk_count(bytes@.len(), 8),
            r@ == be_u64_chunks_spec(bytes@).take(i as int),
        decreases count - i,
    {
        let piece = get_chunk::<8>(bytes, i);
        r.push(crate::bitfield::get_field(piece.as_slice(), 0, 64));
        assert(r@ =~= be_u64_chunks_spec(bytes@).take(i + 1));
        i = i + 1;
    }
    assert(r@ =~= be_u64_chunks_spec(bytes@));
    r
}

/// Whether a value fits a field of `bits` bits.
pub fn fits_bits(value: u64, bits: u32) -> (r: bool)
    ensures
        r == fits(value as nat, bits as nat),
{
    bitfield_bound_check(value, bits, "").is_ok()
}

/// What `transfer_check` finds wrong with data of `len` bytes that is to be
/// written as blocks of `block_size` bytes counted in a field of `bits`
/// bits: a length that is no whole number of blocks; else more blocks than
/// the field can count, for which the error gives the longest data that the
/// field can count, `max_value(bits)` blocks, and the length given.
pub open spec fn transfer_check_spec(len: nat, block_size: u32, bits: u32) -> Option<Error> {
    if len % (block_size as nat) != 0 {
        Some(
            Error::BadArgumentValue {
                message: "parameter length should be a multiple of logical block size, which is",
                value: block_size as u64,
            },
        )
    } else if !fits(len / (block_size as nat), bits as nat) {
        Some(
            Error::ArgumentOutOfBounds(
                BoundCheckError {
                    name: "parameter length",
                    max: (max_value(bits as nat) * block_size) as u64,
                    given: len as u64,
                },
            ),
        )
    } else {
        None
    }
}

/// Checks that data of `len` bytes is a whole number of blocks of
/// `block_size` bytes, and that a field of `bits` bits can count them.
pub fn transfer_check(len: usize, block_size: u32, bits: u32) -> (r: Result<(), Error>)
    requires
        block_size != 0,
        bits <= 32,
    ensures
        match transfer_check_spec(len as nat, block_size, bits) {
            Some(e) => r == Err::<(), Error>(e),
            None => r is Ok,
        },
{
    let len = len as u64;
    let size = block_size as u64;
    if len % size != 0 {
        return Err(
            Error::BadArgumentValue {
                message: "parameter length should be a multiple of logical block size, which is",
                value: size,
            },
        );
    }
    if !fits_bits(len / size, bits) {
        proof {
            vstd::arithmetic::power2::lemma2_to64();
            vstd::arithmetic::power2::lemma_pow2_pos(bits as nat);
            if bits < 32 {
                vstd::arithmetic::power2::lemma_pow2_strictly_increases(bits as nat, 32);
            }
            vstd::bits::lemma_u64_shl_is_mul(1, bits as u64);
            assert((pow2(bits as nat) - 1) * size <= 0x1_0000_0000 * 0xffff_ffff)
                by (nonlinear_arith)
                requires
                    0 < pow2(bits as nat) <= 0x1_0000_0000,
                    size <= 0xffff_ffff,
            ;
        }
        let limit: u64 = 1u64 << (bits as u64);
        return Err(
            Error::ArgumentOutOfBounds(
                BoundCheckError { name: "parameter length", max: (limit - 1) * size, given: len },
            ),
        );
    }
    Ok(())
}

} // verus!
