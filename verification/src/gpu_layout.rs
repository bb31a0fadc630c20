//! Sizes of the buffers exchanged with the GPU, the number of workgroups a
//! pass dispatches, and the byte views of the data that travels.

use vstd::prelude::*;

verus! {

/// Size in bytes of one element of a GPU buffer (`u32` or `f32`).
pub const WORD_BYTES: usize = 4;

/// Number of bytes taken by `len` four-byte elements.
pub open spec fn word_bytes(len: nat) -> nat {
    4 * len
}

/// Size of a buffer that holds `len` four-byte elements, as a buffer address.
pub fn word_buffer_size(len: usize) -> (size: u64)
    requires
        word_bytes(len as nat) <= usize::MAX,
    ensures
        size == word_bytes(len as nat),
{
    (WORD_BYTES * len) as u64
}

/// Number of workgroups for a pass that gives each element its own
/// workgroup: the element count, narrowed to `u32` as a cast does.
pub fn workgroup_count(len: usize) -> (groups: u32)
    ensures
        groups == len as u32,
{
    len as u32
}

/// The four bytes of the `i`-th four-byte word of `bytes`.
pub open spec fn word_chunk(bytes: Seq<u8>, i: int) -> Seq<u8> {
    bytes.subrange(4 * i, 4 * i + 4)
}

/// The unsigned value of four bytes, most significant byte first when
/// `big_endian`, least significant byte first otherwise.
pub open spec fn word_value(big_endian: bool, b: Seq<u8>) -> int {
    if big_endian {
        b[0] * 16777216 + b[1] * 65536 + b[2] * 256 + b[3]
    } else {
        b[3] * 16777216 + b[2] * 65536 + b[1] * 256 + b[0]
    }
}

/// Each whole four-byte word of `bytes`, read in the given byte order, is
/// the value at the same position of `values`.
pub open spec fn words_read_as(big_endian: bool, bytes: Seq<u8>, values: Seq<u32>) -> bool {
    forall|i: int|
        0 <= i < bytes.len() / 4 ==> #[trigger] values[i] == word_value(big_endian, word_chunk(bytes, i))
}

/// `bytes` is exactly `values`, four bytes per value in the given byte order.
pub open spec fn encodes(big_endian: bool, values: Seq<u32>, bytes: Seq<u8>) -> bool {
    &&& bytes.len() == word_bytes(values.len())
    &&& words_read_as(big_endian, bytes, values)
}

/// Calls `bytemuck::cast_slice::<u32, u8>`. For this pair of types the
/// crate's checks (alignment of the target, whole number of target elements)
/// always pass, so the call does not panic; the result views the memory of
/// the values, four bytes each. Their order within a value is the machine's
/// byte order, big- or little-endian: the clause says that one of the two
/// holds for all values, not which.
#[verifier::external_body]
fn cast_u32s_to_bytes(values: &[u32]) -> (bytes: &[u8])
    ensures
        bytes@.len() == 4 * values@.len(),
        exists|big_endian: bool| words_read_as(big_endian, bytes@, values@),
{
    bytemuck::cast_slice(values)
}

/// Calls `bytemuck::pod_collect_to_vec::<u8, u32>`. Its source allocates
/// `len / 4` values, one more when `len` is not a multiple of four, zeroes
/// them and copies the bytes in, so each whole four-byte word becomes one
/// value in the machine's byte order, big- or little-endian: the clause says
/// that one of the two holds for all words, not which.
#[verifier::external_body]
fn collect_bytes_to_u32s(bytes: &[u8]) -> (values: Vec<u32>)
    ensures
        values@.len() == bytes@.len() / 4 + (if bytes@.len() % 4 == 0 { 0int } else { 1int }),
        exists|big_endian: bool| words_read_as(big_endian, bytes@, values@),
{
    bytemuck::pod_collect_to_vec(bytes)
}

/// The bytes that are uploaded to a GPU buffer holding `values`: the values,
/// four bytes each, in the machine's byte order.
pub fn upload_bytes(values: &[u32]) -> (bytes: &[u8])
    ensures
        bytes@.len() == word_bytes(values@.len()),
        exists|big_endian: bool| encodes(big_endian, values@, bytes@),
{
    let bytes = cast_u32s_to_bytes(values);
    proof {
        let big_endian = choose|big_endian: bool| words_read_as(big_endian, bytes@, values@);
        assert(encodes(big_endian, values@, bytes@));
    }
    bytes
}

/// The values read back from a mapped GPU buffer of `u32`s: one value per
/// four bytes, in the machine's byte order. The buffer must hold a whole
/// number of values.
pub fn readback_u32s(bytes: &[u8]) -> (values: Vec<u32>)
    requires
        bytes@.len() % 4 == 0,
    ensures
        word_bytes(values@.len()) == bytes@.len(),
        exists|big_endian: bool| encodes(big_endian, values@, bytes@),
{
    let values = collect_bytes_to_u32s(bytes);
    proof {
        let big_endian = choose|big_endian: bool| words_read_as(big_endian, bytes@, values@);
        assert(encodes(big_endian, values@, bytes@));
    }
    values
}

/// In one byte order a run of bytes stands for one sequence of values only:
/// reading back bytes that were uploaded in the same byte order gives the
/// uploaded values.
pub proof fn lemma_read_back_in_same_order(big_endian: bool, uploaded: Seq<u32>, bytes: Seq<u8>, read: Seq<u32>)
    requires
        encodes(big_endian, uploaded, bytes),
        encodes(big_endian, read, bytes),
    ensures
        read == uploaded,
{
    assert forall|i: int| 0 <= i < read.len() implies read[i] == uploaded[i] by {
        assert(i < bytes.len() / 4);
        assert(read[i] == word_value(big_endian, word_chunk(bytes, i)));
        assert(uploaded[i] == word_value(big_endian, word_chunk(bytes, i)));
    }
    assert(read =~= uploaded);
}

/// The numbers a compute pass is built from: how many workgroups it
/// dispatches, how large its output buffer and the staging buffer it is
/// copied into are, and how many bytes are copied between them.
pub struct PassLayout {
    pub groups: u32,
    pub output_size: u64,
    pub staging_size: u64,
    pub copy_size: u64,
}

/// The copy of a pass stays within both buffers, and the staging buffer is
/// read back as exactly `values` four-byte values.
pub open spec fn layout_holds(layout: PassLayout, values: nat) -> bool {
    &&& layout.copy_size <= layout.output_size
    &&& layout.copy_size <= layout.staging_size
    &&& layout.staging_size == word_bytes(values)
}

/// Layout of a pass with one workgroup per element over `len` four-byte
/// elements: output, staging buffer and copy all span the whole result.
pub fn elementwise_pass(len: usize) -> (layout: PassLayout)
    requires
        word_bytes(len as nat) <= usize::MAX,
    ensures
        layout.groups == len as u32,
        layout.output_size == word_bytes(len as nat),
        layout.staging_size == word_bytes(len as nat),
        layout.copy_size == word_bytes(len as nat),
        layout_holds(layout, len as nat),
{
    let size = word_buffer_size(len);
    PassLayout { groups: workgroup_count(len), output_size: size, staging_size: size, copy_size: size }
}

/// The byte count of `len` four-byte elements is a whole number of
/// elements, and dividing it by four gives `len` back.
pub proof fn lemma_buffer_round_trip_len(len: nat)
    ensures
        word_bytes(len) % 4 == 0,
        word_bytes(len) / 4 == len,
{
}

} // verus!
