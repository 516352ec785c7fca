//! The uniform record a sort reads, its byte image, and the check of the
//! keyval buffers it is bound with.
use vstd::prelude::*;
use crate::sizes::{
    get_scatter_histogram_sizes, keyval_buffer_size, padded_len, spec_keyval_buffer_size,
    MAX_KEYS, RS_KEYVAL_SIZE,
};

verus! {

/// Four little-endian bytes of `x`.
pub open spec fn le_bytes(x: u32) -> Seq<u8> {
    seq![
        (x % 256) as u8,
        (x / 256 % 256) as u8,
        (x / 65536 % 256) as u8,
        (x / 16777216) as u8,
    ]
}

/// Per-invocation sizes and pass counters, bound at slot 0 of a sort.
#[derive(Clone, Copy, Debug, PartialEq, Eq, Structural)]
pub struct GeneralInfo {
    /// Unused by the sort; always zero.
    pub histogram_size: u32,
    /// Number of valid keys.
    pub keys_size: u32,
    /// Padded length of each keyval buffer.
    pub padded_size: u32,
    /// Number of radix passes.
    pub passes: u32,
    /// Counter of the even scatter passes, kept by the shader.
    pub even_pass: u32,
    /// Counter of the odd scatter passes, kept by the shader.
    pub odd_pass: u32,
}

/// Ways in which buffers handed to a sort can be unfit for it.
#[derive(Clone, Copy, Debug, PartialEq, Eq, Structural)]
pub enum SortError {
    /// A keyval buffer is not `count_ru_histo` keys long.
    KeyvalPadding,
}

impl GeneralInfo {
    /// The record for a sort of `n` keys.
    pub open spec fn spec_new(n: int) -> GeneralInfo {
        GeneralInfo {
            histogram_size: 0,
            keys_size: n as u32,
            padded_size: padded_len(n) as u32,
            passes: RS_KEYVAL_SIZE,
            even_pass: 0,
            odd_pass: 0,
        }
    }

    /// The 24 bytes the GPU reads: the six fields in order, little-endian.
    pub open spec fn spec_bytes(self) -> Seq<u8> {
        le_bytes(self.histogram_size) + le_bytes(self.keys_size) + le_bytes(self.padded_size)
            + le_bytes(self.passes) + le_bytes(self.even_pass) + le_bytes(self.odd_pass)
    }

    /// The record for a sort of `keysize` keys: four passes, counters at zero.
    pub fn new(keysize: usize) -> (r: GeneralInfo)
        requires
            keysize <= MAX_KEYS,
        ensures
            r == GeneralInfo::spec_new(keysize as int),
            r.keys_size == keysize,
            r.padded_size == padded_len(keysize as int),
    {
        let sizes = get_scatter_histogram_sizes(keysize);
        GeneralInfo {
            histogram_size: 0,
            keys_size: keysize as u32,
            padded_size: sizes.count_ru_histo,
            passes: RS_KEYVAL_SIZE,
            even_pass: 0,
            odd_pass: 0,
        }
    }

    /// The byte image of the record, as uploaded to the uniform buffer.
    pub fn to_bytes(&self) -> (r: Vec<u8>)
        ensures
            r@ == self.spec_bytes(),
            r@.len() == 24,
    {
        let mut out: Vec<u8> = Vec::new();
        push_le(&mut out, self.histogram_size);
        push_le(&mut out, self.keys_size);
        push_le(&mut out, self.padded_size);
        push_le(&mut out, self.passes);
        push_le(&mut out, self.even_pass);
        push_le(&mut out, self.odd_pass);
        assert(out@ =~= self.spec_bytes());
        out
    }
}

/// Appends the four little-endian bytes of `x`.
fn push_le(out: &mut Vec<u8>, x: u32)
    ensures
        final(out)@ == old(out)@ + le_bytes(x),
{
    out.push((x % 256) as u8);
    out.push((x / 256 % 256) as u8);
    out.push((x / 65536 % 256) as u8);
    out.push((x / 16777216) as u8);
    assert(final(out)@ =~= old(out)@ + le_bytes(x));
}

/// The uniform record for a sort of `keysize` keys over keyval buffers of
/// `keyval_a_size` and `keyval_b_size` bytes; both must hold exactly the
/// padded length of four-byte keys.
pub fn bind_group_info(keysize: usize, keyval_a_size: u64, keyval_b_size: u64) -> (r: Result<
    GeneralInfo,
    SortError,
>)
    requires
        keysize <= MAX_KEYS,
    ensures
        r is Ok <==> (keyval_a_size == spec_keyval_buffer_size(keysize as int)
            && keyval_b_size == spec_keyval_buffer_size(keysize as int)),
        r is Ok ==> r->Ok_0 == GeneralInfo::spec_new(keysize as int),
        r is Err ==> r->Err_0 == SortError::KeyvalPadding,
{
    let expected = keyval_buffer_size(keysize);
    if keyval_a_size != expected || keyval_b_size != expected {
        return Err(SortError::KeyvalPadding);
    }
    Ok(GeneralInfo::new(keysize))
}

} // verus!
