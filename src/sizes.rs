//! Block round-up of a key count and the buffer sizes derived from it.
use vstd::prelude::*;
use vstd::arithmetic::div_mod::lemma_fundamental_div_mod;
use vstd::arithmetic::div_mod::lemma_fundamental_div_mod_converse;

verus! {

/// Width of the histogram workgroup.
pub const HISTOGRAM_WG_SIZE: u32 = 256;

/// Bits per radix digit.
pub const RS_RADIX_LOG2: u32 = 8;

/// Entries of one digit histogram.
pub const RS_RADIX_SIZE: u32 = 256;

/// Digits per 32-bit key, which is also the number of sorting passes.
pub const RS_KEYVAL_SIZE: u32 = 4;

/// Rows of keys one histogram workgroup reads.
pub const RS_HISTOGRAM_BLOCK_ROWS: u32 = 15;

/// Rows of keys one scatter workgroup moves; the shader needs it equal to the
/// histogram rows.
pub const RS_SCATTER_BLOCK_ROWS: u32 = 15;

/// Width of the prefix-scan workgroup; each thread handles two entries.
pub const PREFIX_WG_SIZE: u32 = 128;

/// Width of the scatter workgroup.
pub const SCATTER_WG_SIZE: u32 = 256;

/// Keys handled by one histogram or scatter block (`256 * 15`).
pub const BLOCK_KVS: u32 = 3840;

/// Bytes of one key or one value.
pub const KEYVAL_BYTES: u64 = 4;

/// Bytes of one digit histogram (`256` counters of four bytes).
pub const HISTO_BYTES: u64 = 1024;

/// Largest key count whose padded length still fits the 32-bit uniform
/// fields (the largest multiple of the block size below `2^32`).
pub const MAX_KEYS: u64 = 4294967040;

/// Blocks that cover `MAX_KEYS` keys.
pub const MAX_BLOCKS: u64 = 1118481;

/// `a / b` rounded up.
pub open spec fn ceil_div(a: int, b: int) -> int {
    (a + b - 1) / b
}

/// Blocks of `BLOCK_KVS` keys needed to cover `n` keys.
pub open spec fn blocks_for(n: int) -> int {
    ceil_div(n, BLOCK_KVS as int)
}

/// `n` rounded up to a whole number of blocks.
pub open spec fn padded_len(n: int) -> int {
    blocks_for(n) * BLOCK_KVS
}

/// The six sizes that every kernel of a sort is dispatched with.
#[derive(Clone, Copy, Debug, PartialEq, Eq, Structural)]
pub struct SortSizes {
    /// Keys per scatter block.
    pub scatter_block_kvs: u32,
    /// Scatter blocks that cover the keys.
    pub scatter_blocks_ru: u32,
    /// Key count rounded up to whole scatter blocks.
    pub count_ru_scatter: u32,
    /// Keys per histogram block.
    pub histo_block_kvs: u32,
    /// Histogram blocks that cover `count_ru_scatter`.
    pub histo_blocks_ru: u32,
    /// Key count rounded up to whole histogram blocks: the padded length of
    /// each keyval buffer.
    pub count_ru_histo: u32,
}

impl SortSizes {
    /// The sizes for `n` keys, as the calculator defines them step by step.
    pub open spec fn spec_for(n: int) -> SortSizes {
        let scatter_blocks_ru = blocks_for(n);
        let count_ru_scatter = scatter_blocks_ru * BLOCK_KVS;
        let histo_blocks_ru = blocks_for(count_ru_scatter);
        SortSizes {
            scatter_block_kvs: BLOCK_KVS,
            scatter_blocks_ru: scatter_blocks_ru as u32,
            count_ru_scatter: count_ru_scatter as u32,
            histo_block_kvs: BLOCK_KVS,
            histo_blocks_ru: histo_blocks_ru as u32,
            count_ru_histo: (histo_blocks_ru * BLOCK_KVS) as u32,
        }
    }
}

/// Rounding up to whole blocks covers `n`, adds less than one block, and
/// rounding the result up again changes nothing.
pub proof fn lemma_round_up(n: int)
    requires
        0 <= n,
    ensures
        n <= padded_len(n) < n + BLOCK_KVS,
        padded_len(n) % (BLOCK_KVS as int) == 0,
        blocks_for(padded_len(n)) == blocks_for(n),
        padded_len(padded_len(n)) == padded_len(n),
{
    let d = BLOCK_KVS as int;
    let q = blocks_for(n);
    lemma_fundamental_div_mod(n + d - 1, d);
    assert(n + d - 1 == d * q + (n + d - 1) % d);
    assert(q * d == d * q) by (nonlinear_arith);
    lemma_fundamental_div_mod_converse(q * d, d, q, 0);
    lemma_fundamental_div_mod_converse(q * d + d - 1, d, q, d - 1);
}

/// The six sizes for `keysize` keys: each count rounded up so that every
/// workgroup sees a full block.
pub fn get_scatter_histogram_sizes(keysize: usize) -> (r: SortSizes)
    requires
        keysize <= MAX_KEYS,
    ensures
        r == SortSizes::spec_for(keysize as int),
        r.scatter_block_kvs == BLOCK_KVS,
        r.histo_block_kvs == BLOCK_KVS,
        r.scatter_blocks_ru == blocks_for(keysize as int),
        r.count_ru_scatter == padded_len(keysize as int),
        r.histo_blocks_ru == r.scatter_blocks_ru,
        r.count_ru_histo == r.count_ru_scatter,
        keysize <= r.count_ru_histo < keysize + BLOCK_KVS,
        r.count_ru_histo as int % BLOCK_KVS as int == 0,
        r.count_ru_histo <= MAX_KEYS,
        r.scatter_blocks_ru <= MAX_BLOCKS,
{
    proof {
        lemma_round_up(keysize as int);
        let q = blocks_for(keysize as int);
        assert(q * 3840 < 4294970880);
        assert(q <= 1118481) by (nonlinear_arith)
            requires
                q * 3840 < 4294970880,
        ;
    }
    let n = keysize as u64;
    let scatter_block_kvs = HISTOGRAM_WG_SIZE as u64 * RS_SCATTER_BLOCK_ROWS as u64;
    let scatter_blocks_ru = (n + scatter_block_kvs - 1) / scatter_block_kvs;
    let count_ru_scatter = scatter_blocks_ru * scatter_block_kvs;
    let histo_block_kvs = HISTOGRAM_WG_SIZE as u64 * RS_HISTOGRAM_BLOCK_ROWS as u64;
    let histo_blocks_ru = (count_ru_scatter + histo_block_kvs - 1) / histo_block_kvs;
    let count_ru_histo = histo_blocks_ru * histo_block_kvs;
    SortSizes {
        scatter_block_kvs: scatter_block_kvs as u32,
        scatter_blocks_ru: scatter_blocks_ru as u32,
        count_ru_scatter: count_ru_scatter as u32,
        histo_block_kvs: histo_block_kvs as u32,
        histo_blocks_ru: histo_blocks_ru as u32,
        count_ru_histo: count_ru_histo as u32,
    }
}

/// Bytes of one keyval buffer for `n` keys: the padded length, four bytes each.
pub open spec fn spec_keyval_buffer_size(n: int) -> int {
    padded_len(n) * KEYVAL_BYTES
}

/// Bytes of the scratch buffer for `n` keys: four histograms, then one
/// lookback partition record per scatter block but the first.
pub open spec fn spec_internal_mem_size(n: int) -> int {
    (RS_KEYVAL_SIZE + blocks_for(n) - 1) * HISTO_BYTES
}

/// Words that the zeroing kernel clears for `n` keys: histograms, partition
/// records and the padding tail of the keyval buffer.
pub open spec fn zeroed_words(n: int) -> int {
    (RS_KEYVAL_SIZE + blocks_for(n) - 1) * RS_RADIX_SIZE + (padded_len(n) - n)
}

/// Size in bytes of each of the two keyval buffers for `keysize` keys.
pub fn keyval_buffer_size(keysize: usize) -> (r: u64)
    requires
        keysize <= MAX_KEYS,
    ensures
        r == spec_keyval_buffer_size(keysize as int),
{
    let sizes = get_scatter_histogram_sizes(keysize);
    sizes.count_ru_histo as u64 * KEYVAL_BYTES
}

/// Size in bytes of the scratch buffer that holds the histograms and the
/// lookback partitions for `keysize` keys.
pub fn internal_mem_size(keysize: usize) -> (r: u64)
    requires
        keysize <= MAX_KEYS,
    ensures
        r == spec_internal_mem_size(keysize as int),
{
    let sizes = get_scatter_histogram_sizes(keysize);
    (RS_KEYVAL_SIZE as u64 + sizes.scatter_blocks_ru as u64 - 1) * HISTO_BYTES
}

/// Workgroups of the zeroing kernel for `keysize` keys: the cleared words
/// divided by the histogram workgroup width, rounded up.
pub fn zero_dispatch_count(keysize: usize) -> (r: u32)
    requires
        keysize <= MAX_KEYS,
    ensures
        r == ceil_div(zeroed_words(keysize as int), HISTOGRAM_WG_SIZE as int),
        zeroed_words(keysize as int) <= r * HISTOGRAM_WG_SIZE < zeroed_words(keysize as int)
            + HISTOGRAM_WG_SIZE,
        padded_len(keysize as int) - keysize <= zeroed_words(keysize as int),
{
    let sizes = get_scatter_histogram_sizes(keysize);
    let n = keysize as u64;
    let padded = sizes.count_ru_histo as u64;
    let tail: u64 = if padded > n { padded - n } else { 0 };
    let records = RS_KEYVAL_SIZE as u64 + sizes.scatter_blocks_ru as u64 - 1;
    assert(records * 256 <= 286331904) by (nonlinear_arith)
        requires
            records <= 1118484,
    ;
    let words = records * RS_RADIX_SIZE as u64 + tail;
    let wg = HISTOGRAM_WG_SIZE as u64;
    let groups = (words + wg - 1) / wg;
    proof {
        lemma_fundamental_div_mod(words + 255, 256);
    }
    groups as u32
}

} // verus!
