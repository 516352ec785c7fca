//! The compute dispatches of a full sort, in the order they are recorded.
use vstd::prelude::*;
use crate::sizes::{
    blocks_for, ceil_div, get_scatter_histogram_sizes, zero_dispatch_count, zeroed_words,
    HISTOGRAM_WG_SIZE, MAX_KEYS, RS_KEYVAL_SIZE,
};

verus! {

/// The five entry points of the sorting shader.
#[derive(Clone, Copy, Debug, PartialEq, Eq, Structural)]
pub enum Kernel {
    /// Clears histograms, partition records and the keyval padding tail.
    ZeroHistograms,
    /// Counts the digits of all four passes.
    CalculateHistogram,
    /// Turns each histogram into an exclusive prefix sum.
    PrefixHistogram,
    /// Scatters from buffer A to buffer B.
    ScatterEven,
    /// Scatters from buffer B to buffer A.
    ScatterOdd,
}

/// One dispatch: a kernel and its number of workgroups.
#[derive(Clone, Copy, Debug, PartialEq, Eq, Structural)]
pub struct Dispatch {
    pub kernel: Kernel,
    pub workgroups: u32,
}

/// Workgroups of the zeroing kernel for `n` keys.
pub open spec fn zero_workgroups(n: int) -> int {
    ceil_div(zeroed_words(n), HISTOGRAM_WG_SIZE as int)
}

/// The scatter kernel of pass `i`: even passes read A, odd passes read B.
pub open spec fn scatter_kernel(i: int) -> Kernel {
    if i % 2 == 0 {
        Kernel::ScatterEven
    } else {
        Kernel::ScatterOdd
    }
}

/// Zeroing, then the histogram of all digits.
pub open spec fn spec_histogram_plan(n: int) -> Seq<Dispatch> {
    seq![
        Dispatch { kernel: Kernel::ZeroHistograms, workgroups: zero_workgroups(n) as u32 },
        Dispatch { kernel: Kernel::CalculateHistogram, workgroups: blocks_for(n) as u32 },
    ]
}

/// One prefix-scan workgroup per pass.
pub open spec fn spec_prefix_plan(passes: int) -> Seq<Dispatch> {
    seq![Dispatch { kernel: Kernel::PrefixHistogram, workgroups: passes as u32 }]
}

/// `passes` scatter dispatches, alternating even and odd, one workgroup per
/// scatter block each.
pub open spec fn spec_scatter_plan(passes: int, n: int) -> Seq<Dispatch> {
    Seq::new(
        passes as nat,
        |i: int| Dispatch { kernel: scatter_kernel(i), workgroups: blocks_for(n) as u32 },
    )
}

/// All dispatches of a full sort of `n` keys.
pub open spec fn spec_sort_plan(n: int) -> Seq<Dispatch> {
    spec_histogram_plan(n) + spec_prefix_plan(RS_KEYVAL_SIZE as int) + spec_scatter_plan(
        RS_KEYVAL_SIZE as int,
        n,
    )
}

/// Buffer A holds the result after a scatter plan iff it has an even
/// number of passes.
pub open spec fn result_in_a(scatters: Seq<Dispatch>) -> bool {
    scatters.len() % 2 == 0
}

/// Zeroing and histogram dispatches for `keysize` keys.
pub fn calculate_histogram_plan(keysize: usize) -> (r: Vec<Dispatch>)
    requires
        keysize <= MAX_KEYS,
    ensures
        r@ == spec_histogram_plan(keysize as int),
{
    let sizes = get_scatter_histogram_sizes(keysize);
    let mut r: Vec<Dispatch> = Vec::new();
    r.push(Dispatch { kernel: Kernel::ZeroHistograms, workgroups: zero_dispatch_count(keysize) });
    r.push(Dispatch { kernel: Kernel::CalculateHistogram, workgroups: sizes.histo_blocks_ru });
    assert(r@ =~= spec_histogram_plan(keysize as int));
    r
}

/// The prefix-scan dispatch for `passes` passes.
pub fn prefix_histogram_plan(passes: u32) -> (r: Vec<Dispatch>)
    ensures
        r@ == spec_prefix_plan(passes as int),
{
    let mut r: Vec<Dispatch> = Vec::new();
    r.push(Dispatch { kernel: Kernel::PrefixHistogram, workgroups: passes });
    assert(r@ =~= spec_prefix_plan(passes as int));
    r
}

/// The scatter dispatches for `keysize` keys; the shader is built for
/// exactly four passes.
pub fn scatter_keys_plan(passes: u32, keysize: usize) -> (r: Vec<Dispatch>)
    requires
        passes == RS_KEYVAL_SIZE,
        keysize <= MAX_KEYS,
    ensures
        r@ == spec_scatter_plan(passes as int, keysize as int),
        result_in_a(r@),
{
    let sizes = get_scatter_histogram_sizes(keysize);
    let mut r: Vec<Dispatch> = Vec::new();
    let mut i: u32 = 0;
    while i < passes
        invariant
            i <= passes,
            sizes.scatter_blocks_ru == blocks_for(keysize as int),
            r@ == spec_scatter_plan(i as int, keysize as int),
        decreases passes - i,
    {
        let kernel = if i % 2 == 0 {
            Kernel::ScatterEven
        } else {
            Kernel::ScatterOdd
        };
        r.push(Dispatch { kernel, workgroups: sizes.scatter_blocks_ru });
        i = i + 1;
        assert(r@ =~= spec_scatter_plan(i as int, keysize as int));
    }
    r
}

/// Every dispatch of a full sort of `keysize` keys, in recording order.
pub fn sort_plan(keysize: usize) -> (r: Vec<Dispatch>)
    requires
        keysize <= MAX_KEYS,
    ensures
        r@ == spec_sort_plan(keysize as int),
{
    let mut r = calculate_histogram_plan(keysize);
    let mut prefix = prefix_histogram_plan(RS_KEYVAL_SIZE);
    let mut scatter = scatter_keys_plan(RS_KEYVAL_SIZE, keysize);
    r.append(&mut prefix);
    r.append(&mut scatter);
    r
}

/// A full sort dispatches zero, histogram and prefix once each, then four
/// scatters alternating even and odd, so its result ends in buffer A.
pub proof fn lemma_sort_plan_shape(n: int)
    requires
        0 <= n <= MAX_KEYS,
    ensures
        spec_sort_plan(n).len() == 7,
        spec_sort_plan(n)[0].kernel == Kernel::ZeroHistograms,
        spec_sort_plan(n)[1].kernel == Kernel::CalculateHistogram,
        spec_sort_plan(n)[2].kernel == Kernel::PrefixHistogram,
        spec_sort_plan(n)[3].kernel == Kernel::ScatterEven,
        spec_sort_plan(n)[4].kernel == Kernel::ScatterOdd,
        spec_sort_plan(n)[5].kernel == Kernel::ScatterEven,
        spec_sort_plan(n)[6].kernel == Kernel::ScatterOdd,
        result_in_a(spec_sort_plan(n).subrange(3, 7)),
{
    let p = spec_sort_plan(n);
    assert(p.subrange(3, 7) =~= spec_scatter_plan(RS_KEYVAL_SIZE as int, n));
}

} // verus!
