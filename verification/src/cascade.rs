//! The mathematics of a cascade: sections in series, each fed the output of
//! the one before it, and a stream of samples sent through them one by one.

use crate::arithmetic::Operation;
use crate::biquad::BiquadFilter;
use vstd::prelude::*;

verus! {

/// The signal that enters section `n` when `input` enters the cascade: the
/// input itself for the first section, and for every other the output of
/// the section before it. At `n = filters.len()` it is what leaves the
/// cascade.
pub open spec fn signal_at<U: Fn(Operation, u32, u32) -> u32>(
    unit: &U,
    filters: Seq<BiquadFilter>,
    n: int,
    input: u32,
) -> u32
    decreases n,
{
    if n <= 0 {
        input
    } else {
        filters[n - 1].output(unit, signal_at(unit, filters, n - 1, input))
    }
}

/// What leaves the cascade when `input` enters it.
pub open spec fn cascade_output<U: Fn(Operation, u32, u32) -> u32>(
    unit: &U,
    filters: Seq<BiquadFilter>,
    input: u32,
) -> u32 {
    signal_at(unit, filters, filters.len() as int, input)
}

/// The sections after `input` has passed through the cascade: each has
/// processed the signal that reached it.
pub open spec fn cascade_after<U: Fn(Operation, u32, u32) -> u32>(
    unit: &U,
    filters: Seq<BiquadFilter>,
    input: u32,
) -> Seq<BiquadFilter> {
    Seq::new(
        filters.len(),
        |i: int| filters[i].after(unit, signal_at(unit, filters, i, input)),
    )
}

/// The sections after the first `k` samples of `input` have passed through
/// the cascade, in order.
pub open spec fn stream_after<U: Fn(Operation, u32, u32) -> u32>(
    unit: &U,
    filters: Seq<BiquadFilter>,
    input: Seq<u32>,
    k: int,
) -> Seq<BiquadFilter>
    decreases k,
{
    if k <= 0 {
        filters
    } else {
        cascade_after(unit, stream_after(unit, filters, input, k - 1), input[k - 1])
    }
}

/// The output for each sample of `input`: what leaves the cascade, as the
/// samples before it have left it, when that sample enters.
pub open spec fn stream_output<U: Fn(Operation, u32, u32) -> u32>(
    unit: &U,
    filters: Seq<BiquadFilter>,
    input: Seq<u32>,
) -> Seq<u32> {
    Seq::new(
        input.len(),
        |k: int| cascade_output(unit, stream_after(unit, filters, input, k), input[k]),
    )
}

} // verus!
