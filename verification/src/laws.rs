//! What holds of the equalizer in every arithmetic unit, and what holds of
//! it in every unit that has the neutral elements of binary32 arithmetic.

use crate::arithmetic::{has_neutral_elements, is_finite, same_number, Operation};
use crate::biquad::{identity_coefficients, peaking_eq, response, BiquadFilter, History};
use crate::cascade::{cascade_after, signal_at, stream_after};
use crate::equalizer::{flat, initial, EqualizerView};
use vstd::prelude::*;

verus! {

/// Retuning is determined by its four parameters: two sections retuned with
/// the same parameters hold the same coefficients, whatever they held
/// before, and retuning a second time changes nothing.
pub proof fn lemma_retuning_is_deterministic<U: Fn(Operation, u32, u32) -> u32>(
    unit: &U,
    first: BiquadFilter,
    second: BiquadFilter,
    frequency: u32,
    quality_factor: u32,
    gain_db: u32,
    sample_rate: u32,
)
    ensures
        ({
            let c = peaking_eq(unit, frequency, quality_factor, gain_db, sample_rate);
            &&& first.tuned(c).coefficients == second.tuned(c).coefficients
            &&& first.tuned(c).tuned(c) == first.tuned(c)
        }),
{
}

/// The feed-forward and the feedback coefficient on the previous sample of a
/// peaking filter are equal.
pub proof fn lemma_peaking_eq_middle_coefficients<U: Fn(Operation, u32, u32) -> u32>(
    unit: &U,
    frequency: u32,
    quality_factor: u32,
    gain_db: u32,
    sample_rate: u32,
)
    ensures
        peaking_eq(unit, frequency, quality_factor, gain_db, sample_rate).b1 == peaking_eq(
            unit,
            frequency,
            quality_factor,
            gain_db,
            sample_rate,
        ).a1,
{
}

/// Whether every number in `h` is finite.
pub open spec fn is_finite_history(h: History) -> bool {
    is_finite(h.x1) && is_finite(h.x2) && is_finite(h.y1) && is_finite(h.y2)
}

/// Whether every section of `filters` is tuned to the identity filter and
/// remembers finite numbers only.
pub open spec fn is_transparent(filters: Seq<BiquadFilter>) -> bool {
    forall|i: int|
        0 <= i < filters.len() ==> (#[trigger] filters[i]).coefficients == identity_coefficients()
            && is_finite_history(filters[i].history)
}

/// A section tuned to the identity filter answers a finite input with the
/// same number, whatever finite numbers it remembers.
pub proof fn lemma_identity_section_returns_its_input<U: Fn(Operation, u32, u32) -> u32>(
    unit: &U,
    history: History,
    input: u32,
)
    requires
        has_neutral_elements(unit),
        is_finite_history(history),
        is_finite(input),
    ensures
        same_number(response(unit, identity_coefficients(), history, input), input),
        is_finite(response(unit, identity_coefficients(), history, input)),
{
}

/// The signal that reaches any section of a transparent cascade is the
/// number that entered it.
proof fn lemma_transparent_signal<U: Fn(Operation, u32, u32) -> u32>(
    unit: &U,
    filters: Seq<BiquadFilter>,
    n: int,
    input: u32,
)
    requires
        has_neutral_elements(unit),
        is_transparent(filters),
        is_finite(input),
        0 <= n <= filters.len(),
    ensures
        same_number(signal_at(unit, filters, n, input), input),
        is_finite(signal_at(unit, filters, n, input)),
    decreases n,
{
    if n > 0 {
        lemma_transparent_signal(unit, filters, n - 1, input);
        lemma_identity_section_returns_its_input(
            unit,
            filters[n - 1].history,
            signal_at(unit, filters, n - 1, input),
        );
    }
}

/// A transparent cascade is transparent after any number of finite samples.
proof fn lemma_transparent_stream<U: Fn(Operation, u32, u32) -> u32>(
    unit: &U,
    filters: Seq<BiquadFilter>,
    input: Seq<u32>,
    k: int,
)
    requires
        has_neutral_elements(unit),
        is_transparent(filters),
        forall|i: int| 0 <= i < input.len() ==> is_finite(#[trigger] input[i]),
        0 <= k <= input.len(),
    ensures
        is_transparent(stream_after(unit, filters, input, k)),
        stream_after(unit, filters, input, k).len() == filters.len(),
    decreases k,
{
    if k > 0 {
        lemma_transparent_stream(unit, filters, input, k - 1);
        let before = stream_after(unit, filters, input, k - 1);
        let sample = input[k - 1];
        let after = cascade_after(unit, before, sample);
        assert forall|i: int| 0 <= i < after.len() implies (#[trigger] after[i]).coefficients
            == identity_coefficients() && is_finite_history(after[i].history) by {
            lemma_transparent_signal(unit, before, i, sample);
            lemma_identity_section_returns_its_input(
                unit,
                before[i].history,
                signal_at(unit, before, i, sample),
            );
        }
    }
}

/// An equalizer whose sections are all tuned to the identity filter, as
/// those of a new one are, returns a finite signal unchanged: every output
/// is the number that came in. This holds in every unit that has the neutral
/// elements of binary32 arithmetic.
pub proof fn lemma_identity_equalizer_is_transparent<U: Fn(Operation, u32, u32) -> u32>(
    unit: &U,
    table: EqualizerView,
    input: Seq<u32>,
)
    requires
        has_neutral_elements(unit),
        is_transparent(table.filters),
        forall|i: int| 0 <= i < input.len() ==> is_finite(#[trigger] input[i]),
    ensures
        table.output(unit, input).len() == input.len(),
        forall|k: int|
            0 <= k < input.len() ==> same_number(
                #[trigger] table.output(unit, input)[k],
                input[k],
            ),
        is_transparent(table.streamed(unit, input).filters),
{
    assert forall|k: int| 0 <= k < input.len() implies same_number(
        #[trigger] table.output(unit, input)[k],
        input[k],
    ) by {
        lemma_transparent_stream(unit, table.filters, input, k);
        let before = stream_after(unit, table.filters, input, k);
        lemma_transparent_signal(unit, before, before.len() as int, input[k]);
    }
    lemma_transparent_stream(unit, table.filters, input, input.len() as int);
}

/// The sections of a new equalizer are transparent.
pub proof fn lemma_new_equalizer_is_transparent(
    sample_rate: u32,
    frequencies: Seq<u32>,
    q_values: Seq<u32>,
)
    ensures
        is_transparent(initial(sample_rate, frequencies, q_values).filters),
{
}

/// A reset forgets everything but the layout: whatever the sections held and
/// whatever the gains were, the table after it is that of a new equalizer
/// with the same bands whose gains were then set to zero decibels, and so
/// both answer every input alike.
pub proof fn lemma_reset_is_new_and_flat<U: Fn(Operation, u32, u32) -> u32>(
    unit: &U,
    table: EqualizerView,
    input: Seq<u32>,
)
    requires
        table.wf(),
    ensures
        ({
            let fresh = initial(table.sample_rate, table.frequencies, table.q_values);
            &&& table.reset(unit) == fresh.retuned(unit, flat(fresh.band_count()))
            &&& table.reset(unit).output(unit, input) == fresh.retuned(
                unit,
                flat(fresh.band_count()),
            ).output(unit, input)
        }),
{
    let fresh = initial(table.sample_rate, table.frequencies, table.q_values);
    assert(table.cleared().filters =~= fresh.filters);
    assert(table.reset(unit).filters =~= fresh.retuned(unit, flat(fresh.band_count())).filters);
}

/// The sections after `k` samples depend on the first `k` samples alone.
proof fn lemma_stream_after_prefix<U: Fn(Operation, u32, u32) -> u32>(
    unit: &U,
    filters: Seq<BiquadFilter>,
    left: Seq<u32>,
    right: Seq<u32>,
    k: int,
)
    requires
        0 <= k <= left.len(),
        k <= right.len(),
        forall|i: int| 0 <= i < k ==> left[i] == right[i],
    ensures
        stream_after(unit, filters, left, k) == stream_after(unit, filters, right, k),
    decreases k,
{
    if k > 0 {
        lemma_stream_after_prefix(unit, filters, left, right, k - 1);
    }
}

/// The sections after `head` and then the first `j` samples of `tail`.
proof fn lemma_stream_after_concat<U: Fn(Operation, u32, u32) -> u32>(
    unit: &U,
    filters: Seq<BiquadFilter>,
    head: Seq<u32>,
    tail: Seq<u32>,
    j: int,
)
    requires
        0 <= j <= tail.len(),
    ensures
        stream_after(unit, filters, head + tail, head.len() + j) == stream_after(
            unit,
            stream_after(unit, filters, head, head.len() as int),
            tail,
            j,
        ),
    decreases j,
{
    if j == 0 {
        lemma_stream_after_prefix(unit, filters, head + tail, head, head.len() as int);
    } else {
        lemma_stream_after_concat(unit, filters, head, tail, j - 1);
        assert((head + tail)[head.len() + j - 1] == tail[j - 1]);
    }
}

/// Streaming is the same in one piece or in two: sending `head` and then
/// `tail` through the table leaves it as sending `head + tail` does, and the
/// outputs of the two calls, one after the other, are the outputs of the one.
pub proof fn lemma_streaming_in_pieces<U: Fn(Operation, u32, u32) -> u32>(
    unit: &U,
    table: EqualizerView,
    head: Seq<u32>,
    tail: Seq<u32>,
)
    ensures
        table.streamed(unit, head + tail) == table.streamed(unit, head).streamed(unit, tail),
        table.output(unit, head + tail) == table.output(unit, head) + table.streamed(
            unit,
            head,
        ).output(unit, tail),
{
    let whole = head + tail;
    lemma_stream_after_concat(unit, table.filters, head, tail, tail.len() as int);
    assert forall|k: int| 0 <= k < whole.len() implies #[trigger] table.output(unit, whole)[k] == (
    table.output(unit, head) + table.streamed(unit, head).output(unit, tail))[k] by {
        if k < head.len() {
            lemma_stream_after_prefix(unit, table.filters, whole, head, k);
        } else {
            lemma_stream_after_concat(unit, table.filters, head, tail, k - head.len());
        }
    }
    assert(table.output(unit, whole) =~= table.output(unit, head) + table.streamed(
        unit,
        head,
    ).output(unit, tail));
}

/// Whether two tables have the same bands at the same sample rate.
pub open spec fn same_layout(left: EqualizerView, right: EqualizerView) -> bool {
    &&& left.band_count() == right.band_count()
    &&& left.frequencies == right.frequencies
    &&& left.q_values == right.q_values
    &&& left.sample_rate == right.sample_rate
}

/// Streaming leaves as many sections as it found.
proof fn lemma_stream_after_len<U: Fn(Operation, u32, u32) -> u32>(
    unit: &U,
    filters: Seq<BiquadFilter>,
    input: Seq<u32>,
    k: int,
)
    ensures
        stream_after(unit, filters, input, k).len() == filters.len(),
    decreases k,
{
    if k > 0 {
        lemma_stream_after_len(unit, filters, input, k - 1);
    }
}

/// The band table keeps its shape: no operation changes the number of bands,
/// their frequencies, their quality factors or the sample rate, and after
/// each of them every band still has its gain and its section.
pub proof fn lemma_band_table_is_fixed<U: Fn(Operation, u32, u32) -> u32>(
    unit: &U,
    table: EqualizerView,
    gains: Seq<u32>,
    input: Seq<u32>,
)
    requires
        table.wf(),
        gains.len() == table.band_count(),
    ensures
        table.retuned(unit, gains).wf(),
        table.reset(unit).wf(),
        table.streamed(unit, input).wf(),
        same_layout(table.retuned(unit, gains), table),
        same_layout(table.reset(unit), table),
        same_layout(table.streamed(unit, input), table),
{
    lemma_stream_after_len(unit, table.filters, input, input.len() as int);
}

} // verus!
