//! The equalizer: one section per band, tuned together and run in series.

use crate::arithmetic::{is_arithmetic, is_positive, Operation, INFINITY, ZERO};
use crate::biquad::{peaking_eq, BiquadFilter};
use crate::cascade::{cascade_after, cascade_output, signal_at, stream_after, stream_output};
use vstd::prelude::*;

verus! {

/// Why an equalizer could not be built.
#[derive(Clone, Copy, Debug, PartialEq, Eq, Structural)]
pub enum ConfigurationError {
    /// The sample rate is not a number greater than zero.
    SampleRate,
    /// There are not as many quality factors as there are frequencies.
    BandCount { expected: usize, actual: usize },
}

/// The band table of an equalizer: per band a centre frequency, a quality
/// factor, a gain in decibels and a section, and the sample rate they share.
pub struct EqualizerView {
    pub filters: Seq<BiquadFilter>,
    pub sample_rate: u32,
    pub frequencies: Seq<u32>,
    pub gains: Seq<u32>,
    pub q_values: Seq<u32>,
}

impl EqualizerView {
    /// Every band has its frequency, quality factor, gain and section.
    pub open spec fn wf(self) -> bool {
        &&& self.frequencies.len() == self.filters.len()
        &&& self.q_values.len() == self.filters.len()
        &&& self.gains.len() == self.filters.len()
    }

    /// The number of bands.
    pub open spec fn band_count(self) -> nat {
        self.filters.len()
    }

    /// The table with `gains` stored and every section retuned to the peaking
    /// filter of its band at its new gain. Histories are kept.
    pub open spec fn retuned<U: Fn(Operation, u32, u32) -> u32>(
        self,
        unit: &U,
        gains: Seq<u32>,
    ) -> EqualizerView {
        EqualizerView {
            filters: Seq::new(
                self.filters.len(),
                |i: int|
                    self.filters[i].tuned(
                        peaking_eq(
                            unit,
                            self.frequencies[i],
                            self.q_values[i],
                            gains[i],
                            self.sample_rate,
                        ),
                    ),
            ),
            gains,
            ..self
        }
    }

    /// The table with every section replaced by a fresh one.
    pub open spec fn cleared(self) -> EqualizerView {
        EqualizerView {
            filters: Seq::new(self.filters.len(), |i: int| BiquadFilter::identity()),
            ..self
        }
    }

    /// The table with all history silenced and all gains flat: every section
    /// replaced by a fresh one, then every band retuned at zero decibels.
    pub open spec fn reset<U: Fn(Operation, u32, u32) -> u32>(self, unit: &U) -> EqualizerView {
        self.cleared().retuned(unit, flat(self.band_count()))
    }

    /// The outputs for `input` streamed through the table, one per sample.
    pub open spec fn output<U: Fn(Operation, u32, u32) -> u32>(
        self,
        unit: &U,
        input: Seq<u32>,
    ) -> Seq<u32> {
        stream_output(unit, self.filters, input)
    }

    /// The table after `input` has been streamed through it.
    pub open spec fn streamed<U: Fn(Operation, u32, u32) -> u32>(
        self,
        unit: &U,
        input: Seq<u32>,
    ) -> EqualizerView {
        EqualizerView {
            filters: stream_after(unit, self.filters, input, input.len() as int),
            ..self
        }
    }
}

/// All gains at zero decibels, for `n` bands.
pub open spec fn flat(n: nat) -> Seq<u32> {
    Seq::new(n, |i: int| ZERO)
}

/// The quality factor of every band of the default layout: 1.41, close to a
/// bandwidth of one octave.
pub const DEFAULT_Q: u32 = 0x3FB4_7AE1;

/// The centre frequencies of the default layout, an octave apart: 31.5, 63,
/// 125, 250, 500, 1000, 2000, 4000, 8000 and 16000 Hz.
pub open spec fn default_frequencies() -> Seq<u32> {
    seq![
        0x41FC_0000u32,
        0x427C_0000u32,
        0x42FA_0000u32,
        0x437A_0000u32,
        0x43FA_0000u32,
        0x447A_0000u32,
        0x44FA_0000u32,
        0x457A_0000u32,
        0x45FA_0000u32,
        0x467A_0000u32,
    ]
}

/// The table of a new equalizer with the given bands: every gain flat and
/// every section the identity filter.
pub open spec fn initial(
    sample_rate: u32,
    frequencies: Seq<u32>,
    q_values: Seq<u32>,
) -> EqualizerView {
    EqualizerView {
        filters: Seq::new(frequencies.len(), |i: int| BiquadFilter::identity()),
        sample_rate,
        frequencies,
        gains: flat(frequencies.len()),
        q_values,
    }
}

/// The table of a new equalizer with the default layout.
pub open spec fn default_layout(sample_rate: u32) -> EqualizerView {
    initial(
        sample_rate,
        default_frequencies(),
        Seq::new(default_frequencies().len(), |i: int| DEFAULT_Q),
    )
}

/// A bank of second-order sections, one per band, run in series in the order
/// in which the bands were declared.
pub struct Equalizer {
    filters: Vec<BiquadFilter>,
    sample_rate: u32,
    frequencies: Vec<u32>,
    gains: Vec<u32>,
    q_values: Vec<u32>,
}

impl View for Equalizer {
    type V = EqualizerView;

    closed spec fn view(&self) -> EqualizerView {
        EqualizerView {
            filters: self.filters@,
            sample_rate: self.sample_rate,
            frequencies: self.frequencies@,
            gains: self.gains@,
            q_values: self.q_values@,
        }
    }
}

impl Equalizer {
    #[verifier::type_invariant]
    spec fn consistent(self) -> bool {
        self@.wf()
    }

    /// An equalizer with the default layout of ten octave bands, all gains
    /// flat and every section the identity filter. The sample rate must be
    /// a number greater than zero.
    pub fn new(sample_rate: u32) -> (result: Result<Equalizer, ConfigurationError>)
        ensures
            match result {
                Ok(equalizer) => {
                    &&& is_positive(sample_rate)
                    &&& equalizer@ == default_layout(sample_rate)
                    &&& equalizer@.wf()
                },
                Err(error) => !is_positive(sample_rate) && error == ConfigurationError::SampleRate,
            },
    {
        let frequencies: Vec<u32> = vec![
            0x41FC_0000,
            0x427C_0000,
            0x42FA_0000,
            0x437A_0000,
            0x43FA_0000,
            0x447A_0000,
            0x44FA_0000,
            0x457A_0000,
            0x45FA_0000,
            0x467A_0000,
        ];
        let num_bands = frequencies.len();
        let q_values: Vec<u32> = vec![DEFAULT_Q; num_bands];
        assert(frequencies@ =~= default_frequencies());
        assert(q_values@ =~= Seq::new(default_frequencies().len(), |i: int| DEFAULT_Q));
        Equalizer::with_bands(sample_rate, frequencies, q_values)
    }

    /// An equalizer with one band per centre frequency, in the order given,
    /// all gains flat and every section the identity filter. The sample rate
    /// must be a number greater than zero, and there must be one quality
    /// factor per frequency.
    pub fn with_bands(sample_rate: u32, frequencies: Vec<u32>, q_values: Vec<u32>) -> (result:
        Result<Equalizer, ConfigurationError>)
        ensures
            match result {
                Ok(equalizer) => {
                    &&& is_positive(sample_rate)
                    &&& q_values@.len() == frequencies@.len()
                    &&& equalizer@ == initial(sample_rate, frequencies@, q_values@)
                    &&& equalizer@.wf()
                },
                Err(ConfigurationError::SampleRate) => !is_positive(sample_rate),
                Err(ConfigurationError::BandCount { expected, actual }) => {
                    &&& is_positive(sample_rate)
                    &&& expected == frequencies@.len()
                    &&& actual == q_values@.len()
                    &&& expected != actual
                },
            },
    {
        if sample_rate == ZERO || sample_rate > INFINITY {
            return Err(ConfigurationError::SampleRate);
        }
        let num_bands = frequencies.len();
        if q_values.len() != num_bands {
            return Err(
                ConfigurationError::BandCount { expected: num_bands, actual: q_values.len() },
            );
        }
        let filters: Vec<BiquadFilter> = vec![BiquadFilter::new(); num_bands];
        let gains: Vec<u32> = vec![ZERO; num_bands];
        let equalizer = Equalizer { filters, sample_rate, frequencies, gains, q_values };
        assert(equalizer@.filters =~= initial(sample_rate, frequencies@, q_values@).filters);
        assert(equalizer@.gains =~= flat(frequencies@.len()));
        Ok(equalizer)
    }

    /// Stores `gains` and retunes every band to its new gain. A vector that
    /// does not hold one gain per band is ignored: nothing changes.
    pub fn set_gains<U: Fn(Operation, u32, u32) -> u32>(&mut self, gains: Vec<u32>, unit: &U)
        requires
            is_arithmetic(unit),
        ensures
            gains@.len() == old(self)@.band_count() ==> final(self)@ == old(self)@.retuned(
                unit,
                gains@,
            ),
            gains@.len() != old(self)@.band_count() ==> final(self)@ == old(self)@,
            final(self)@.wf(),
    {
        proof {
            use_type_invariant(&*self);
        }
        if gains.len() == self.gains.len() {
            self.gains = gains;
            let n = self.filters.len();
            let mut i: usize = 0;
            while i < n
                invariant
                    is_arithmetic(unit),
                    i <= n,
                    n == self.filters.len(),
                    n == old(self).filters.len(),
                    old(self)@.wf(),
                    self@.wf(),
                    self.gains@ == gains@,
                    self.frequencies == old(self).frequencies,
                    self.q_values == old(self).q_values,
                    self.sample_rate == old(self).sample_rate,
                    forall|j: int|
                        0 <= j < i ==> self.filters@[j] == old(self)@.retuned(
                            unit,
                            gains@,
                        ).filters[j],
                    forall|j: int| i <= j < n ==> self.filters@[j] == old(self).filters@[j],
                decreases n - i,
            {
                let frequency = self.frequencies[i];
                let quality_factor = self.q_values[i];
                let gain_db = self.gains[i];
                let sample_rate = self.sample_rate;
                self.filters[i].set_peaking_eq(
                    frequency,
                    quality_factor,
                    gain_db,
                    sample_rate,
                    unit,
                );
                i += 1;
            }
            assert(self@.filters =~= old(self)@.retuned(unit, gains@).filters);
        }
    }

    /// Streams `input` through the bank. Each sample passes through the
    /// sections in the order of their bands, the output of one being the
    /// input of the next, and what leaves the last section is the output for
    /// that sample. The result holds one output per input sample, in order.
    pub fn process_audio<U: Fn(Operation, u32, u32) -> u32>(
        &mut self,
        input: &[u32],
        unit: &U,
    ) -> (output: Vec<u32>)
        requires
            is_arithmetic(unit),
        ensures
            output@.len() == input@.len(),
            output@ == old(self)@.output(unit, input@),
            final(self)@ == old(self)@.streamed(unit, input@),
            final(self)@.wf(),
    {
        proof {
            use_type_invariant(&*self);
        }
        let count = input.len();
        let bands = self.filters.len();
        let mut output: Vec<u32> = Vec::with_capacity(count);
        let mut k: usize = 0;
        while k < count
            invariant
                is_arithmetic(unit),
                k <= count,
                count == input@.len(),
                bands == self.filters.len(),
                self@.wf(),
                self.gains == old(self).gains,
                self.frequencies == old(self).frequencies,
                self.q_values == old(self).q_values,
                self.sample_rate == old(self).sample_rate,
                self.filters@ == stream_after(unit, old(self).filters@, input@, k as int),
                output@.len() == k,
                forall|m: int|
                    0 <= m < k ==> output@[m] == cascade_output(
                        unit,
                        stream_after(unit, old(self).filters@, input@, m),
                        input@[m],
                    ),
            decreases count - k,
        {
            let ghost before = self.filters@;
            let sample = input[k];
            let mut processed = sample;
            let mut j: usize = 0;
            while j < bands
                invariant
                    is_arithmetic(unit),
                    j <= bands,
                    bands == self.filters.len(),
                    bands == before.len(),
                    self@.wf(),
                    self.gains == old(self).gains,
                    self.frequencies == old(self).frequencies,
                    self.q_values == old(self).q_values,
                    self.sample_rate == old(self).sample_rate,
                    processed == signal_at(unit, before, j as int, sample),
                    forall|i: int|
                        0 <= i < j ==> self.filters@[i] == cascade_after(unit, before, sample)[i],
                    forall|i: int| j <= i < bands ==> self.filters@[i] == before[i],
                decreases bands - j,
            {
                processed = self.filters[j].process(processed, unit);
                j += 1;
            }
            assert(self.filters@ =~= cascade_after(unit, before, sample));
            output.push(processed);
            k += 1;
        }
        assert(output@ =~= old(self)@.output(unit, input@));
        output
    }

    /// Silences all history and flattens all gains: replaces every section by
    /// a fresh one, then retunes every band at zero decibels.
    pub fn reset<U: Fn(Operation, u32, u32) -> u32>(&mut self, unit: &U)
        requires
            is_arithmetic(unit),
        ensures
            final(self)@ == old(self)@.reset(unit),
            final(self)@.wf(),
    {
        proof {
            use_type_invariant(&*self);
        }
        let n = self.filters.len();
        let mut i: usize = 0;
        while i < n
            invariant
                i <= n,
                n == self.filters.len(),
                self@.wf(),
                self.gains == old(self).gains,
                self.frequencies == old(self).frequencies,
                self.q_values == old(self).q_values,
                self.sample_rate == old(self).sample_rate,
                forall|j: int| 0 <= j < i ==> self.filters@[j] == BiquadFilter::identity(),
            decreases n - i,
        {
            self.filters[i] = BiquadFilter::new();
            i += 1;
        }
        assert(self@.filters =~= old(self)@.cleared().filters);
        let zeros: Vec<u32> = vec![ZERO; self.gains.len()];
        assert(zeros@ =~= flat(old(self)@.band_count()));
        self.set_gains(zeros, unit);
    }

    /// The number of bands.
    pub fn band_count(&self) -> (n: usize)
        ensures
            n == self@.band_count(),
            self@.wf(),
    {
        proof {
            use_type_invariant(self);
        }
        self.filters.len()
    }

    /// The sample rate.
    pub fn sample_rate(&self) -> (rate: u32)
        ensures
            rate == self@.sample_rate,
    {
        self.sample_rate
    }

    /// The centre frequency of each band.
    pub fn frequencies(&self) -> (frequencies: &[u32])
        ensures
            frequencies@ == self@.frequencies,
    {
        self.frequencies.as_slice()
    }

    /// The quality factor of each band.
    pub fn q_values(&self) -> (q_values: &[u32])
        ensures
            q_values@ == self@.q_values,
    {
        self.q_values.as_slice()
    }

    /// The gain of each band, in decibels.
    pub fn gains(&self) -> (gains: &[u32])
        ensures
            gains@ == self@.gains,
    {
        self.gains.as_slice()
    }

    /// The section of each band, in cascade order.
    pub fn filters(&self) -> (filters: &[BiquadFilter])
        ensures
            filters@ == self@.filters,
    {
        self.filters.as_slice()
    }
}

} // verus!
