//! A second-order recursive filter section: five coefficients and a history
//! of the two most recent inputs and outputs.

use crate::arithmetic::{
    apply, cosine, difference, is_arithmetic, power, product, quotient, sine, sum, Operation,
    FORTY, NEG_TWO, ONE, PI, TEN, TWO, ZERO,
};
use vstd::prelude::*;

verus! {

/// The coefficients of a section, normalised so that the leading feedback
/// coefficient is one and need not be stored.
#[derive(Clone, Copy, Debug, PartialEq, Eq, Structural)]
pub struct Coefficients {
    /// Feed-forward, on the current input.
    pub b0: u32,
    /// Feed-forward, on the previous input.
    pub b1: u32,
    /// Feed-forward, on the input before the previous one.
    pub b2: u32,
    /// Feedback, on the previous output.
    pub a1: u32,
    /// Feedback, on the output before the previous one.
    pub a2: u32,
}

/// What a section remembers of the signal: its two most recent inputs and
/// outputs.
#[derive(Clone, Copy, Debug, PartialEq, Eq, Structural)]
pub struct History {
    /// The previous input.
    pub x1: u32,
    /// The input before the previous one.
    pub x2: u32,
    /// The previous output.
    pub y1: u32,
    /// The output before the previous one.
    pub y2: u32,
}

/// A second-order section. Its tuning and its history are independent:
/// retuning keeps the history, and processing keeps the tuning.
#[derive(Clone, Copy, Debug, PartialEq, Eq, Structural)]
pub struct BiquadFilter {
    pub coefficients: Coefficients,
    pub history: History,
}

/// The coefficients of the filter whose output is its input.
pub open spec fn identity_coefficients() -> Coefficients {
    Coefficients { b0: ONE, b1: ZERO, b2: ZERO, a1: ZERO, a2: ZERO }
}

/// The history of a section that has seen no signal.
pub open spec fn silence() -> History {
    History { x1: ZERO, x2: ZERO, y1: ZERO, y2: ZERO }
}

/// The coefficients of the peaking filter centred on `frequency` with the
/// given quality factor and gain in decibels, at `sample_rate`:
///
/// ```text
/// omega = 2 pi frequency / sample_rate
/// alpha = sin(omega) / (2 quality_factor)
/// a     = 10 ^ (gain_db / 40)
/// b0 = (1 + alpha a) / a0    b1 = -2 cos(omega) / a0    b2 = (1 - alpha a) / a0
/// a0 =  1 + alpha / a        a1 = -2 cos(omega) / a0    a2 = (1 - alpha / a) / a0
/// ```
pub open spec fn peaking_eq<U: Fn(Operation, u32, u32) -> u32>(
    unit: &U,
    frequency: u32,
    quality_factor: u32,
    gain_db: u32,
    sample_rate: u32,
) -> Coefficients {
    let omega = quotient(unit, product(unit, product(unit, TWO, PI), frequency), sample_rate);
    let alpha = quotient(unit, sine(unit, omega), product(unit, TWO, quality_factor));
    let a = power(unit, TEN, quotient(unit, gain_db, FORTY));
    let b0 = sum(unit, ONE, product(unit, alpha, a));
    let b1 = product(unit, NEG_TWO, cosine(unit, omega));
    let b2 = difference(unit, ONE, product(unit, alpha, a));
    let a0 = sum(unit, ONE, quotient(unit, alpha, a));
    let a2 = difference(unit, ONE, quotient(unit, alpha, a));
    Coefficients {
        b0: quotient(unit, b0, a0),
        b1: quotient(unit, b1, a0),
        b2: quotient(unit, b2, a0),
        a1: quotient(unit, b1, a0),
        a2: quotient(unit, a2, a0),
    }
}

/// The output of a section with coefficients `c` and history `h` on `input`:
/// `b0 input + b1 x1 + b2 x2 - a1 y1 - a2 y2`, summed from left to right.
pub open spec fn response<U: Fn(Operation, u32, u32) -> u32>(
    unit: &U,
    c: Coefficients,
    h: History,
    input: u32,
) -> u32 {
    let forward = sum(
        unit,
        sum(unit, product(unit, c.b0, input), product(unit, c.b1, h.x1)),
        product(unit, c.b2, h.x2),
    );
    difference(
        unit,
        difference(unit, forward, product(unit, c.a1, h.y1)),
        product(unit, c.a2, h.y2),
    )
}

/// The history `h` after one more sample: `input` and `output` become the
/// most recent pair, and the oldest pair is forgotten.
pub open spec fn shifted(h: History, input: u32, output: u32) -> History {
    History { x1: input, x2: h.x1, y1: output, y2: h.y1 }
}

impl BiquadFilter {
    /// The section with no history whose output is its input.
    pub open spec fn identity() -> BiquadFilter {
        BiquadFilter { coefficients: identity_coefficients(), history: silence() }
    }

    /// What this section answers to `input`.
    pub open spec fn output<U: Fn(Operation, u32, u32) -> u32>(self, unit: &U, input: u32) -> u32 {
        response(unit, self.coefficients, self.history, input)
    }

    /// This section after it has processed `input`.
    pub open spec fn after<U: Fn(Operation, u32, u32) -> u32>(
        self,
        unit: &U,
        input: u32,
    ) -> BiquadFilter {
        BiquadFilter {
            coefficients: self.coefficients,
            history: shifted(self.history, input, self.output(unit, input)),
        }
    }

    /// This section with its coefficients replaced by `c`.
    pub open spec fn tuned(self, c: Coefficients) -> BiquadFilter {
        BiquadFilter { coefficients: c, history: self.history }
    }

    /// A fresh section: the identity filter, with no history.
    pub fn new() -> (filter: BiquadFilter)
        ensures
            filter == BiquadFilter::identity(),
    {
        BiquadFilter {
            coefficients: Coefficients { b0: ONE, b1: ZERO, b2: ZERO, a1: ZERO, a2: ZERO },
            history: History { x1: ZERO, x2: ZERO, y1: ZERO, y2: ZERO },
        }
    }

    /// Retunes the section to a peaking filter. The coefficients depend on
    /// the four parameters alone; the history is kept as it is.
    pub fn set_peaking_eq<U: Fn(Operation, u32, u32) -> u32>(
        &mut self,
        frequency: u32,
        quality_factor: u32,
        gain_db: u32,
        sample_rate: u32,
        unit: &U,
    )
        requires
            is_arithmetic(unit),
        ensures
            *final(self) == old(self).tuned(
                peaking_eq(unit, frequency, quality_factor, gain_db, sample_rate),
            ),
    {
        let two_pi = apply(unit, Operation::Mul, TWO, PI);
        let omega = apply(
            unit,
            Operation::Div,
            apply(unit, Operation::Mul, two_pi, frequency),
            sample_rate,
        );
        let alpha = apply(
            unit,
            Operation::Div,
            apply(unit, Operation::Sin, omega, ZERO),
            apply(unit, Operation::Mul, TWO, quality_factor),
        );
        let a = apply(unit, Operation::Pow, TEN, apply(unit, Operation::Div, gain_db, FORTY));

        let cos_omega = apply(unit, Operation::Cos, omega, ZERO);
        let alpha_a = apply(unit, Operation::Mul, alpha, a);
        let alpha_div_a = apply(unit, Operation::Div, alpha, a);

        let b0 = apply(unit, Operation::Add, ONE, alpha_a);
        let b1 = apply(unit, Operation::Mul, NEG_TWO, cos_omega);
        let b2 = apply(unit, Operation::Sub, ONE, alpha_a);
        let a0 = apply(unit, Operation::Add, ONE, alpha_div_a);
        let a2 = apply(unit, Operation::Sub, ONE, alpha_div_a);

        self.coefficients.b0 = apply(unit, Operation::Div, b0, a0);
        self.coefficients.b1 = apply(unit, Operation::Div, b1, a0);
        self.coefficients.b2 = apply(unit, Operation::Div, b2, a0);
        self.coefficients.a1 = self.coefficients.b1;
        self.coefficients.a2 = apply(unit, Operation::Div, a2, a0);
    }

    /// Processes one sample: answers with the section's response to it and
    /// shifts the sample and the answer into the history.
    pub fn process<U: Fn(Operation, u32, u32) -> u32>(&mut self, input: u32, unit: &U) -> (output:
        u32)
        requires
            is_arithmetic(unit),
        ensures
            output == old(self).output(unit, input),
            *final(self) == old(self).after(unit, input),
    {
        let c = self.coefficients;
        let h = self.history;
        let forward = apply(
            unit,
            Operation::Add,
            apply(
                unit,
                Operation::Add,
                apply(unit, Operation::Mul, c.b0, input),
                apply(unit, Operation::Mul, c.b1, h.x1),
            ),
            apply(unit, Operation::Mul, c.b2, h.x2),
        );
        let output = apply(
            unit,
            Operation::Sub,
            apply(unit, Operation::Sub, forward, apply(unit, Operation::Mul, c.a1, h.y1)),
            apply(unit, Operation::Mul, c.a2, h.y2),
        );

        self.history.x2 = h.x1;
        self.history.x1 = input;
        self.history.y2 = h.y1;
        self.history.y1 = output;

        output
    }
}

} // verus!
