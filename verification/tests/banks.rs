use parametric_eq::{BiquadFilter, ConfigurationError, Equalizer, Operation};

/// Binary32 arithmetic as the machine does it.
fn ieee(op: Operation, a: u32, b: u32) -> u32 {
    let x = f32::from_bits(a);
    let y = f32::from_bits(b);
    let r = match op {
        Operation::Add => x + y,
        Operation::Sub => x - y,
        Operation::Mul => x * y,
        Operation::Div => x / y,
        Operation::Sin => x.sin(),
        Operation::Cos => x.cos(),
        Operation::Pow => x.powf(y),
    };
    r.to_bits()
}

/// A unit that is no arithmetic at all: every operation mixes its operands
/// in its own way, so that a result shows which operations were applied to
/// which operands in which order.
fn tracer(op: Operation, a: u32, b: u32) -> u32 {
    let (p, q, k): (u32, u32, u32) = match op {
        Operation::Add => (3, 5, 1),
        Operation::Sub => (7, 11, 2),
        Operation::Mul => (13, 17, 3),
        Operation::Div => (19, 23, 4),
        Operation::Sin => (29, 0, 5),
        Operation::Cos => (31, 0, 6),
        Operation::Pow => (37, 41, 7),
    };
    a.wrapping_mul(p).wrapping_add(b.wrapping_mul(q)).wrapping_add(k)
}

fn bits(values: &[f32]) -> Vec<u32> {
    values.iter().map(|v| v.to_bits()).collect()
}

fn numbers(encodings: &[u32]) -> Vec<f32> {
    encodings.iter().map(|e| f32::from_bits(*e)).collect()
}

fn equalizer(sample_rate: f32) -> Equalizer {
    Equalizer::new(sample_rate.to_bits()).unwrap()
}

fn stream(equalizer: &mut Equalizer, input: &[f32]) -> Vec<f32> {
    numbers(&equalizer.process_audio(&bits(input), &ieee))
}

/// A signal with no pattern to it, between -1 and 1.
fn noise(len: usize) -> Vec<f32> {
    let mut state: u32 = 0x2545_F491;
    let mut signal = Vec::with_capacity(len);
    for _ in 0..len {
        state ^= state << 13;
        state ^= state >> 17;
        state ^= state << 5;
        signal.push((state >> 8) as f32 / 8_388_608.0 - 1.0);
    }
    signal
}

fn impulse(len: usize) -> Vec<f32> {
    let mut signal = vec![0.0f32; len];
    signal[0] = 1.0;
    signal
}

#[test]
fn new_equalizer_has_the_default_layout() {
    let eq = equalizer(44100.0);
    assert_eq!(eq.band_count(), 10);
    assert_eq!(f32::from_bits(eq.sample_rate()), 44100.0);
    assert_eq!(
        numbers(eq.frequencies()),
        vec![31.5, 63.0, 125.0, 250.0, 500.0, 1000.0, 2000.0, 4000.0, 8000.0, 16000.0]
    );
    assert_eq!(numbers(eq.q_values()), vec![1.41f32; 10]);
    assert_eq!(numbers(eq.gains()), vec![0.0f32; 10]);
    assert_eq!(eq.filters().to_vec(), vec![BiquadFilter::new(); 10]);
}

#[test]
fn new_rejects_a_sample_rate_that_is_not_positive() {
    for rate in [0.0f32, -0.0, -44100.0, f32::NAN, f32::NEG_INFINITY, -f32::NAN] {
        match Equalizer::new(rate.to_bits()) {
            Ok(_) => panic!("accepted {}", rate),
            Err(error) => assert_eq!(error, ConfigurationError::SampleRate),
        }
    }
    for rate in [f32::MIN_POSITIVE, 1.0e-40, 8000.0, 44100.0, 192000.0, f32::MAX, f32::INFINITY] {
        assert!(Equalizer::new(rate.to_bits()).is_ok(), "rejected {}", rate);
    }
}

#[test]
fn with_bands_keeps_the_declared_order() {
    let eq = Equalizer::with_bands(
        48000.0f32.to_bits(),
        bits(&[4000.0, 250.0, 1000.0]),
        bits(&[0.7, 1.41, 2.0]),
    )
    .unwrap();
    assert_eq!(eq.band_count(), 3);
    assert_eq!(numbers(eq.frequencies()), vec![4000.0, 250.0, 1000.0]);
    assert_eq!(numbers(eq.q_values()), vec![0.7, 1.41, 2.0]);
    assert_eq!(numbers(eq.gains()), vec![0.0; 3]);
    assert_eq!(eq.filters().to_vec(), vec![BiquadFilter::new(); 3]);
}

#[test]
fn with_bands_rejects_unequal_lengths() {
    let result =
        Equalizer::with_bands(48000.0f32.to_bits(), bits(&[250.0, 1000.0, 4000.0]), bits(&[1.0]));
    match result {
        Ok(_) => panic!("accepted one quality factor for three bands"),
        Err(error) => assert_eq!(error, ConfigurationError::BandCount { expected: 3, actual: 1 }),
    }
}

#[test]
fn with_bands_checks_the_sample_rate_first() {
    let result = Equalizer::with_bands(0.0f32.to_bits(), bits(&[250.0, 1000.0]), bits(&[1.0]));
    match result {
        Ok(_) => panic!("accepted a sample rate of zero"),
        Err(error) => assert_eq!(error, ConfigurationError::SampleRate),
    }
}

#[test]
fn with_bands_accepts_no_bands_at_all() {
    let mut eq = Equalizer::with_bands(48000.0f32.to_bits(), Vec::new(), Vec::new()).unwrap();
    assert_eq!(eq.band_count(), 0);
    let signal = noise(16);
    assert_eq!(stream(&mut eq, &signal), signal);
}

#[test]
fn process_audio_preserves_length() {
    let mut eq = equalizer(44100.0);
    eq.set_gains(bits(&[3.0, -2.0, 1.0, 0.0, 4.0, -6.0, 2.0, 0.5, -1.0, 5.0]), &ieee);
    for len in [0usize, 1, 2, 7, 4096] {
        let output = eq.process_audio(&bits(&noise(len)), &ieee);
        assert_eq!(output.len(), len);
    }
}

#[test]
fn process_audio_on_no_samples_changes_nothing() {
    let mut eq = equalizer(44100.0);
    eq.set_gains(bits(&[6.0; 10]), &ieee);
    stream(&mut eq, &noise(8));
    let before = eq.filters().to_vec();
    assert!(eq.process_audio(&[], &ieee).is_empty());
    assert_eq!(eq.filters().to_vec(), before);
}

#[test]
fn fresh_equalizer_passes_audio_through() {
    let mut eq = equalizer(44100.0);
    let signal = noise(512);
    assert_eq!(stream(&mut eq, &signal), signal);
    let steps = [0.0f32, 1.0, -1.0, 0.5, 1.0e10, -1.0e-10, 3.25];
    assert_eq!(stream(&mut eq, &steps), steps);
}

#[test]
fn process_audio_leaves_the_input_alone() {
    let mut eq = equalizer(44100.0);
    eq.set_gains(bits(&[6.0; 10]), &ieee);
    let input = bits(&noise(32));
    let copy = input.clone();
    let output = eq.process_audio(&input, &ieee);
    assert_eq!(input, copy);
    assert_ne!(output, input);
}

#[test]
fn process_audio_is_the_cascade_of_the_sections() {
    let mut eq = equalizer(48000.0);
    eq.set_gains(bits(&[1.0, -2.0, 3.0, -4.0, 5.0, -6.0, 7.0, -8.0, 9.0, -10.0]), &ieee);
    let mut sections = eq.filters().to_vec();
    let input = bits(&noise(64));
    let output = eq.process_audio(&input, &ieee);
    for (k, sample) in input.iter().enumerate() {
        let mut signal = *sample;
        for section in sections.iter_mut() {
            signal = section.process(signal, &ieee);
        }
        assert_eq!(output[k], signal, "sample {}", k);
    }
    assert_eq!(eq.filters().to_vec(), sections);
}

#[test]
fn process_audio_runs_the_bands_in_declared_order() {
    let mut eq = Equalizer::with_bands(48000, vec![100, 200], vec![2, 4]).unwrap();
    eq.set_gains(vec![3, 5], &tracer);
    let coefficients: Vec<[u32; 5]> = eq
        .filters()
        .iter()
        .map(|f| {
            let c = f.coefficients;
            [c.b0, c.b1, c.b2, c.a1, c.a2]
        })
        .collect();
    assert_eq!(
        coefficients,
        vec![
            [0xD7F5_73DB, 0x0430_4528, 0x6B41_33FA, 0x0430_4528, 0xE04B_25C5],
            [0x0474_ADAB, 0x25AA_4844, 0xBC1B_E16A, 0x25AA_4844, 0x6391_6B45],
        ]
    );
    let output = eq.process_audio(&[11, 22, 33], &tracer);
    assert_eq!(output, vec![0xD655_5921, 0xA1C2_AE8E, 0x7CD2_DFD1]);
    let histories: Vec<[u32; 4]> = eq
        .filters()
        .iter()
        .map(|f| {
            let h = f.history;
            [h.x1, h.x2, h.y1, h.y2]
        })
        .collect();
    assert_eq!(
        histories,
        vec![[0x21, 0x16, 0x559C_18D3, 0xD2B1_77A4], [
            0x559C_18D3,
            0xD2B1_77A4,
            0x7CD2_DFD1,
            0xA1C2_AE8E
        ]]
    );
}

#[test]
fn set_gains_retunes_every_band() {
    let mut eq = equalizer(44100.0);
    let gains = [3.0f32, -2.0, 1.0, 0.0, 4.0, -6.0, 2.0, 0.5, -1.0, 5.0];
    eq.set_gains(bits(&gains), &ieee);
    assert_eq!(numbers(eq.gains()), gains);
    for i in 0..10 {
        let mut alone = BiquadFilter::new();
        alone.set_peaking_eq(
            eq.frequencies()[i],
            eq.q_values()[i],
            gains[i].to_bits(),
            eq.sample_rate(),
            &ieee,
        );
        assert_eq!(eq.filters()[i], alone, "band {}", i);
        assert_ne!(eq.filters()[i].coefficients, BiquadFilter::new().coefficients);
    }
}

#[test]
fn set_gains_keeps_the_histories() {
    let mut eq = equalizer(44100.0);
    eq.set_gains(bits(&[6.0; 10]), &ieee);
    stream(&mut eq, &noise(16));
    let before = eq.filters().to_vec();
    eq.set_gains(bits(&[-3.0; 10]), &ieee);
    for i in 0..10 {
        assert_eq!(eq.filters()[i].history, before[i].history);
        assert_ne!(eq.filters()[i].coefficients, before[i].coefficients);
    }
}

#[test]
fn set_gains_of_the_wrong_length_changes_nothing() {
    let tuned = [3.0f32, -2.0, 1.0, 0.0, 4.0, -6.0, 2.0, 0.5, -1.0, 5.0];
    let mut eq = equalizer(44100.0);
    let mut twin = equalizer(44100.0);
    eq.set_gains(bits(&tuned), &ieee);
    twin.set_gains(bits(&tuned), &ieee);
    let warm_up = noise(32);
    stream(&mut eq, &warm_up);
    stream(&mut twin, &warm_up);

    let filters = eq.filters().to_vec();
    for wrong in [0usize, 1, 9, 11, 20] {
        eq.set_gains(bits(&vec![12.0; wrong]), &ieee);
        assert_eq!(numbers(eq.gains()), tuned);
        assert_eq!(eq.filters().to_vec(), filters);
    }
    let signal = noise(64);
    assert_eq!(eq.process_audio(&bits(&signal), &ieee), twin.process_audio(&bits(&signal), &ieee));
}

#[test]
fn reversed_band_order_changes_the_output() {
    let rate = 44100.0f32.to_bits();
    let mut forward =
        Equalizer::with_bands(rate, bits(&[250.0, 1000.0, 4000.0]), bits(&[1.41, 0.9, 2.0]))
            .unwrap();
    let mut backward =
        Equalizer::with_bands(rate, bits(&[4000.0, 1000.0, 250.0]), bits(&[2.0, 0.9, 1.41]))
            .unwrap();
    forward.set_gains(bits(&[6.0, -6.0, 3.0]), &ieee);
    backward.set_gains(bits(&[3.0, -6.0, 6.0]), &ieee);
    assert_eq!(forward.filters()[0].coefficients, backward.filters()[2].coefficients);
    assert_eq!(forward.filters()[1].coefficients, backward.filters()[1].coefficients);
    assert_eq!(forward.filters()[2].coefficients, backward.filters()[0].coefficients);

    let signal = bits(&noise(256));
    let one = forward.process_audio(&signal, &ieee);
    let other = backward.process_audio(&signal, &ieee);
    assert_ne!(one, other);
    // The first section alone already answers differently.
    assert_ne!(forward.filters()[0].history.y1, backward.filters()[0].history.y1);
}

#[test]
fn band_order_hardly_matters_with_one_band_off_flat() {
    let rate = 44100.0f32.to_bits();
    let mut forward =
        Equalizer::with_bands(rate, bits(&[250.0, 1000.0, 4000.0]), bits(&[1.41; 3])).unwrap();
    let mut backward =
        Equalizer::with_bands(rate, bits(&[4000.0, 1000.0, 250.0]), bits(&[1.41; 3])).unwrap();
    forward.set_gains(bits(&[0.0, 6.0, 0.0]), &ieee);
    backward.set_gains(bits(&[0.0, 6.0, 0.0]), &ieee);
    let signal = noise(64);
    let one = stream(&mut forward, &signal);
    let other = stream(&mut backward, &signal);
    let mut moved = false;
    for k in 0..signal.len() {
        assert!((one[k] - other[k]).abs() < 1.0e-3, "sample {}: {} and {}", k, one[k], other[k]);
        moved = moved || (one[k] - signal[k]).abs() > 1.0e-2;
    }
    assert!(moved);
}

#[test]
fn reset_silences_the_history_and_flattens_the_gains() {
    let mut eq = equalizer(44100.0);
    eq.set_gains(bits(&[3.0, -2.0, 1.0, 0.0, 4.0, -6.0, 2.0, 0.5, -1.0, 5.0]), &ieee);
    stream(&mut eq, &noise(64));
    eq.reset(&ieee);
    assert_eq!(numbers(eq.gains()), vec![0.0f32; 10]);
    assert_eq!(eq.band_count(), 10);
    for (i, filter) in eq.filters().iter().enumerate() {
        assert_eq!(filter.history, BiquadFilter::new().history, "band {}", i);
        let mut flat = BiquadFilter::new();
        flat.set_peaking_eq(
            eq.frequencies()[i],
            eq.q_values()[i],
            0.0f32.to_bits(),
            eq.sample_rate(),
            &ieee,
        );
        assert_eq!(filter.coefficients, flat.coefficients, "band {}", i);
    }
}

#[test]
fn reset_leaves_a_new_equalizer_set_flat() {
    let mut used = equalizer(48000.0);
    used.set_gains(bits(&[9.0; 10]), &ieee);
    stream(&mut used, &noise(128));
    used.reset(&ieee);

    let mut fresh = equalizer(48000.0);
    fresh.set_gains(bits(&[0.0; 10]), &ieee);

    assert_eq!(used.filters().to_vec(), fresh.filters().to_vec());
    assert_eq!(used.gains(), fresh.gains());
    let signal = bits(&noise(128));
    assert_eq!(used.process_audio(&signal, &ieee), fresh.process_audio(&signal, &ieee));
}

#[test]
fn reset_then_impulse_answers_as_a_new_equalizer() {
    let mut used = equalizer(44100.0);
    stream(&mut used, &[0.5, -0.25, 0.125, 1.0]);
    used.set_gains(bits(&[3.0, -2.0, 1.0, 0.0, 4.0, -6.0, 2.0, 0.5, -1.0, 5.0]), &ieee);
    stream(&mut used, &noise(64));
    used.reset(&ieee);

    let mut fresh = equalizer(44100.0);
    let expected = stream(&mut fresh, &impulse(32));
    assert_eq!(expected, impulse(32));
    assert_eq!(stream(&mut used, &impulse(32)), expected);
}

#[test]
fn flat_gains_are_transparent() {
    let mut flat = equalizer(44100.0);
    flat.set_gains(bits(&[0.0; 10]), &ieee);
    assert_ne!(flat.filters()[0].coefficients, BiquadFilter::new().coefficients);
    let mut fresh = equalizer(44100.0);
    let signal = noise(64);
    let retuned = stream(&mut flat, &signal);
    let untouched = stream(&mut fresh, &signal);
    for k in 0..signal.len() {
        assert!(
            (retuned[k] - untouched[k]).abs() < 1.0e-3,
            "sample {}: {} and {}",
            k,
            retuned[k],
            untouched[k]
        );
    }
}

#[test]
fn a_boost_changes_the_signal() {
    let mut eq = equalizer(44100.0);
    eq.set_gains(bits(&[0.0, 0.0, 0.0, 0.0, 0.0, 12.0, 0.0, 0.0, 0.0, 0.0]), &ieee);
    let signal = noise(256);
    let output = stream(&mut eq, &signal);
    let energy = |s: &[f32]| s.iter().map(|v| (*v as f64) * (*v as f64)).sum::<f64>();
    assert!(energy(&output) > 1.05 * energy(&signal));
}

#[test]
fn streaming_in_pieces_is_streaming_at_once() {
    let gains = bits(&[3.0, -2.0, 1.0, 0.0, 4.0, -6.0, 2.0, 0.5, -1.0, 5.0]);
    let mut whole = equalizer(44100.0);
    let mut pieces = equalizer(44100.0);
    let mut single = equalizer(44100.0);
    whole.set_gains(gains.clone(), &ieee);
    pieces.set_gains(gains.clone(), &ieee);
    single.set_gains(gains, &ieee);

    let signal = bits(&noise(100));
    let at_once = whole.process_audio(&signal, &ieee);

    let mut in_pieces = pieces.process_audio(&signal[..37], &ieee);
    in_pieces.extend(pieces.process_audio(&signal[37..37], &ieee));
    in_pieces.extend(pieces.process_audio(&signal[37..], &ieee));
    assert_eq!(in_pieces, at_once);
    assert_eq!(pieces.filters().to_vec(), whole.filters().to_vec());

    let mut one_by_one = Vec::new();
    for sample in &signal {
        one_by_one.extend(single.process_audio(&[*sample], &ieee));
    }
    assert_eq!(one_by_one, at_once);
}
