use maestro::engine::midi;
use maestro::number::Single;

fn single(x: f32) -> Single {
    Single::from_bits(x.to_bits())
}

fn midi_cc(min: f32, max: f32, value: f32) -> u8 {
    midi::midi_cc(single(min), single(max), single(value))
}

#[test]
fn mapping_unit_range() {
    assert_eq!(midi_cc(0.0, 1.0, 0.0), 0);
    assert_eq!(midi_cc(0.0, 1.0, 0.5), 64);
    assert_eq!(midi_cc(0.0, 1.0, 1.0), 127);
}

#[test]
fn mapping_clamps_out_of_range() {
    assert_eq!(midi_cc(0.0, 1.0, -1.0), 0);
    assert_eq!(midi_cc(0.0, 1.0, 2.0), 127);
}

#[test]
fn mapping_negative_db_range() {
    assert_eq!(midi_cc(-20.0, 0.0, -20.0), 0);
    assert_eq!(midi_cc(-20.0, 0.0, -10.0), 64);
    assert_eq!(midi_cc(-20.0, 0.0, 0.0), 127);
}

/// The exact mapping agrees with the rounded float formula on a sweep of
/// ordinary values.
#[test]
fn mapping_agrees_with_float_formula_on_sweep() {
    let ranges = [(0.0f32, 1.0f32), (-1.0, 1.0), (-20.0, 0.0), (20.0, 999.0), (1.0, 0.0)];
    for (min, max) in ranges {
        for step in -40..=440 {
            let value = min + (max - min) * (step as f32) / 400.0;
            let norm = (value - min) / (max - min);
            let expected = (norm.clamp(0.0, 1.0) * 127.0).round() as u8;
            let got = midi_cc(min, max, value);
            let exact = ((value as f64 - min as f64) / (max as f64 - min as f64)).clamp(0.0, 1.0)
                * 127.0;
            let near_half = (exact - exact.floor() - 0.5).abs() < 1e-4;
            assert!(got == expected || near_half, "{min} {max} {value}: {got} vs {expected}");
        }
    }
}

#[test]
fn mapping_of_missing_numbers_is_zero() {
    assert_eq!(midi_cc(0.0, 1.0, f32::NAN), 0);
    assert_eq!(midi_cc(f32::NAN, 1.0, 0.5), 0);
    assert_eq!(midi_cc(0.0, f32::NAN, 0.5), 0);
    assert_eq!(midi_cc(0.0, f32::INFINITY, 0.5), 0);
    assert_eq!(midi_cc(f32::NEG_INFINITY, 1.0, 0.5), 0);
}

#[test]
fn mapping_of_infinite_value_is_an_end() {
    assert_eq!(midi_cc(0.0, 1.0, f32::INFINITY), 127);
    assert_eq!(midi_cc(0.0, 1.0, f32::NEG_INFINITY), 0);
    assert_eq!(midi_cc(1.0, 0.0, f32::NEG_INFINITY), 127);
    assert_eq!(midi_cc(1.0, 0.0, f32::INFINITY), 0);
}

#[test]
fn mapping_on_a_range_without_width() {
    assert_eq!(midi_cc(1.0, 1.0, 2.0), 127);
    assert_eq!(midi_cc(1.0, 1.0, 1.0), 0);
    assert_eq!(midi_cc(1.0, 1.0, 0.5), 0);
    assert_eq!(midi_cc(0.0, -0.0, 1.0), 0);
    assert_eq!(midi_cc(0.0, -0.0, -1.0), 127);
}

#[test]
fn mapping_on_far_apart_exponents() {
    let huge = 2.0f32.powi(100);
    let tiny = f32::from_bits(1);
    assert_eq!(midi_cc(0.0, huge, huge / 2.0), 64);
    assert_eq!(midi_cc(0.0, huge, huge / 4.0), 32);
    assert_eq!(midi_cc(tiny, 1.0, 0.5), 63);
    assert_eq!(midi_cc(-tiny, 1.0, 0.5), 64);
    assert_eq!(midi_cc(-tiny, tiny, 0.0), 64);
    assert_eq!(midi_cc(0.0, f32::MAX, tiny), 0);
    assert_eq!(midi_cc(huge, huge * 2.0, 1.0), 0);
    assert_eq!(midi_cc(-huge, huge, tiny), 64);
    assert_eq!(midi_cc(-huge, huge, -tiny), 63);
    assert_eq!(midi_cc(-f32::MAX, f32::MAX, 0.0), 64);
}

/// The exact value of a finite number, as a whole count of steps of 2^-149.
/// The numbers of this test have exponents close enough for 128 bits.
fn steps(x: f32) -> i128 {
    let bits = x.to_bits();
    let exponent = (bits >> 23) & 0xFF;
    let fraction = (bits & 0x7F_FFFF) as i128;
    let magnitude = if exponent == 0 {
        fraction
    } else {
        (0x80_0000 + fraction) << (exponent - 1)
    };
    if bits >> 31 == 1 {
        -magnitude
    } else {
        magnitude
    }
}

fn reference(min: f32, max: f32, value: f32) -> u8 {
    let mut a = steps(value) - steps(min);
    let mut b = steps(max) - steps(min);
    if b < 0 {
        a = -a;
        b = -b;
    }
    if a <= 0 {
        0
    } else if a >= b {
        127
    } else {
        ((254 * a + b) / (2 * b)) as u8
    }
}

#[test]
fn mapping_agrees_with_wide_integer_arithmetic() {
    let mut seed: u64 = 0x9E37_79B9_7F4A_7C15;
    let mut next = move || {
        seed = seed.wrapping_mul(6364136223846793005).wrapping_add(1442695040888963407);
        (seed >> 32) as u32
    };
    for round in 0..6000 {
        // Exponent fields from 0 to 60: subnormals up to 2^-89.
        let spread = 1 + (round % 60) as u32;
        let mut draw = || {
            let r = next();
            let exponent = (next() % spread) << 23;
            f32::from_bits((r & 0x807F_FFFF) | exponent)
        };
        let (min, max, value) = (draw(), draw(), draw());
        if steps(min) == steps(max) {
            continue;
        }
        assert_eq!(midi_cc(min, max, value), reference(min, max, value), "{min:e} {max:e} {value:e}");
        let between = f32::from_bits(min.to_bits() ^ ((max.to_bits() ^ min.to_bits()) & 0x0000_FFFF));
        assert_eq!(
            midi_cc(min, max, between),
            reference(min, max, between),
            "{min:e} {max:e} {between:e}"
        );
    }
}

/// The patterns from `from` up to `to`, with about `count` of them picked.
fn patterns(from: f32, to: f32, count: u32) -> Vec<f32> {
    // Negative patterns run backwards; the key runs with the value.
    let key = |x: f32| {
        let bits = x.to_bits();
        if bits >> 31 == 1 {
            -((bits & 0x7FFF_FFFF) as i64)
        } else {
            bits as i64
        }
    };
    let (low, high) = (key(from), key(to));
    let step = ((high - low) / count as i64).max(1);
    let mut picked = vec![];
    let mut k = low;
    while k <= high {
        picked.push(if k < 0 { f32::from_bits(0x8000_0000 | (-k) as u32) } else { f32::from_bits(k as u32) });
        k += step + (k.rem_euclid(7));
    }
    picked.push(to);
    picked
}

#[test]
fn mapping_is_monotonic_on_a_sweep() {
    for (min, max) in [(0.0f32, 1.0f32), (-1.0, 1.0), (-20.0, 0.0), (3.0, 3.0000005)] {
        let mut last = 0u8;
        let mut before = f32::NEG_INFINITY;
        for value in patterns(min - 0.5, max + 0.5, 4000) {
            assert!(value >= before);
            before = value;
            let cc = midi_cc(min, max, value);
            assert!(cc >= last, "{min} {max} {value}");
            last = cc;
            let falling = midi_cc(max, min, value);
            assert!(cc + falling == 127 || cc + falling == 128, "{max} {min} {value}");
        }
        assert_eq!(last, 127);
        let mut last = 127u8;
        for value in patterns(min - 0.5, max + 0.5, 4000) {
            let cc = midi_cc(max, min, value);
            assert!(cc <= last, "{max} {min} {value}");
            last = cc;
        }
        assert_eq!(last, 0);
    }
}
