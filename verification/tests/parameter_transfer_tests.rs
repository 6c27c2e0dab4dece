//! Tests for the parameter-transfer engine and the atomic float cell.

use vst::atomic_float::AtomicFloat;
use vst::parameter_transfer::{ParameterTransfer, WORD_BITS};

fn drain(t: &mut ParameterTransfer) -> Vec<(usize, f32)> {
    t.collect_changed(true)
        .into_iter()
        .map(|(i, bits)| (i, f32::from_bits(bits)))
        .collect()
}

fn peek(t: &mut ParameterTransfer) -> Vec<(usize, f32)> {
    t.collect_changed(false)
        .into_iter()
        .map(|(i, bits)| (i, f32::from_bits(bits)))
        .collect()
}

/// Round-trip: every bit pattern survives a store and a load exactly,
/// NaN payloads, signed zero and subnormals included.
#[test]
fn round_trip_bit_patterns() {
    let mut t = ParameterTransfer::new(8);
    let patterns: Vec<f32> = vec![
        1.0,
        -1.0,
        0.0,
        -0.0,
        f32::from_bits(0x7fc0_1234), // NaN with a payload
        f32::from_bits(0xffc0_0001), // negative NaN with a payload
        f32::from_bits(0x0000_0001), // smallest subnormal
        f32::MIN_POSITIVE,
    ];
    for (i, v) in patterns.iter().enumerate() {
        t.set_parameter(i, v.to_bits());
        assert_eq!(t.get_parameter(i), v.to_bits());
    }
    // Reading consumes nothing: all the values are still there.
    for (i, v) in patterns.iter().enumerate() {
        assert_eq!(t.get_parameter(i), v.to_bits());
    }
}

/// Single-writer precision: two writes to one parameter followed by an
/// acquiring iteration report the parameter once, with the second value.
#[test]
fn single_writer_precision() {
    let mut t = ParameterTransfer::new(16);
    t.set_parameter(7, 1.0f32.to_bits());
    t.set_parameter(7, 2.0f32.to_bits());
    let reported = drain(&mut t);
    assert_eq!(reported, vec![(7, 2.0f32)]);
}

/// No duplicate, increasing order: an arbitrary set of writes is reported
/// as exactly the indices written, each once, in increasing order.
#[test]
fn increasing_order_no_duplicates() {
    let mut t = ParameterTransfer::new(300);
    // Scattered over several bitmap words, written out of order, one twice.
    let writes = [200usize, 5, 64, 3, 299, 64, 63, 128, 0];
    for (k, &i) in writes.iter().enumerate() {
        t.set_parameter(i, k as u32);
    }
    let reported = t.collect_changed(true);
    let indices: Vec<usize> = reported.iter().map(|p| p.0).collect();
    assert_eq!(indices, vec![0, 3, 5, 63, 64, 128, 200, 299]);
    // Each index carries the last value written to it.
    for (i, bits) in reported {
        let last = writes.iter().enumerate().rev().find(|(_, &w)| w == i).unwrap().0;
        assert_eq!(bits, last as u32);
    }
}

/// Peek idempotence: a non-acquiring iteration leaves the bitmap
/// untouched, so repeated peeks report the same set and an acquiring
/// iteration afterwards still reports everything.
#[test]
fn peek_idempotence() {
    let mut t = ParameterTransfer::new(100);
    t.set_parameter(2, 0.25f32.to_bits());
    t.set_parameter(70, 0.5f32.to_bits());
    let first = peek(&mut t);
    let second = peek(&mut t);
    assert_eq!(first, vec![(2, 0.25f32), (70, 0.5f32)]);
    assert_eq!(first, second);
    let acquired = drain(&mut t);
    assert_eq!(acquired, first);
}

/// Drain then empty: once an acquiring iteration has drained the table, a
/// second one with no intervening writes reports nothing.
#[test]
fn drain_then_empty() {
    let mut t = ParameterTransfer::new(100);
    t.set_parameter(0, 1.5f32.to_bits());
    t.set_parameter(99, 2.5f32.to_bits());
    assert_eq!(drain(&mut t).len(), 2);
    assert_eq!(drain(&mut t), vec![]);
}

/// Bit independence: setting one parameter never sets or clears the mark
/// of another, not even one in the same bitmap word.
#[test]
fn bit_independence() {
    let mut t = ParameterTransfer::new(128);
    t.set_parameter(10, 1.0f32.to_bits());
    assert_eq!(drain(&mut t), vec![(10, 1.0f32)]);
    // 11 shares the word with 10; setting it must not resurrect 10.
    t.set_parameter(11, 3.0f32.to_bits());
    let reported = drain(&mut t);
    assert_eq!(reported, vec![(11, 3.0f32)]);
    // 10 still holds its value even though its mark is clear.
    assert_eq!(t.get_parameter(10), 1.0f32.to_bits());
}

/// Zero-length table: constructing with no parameters works, and an
/// acquiring iteration reports nothing.
#[test]
fn zero_length_table() {
    let mut t = ParameterTransfer::new(0);
    assert_eq!(t.collect_changed(true), vec![]);
    let mut it = t.iterate(true);
    assert_eq!(it.next(&mut t), None);
}

/// The cursor protocol itself: reports come one at a time, in increasing
/// index order, and acquire mode clears each mark as it is reported.
#[test]
fn cursor_steps_in_order() {
    let mut t = ParameterTransfer::new(WORD_BITS * 3);
    t.set_parameter(1, 10u32);
    t.set_parameter(64, 20u32);
    t.set_parameter(190, 30u32);
    let mut it = t.iterate(true);
    assert_eq!(it.next(&mut t), Some((1, 10u32)));
    assert_eq!(it.next(&mut t), Some((64, 20u32)));
    assert_eq!(it.next(&mut t), Some((190, 30u32)));
    assert_eq!(it.next(&mut t), None);
    let mut again = t.iterate(true);
    assert_eq!(again.next(&mut t), None);
}

/// A write that lands behind the cursor is not lost: the next iteration
/// reports it.
#[test]
fn late_write_is_reported_next_time() {
    let mut t = ParameterTransfer::new(32);
    t.set_parameter(4, 1.0f32.to_bits());
    t.set_parameter(9, 2.0f32.to_bits());
    let mut it = t.iterate(true);
    assert_eq!(it.next(&mut t), Some((4, 1.0f32.to_bits())));
    // The cursor is already past index 2 when this write arrives.
    t.set_parameter(2, 4.0f32.to_bits());
    assert_eq!(it.next(&mut t), Some((9, 2.0f32.to_bits())));
    assert_eq!(it.next(&mut t), None);
    // Nothing is ever lost: the late write shows up in the next pass.
    assert_eq!(drain(&mut t), vec![(2, 4.0f32)]);
}

/// The atomic float cell stores and returns exact bit patterns.
#[test]
fn atomic_float_cell() {
    let mut c = AtomicFloat::new(0.5f32.to_bits());
    assert_eq!(c.get(), 0.5f32.to_bits());
    c.set((-0.0f32).to_bits());
    assert_eq!(c.get(), 0x8000_0000);
    let d = AtomicFloat::default();
    assert_eq!(f32::from_bits(d.get()), 0.0f32);
    let nan_bits = 0x7fc0_0042u32;
    c.set(nan_bits);
    assert_eq!(c.get(), nan_bits);
}

/// Many interleaved writes and drains never lose the last value written:
/// after a final drain, the values recorded from the reports equal the
/// true final value of every parameter.
#[test]
fn interleaved_stress_no_lost_update() {
    const PARAMETERS: usize = 1000;
    const UPDATES: usize = 100_000;
    let mut t = ParameterTransfer::new(PARAMETERS);
    let mut shadow = vec![0f32; PARAMETERS];
    let mut seen = vec![0f32; PARAMETERS];
    // A small linear congruential generator keeps the test deterministic.
    let mut state: u64 = 0x853c_49e6_748f_ea9b;
    let mut next = move || {
        state = state.wrapping_mul(6364136223846793005).wrapping_add(1442695040888963407);
        (state >> 33) as u32
    };
    for step in 0..UPDATES {
        let p = next() as usize % PARAMETERS;
        let v = (next() % 10_000) as f32 / 10_000.0;
        shadow[p] = v;
        t.set_parameter(p, v.to_bits());
        // Drain every so often, in peek mode one time in four.
        if step % 97 == 0 {
            let acquire = next() % 4 != 0;
            let mut last_p: isize = -1;
            for (p, bits) in t.collect_changed(acquire) {
                assert!(p as isize > last_p);
                last_p = p as isize;
                seen[p] = f32::from_bits(bits);
            }
        }
    }
    for (p, bits) in t.collect_changed(true) {
        seen[p] = f32::from_bits(bits);
    }
    assert!(t.collect_changed(true).is_empty());
    for p in 0..PARAMETERS {
        assert_eq!(seen[p].to_bits(), shadow[p].to_bits());
    }
}
