use rsvg_filters::srgb::{linearize, unlinearize, LINEARIZE, UNLINEARIZE};

fn decode(c: f64) -> f64 {
    if c <= (12.92 * 0.0031308) {
        c / 12.92
    } else {
        ((c + 0.055) / 1.055).powf(2.4)
    }
}

fn encode(c: f64) -> f64 {
    if c <= 0.0031308 {
        12.92 * c
    } else {
        1.055 * c.powf(1f64 / 2.4) - 0.055
    }
}

fn sample(f: fn(f64) -> f64) -> Vec<u8> {
    let mut table = Vec::new();
    for i in 0..=255 {
        let c = i as f64 / 255.0;
        table.push((f(c) * 255.0).round() as u8);
    }
    table
}

#[test]
fn linearize_table_samples_the_decoding_curve() {
    assert_eq!(sample(decode), LINEARIZE.to_vec());
}

#[test]
fn unlinearize_table_samples_the_encoding_curve() {
    assert_eq!(sample(encode), UNLINEARIZE.to_vec());
}

#[test]
fn curves_round_trip_within_one_step() {
    for i in 0..=255 {
        let c = i as f64 / 255.0;
        let back = (encode(decode(c)) * 255.0).round() as i32;
        assert!((back - i).abs() <= 1);
    }
}

#[test]
fn table_values() {
    assert_eq!(linearize(0), 0);
    assert_eq!(linearize(255), 255);
    assert_eq!(linearize(10), 1);
    assert_eq!(linearize(11), 1);
    assert_eq!(linearize(128), 55);
    assert_eq!(linearize(188), 128);
    assert_eq!(unlinearize(0), 0);
    assert_eq!(unlinearize(255), 255);
    assert_eq!(unlinearize(1), 13);
    assert_eq!(unlinearize(55), 128);
    assert_eq!(unlinearize(128), 188);
}

#[test]
fn tables_are_monotonic_and_ordered() {
    for c in 0..255usize {
        assert!(LINEARIZE[c] <= LINEARIZE[c + 1]);
        assert!(UNLINEARIZE[c] <= UNLINEARIZE[c + 1]);
    }
    for c in 0..=255usize {
        assert!(LINEARIZE[c] as usize <= c);
        assert!(c <= UNLINEARIZE[c] as usize);
    }
}

#[test]
fn encode_then_decode_stays_within_one_step() {
    for c in 0..=255u8 {
        let back = linearize(unlinearize(c)) as i32;
        assert!((back - c as i32).abs() <= 1);
    }
}

#[test]
fn decode_then_encode_loses_dark_values_only() {
    let mut lost = Vec::new();
    for c in 0..=255u8 {
        let back = unlinearize(linearize(c)) as i32;
        if (back - c as i32).abs() > 1 {
            lost.push(c);
        }
    }
    assert_eq!(
        lost,
        vec![
            2, 3, 4, 5, 6, 7, 8, 9, 10, 11, 15, 16, 17, 18, 19, 20, 24, 25, 26, 30, 31, 32, 36,
            40, 44, 48
        ]
    );
    assert_eq!(unlinearize(linearize(10)), 13);
    assert_eq!(unlinearize(linearize(49)), 50);
}
