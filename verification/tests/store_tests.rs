use fh6_tel::store::merged_best;

fn t(x: f32) -> u32 {
    x.to_bits()
}

fn close_twice(first: f32, second: f32) -> Option<f32> {
    let after_first = merged_best(None, t(first));
    merged_best(after_first, t(second)).map(f32::from_bits)
}

#[test]
fn merged_best_keeps_better_stored_lap() {
    // Worse lap after a rewind: the existing best is kept.
    assert_eq!(close_twice(65.5, 70.0), Some(65.5));
}

#[test]
fn merged_best_takes_faster_lap() {
    assert_eq!(close_twice(65.5, 60.0), Some(60.0));
}

#[test]
fn merged_best_ignores_no_lap_marker() {
    // -1.0 means no lap was recorded after the rewind.
    assert_eq!(close_twice(65.5, -1.0), Some(65.5));
    assert_eq!(merged_best(None, t(-1.0)), None);
    assert_eq!(merged_best(None, t(0.0)), None);
    assert_eq!(merged_best(None, f32::NAN.to_bits()), None);
    assert_eq!(merged_best(None, t(78.5)), Some(t(78.5)));
}
