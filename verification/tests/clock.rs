use speekr::clock::{nanos_or_zero, unique_id};

#[test]
fn clock_reading_or_zero() {
    assert_eq!(nanos_or_zero(Some(1_700_000_000_000_000_000)), 1_700_000_000_000_000_000);
    assert_eq!(nanos_or_zero(None), 0);
}

#[test]
fn unique_id_reads_the_clock() {
    let first = unique_id();
    assert!(first > 0);
}
