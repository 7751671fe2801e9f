use uptime_check::backoff::Backoff;

#[test]
fn fresh_record_is_eligible_immediately() {
    let b = Backoff::at_instant(5, 1_000_000);
    assert_eq!(b.get_date(), 1_000_000);
    assert_eq!(b.get_time(), 5);
}

#[test]
fn with_time_seeds_the_step() {
    let b = Backoff::with_time(7);
    assert_eq!(b.get_time(), 7);
}

#[test]
fn advance_adds_step_minutes_plus_pad() {
    let mut b = Backoff::at_instant(5, 1_000_000);
    b.increment_by_factor();
    assert_eq!(b.get_date(), 1_000_000 + 5 * 60 + 2);
    assert_eq!(b.get_time(), 6);
}

#[test]
fn advance_at_step_zero_still_moves_forward() {
    let mut b = Backoff::at_instant(0, 500);
    b.increment_by_factor();
    assert_eq!(b.get_date(), 502);
    assert_eq!(b.get_time(), 1);
}

#[test]
fn encode_decode_round_trip() {
    let b = Backoff::at_instant(42, 1_700_000_123);
    let bytes = b.encode();
    assert_eq!(bytes.len(), 16);
    let back = Backoff::decode(&bytes).expect("a fresh encoding must decode");
    assert_eq!(back, b);
}

#[test]
fn decode_rejects_wrong_length() {
    assert_eq!(Backoff::decode(&[]), None);
    assert_eq!(Backoff::decode(&[1, 2, 3]), None);
    assert_eq!(Backoff::decode(&[0u8; 15]), None);
    assert_eq!(Backoff::decode(&[0u8; 17]), None);
}

#[test]
fn decode_reads_little_endian_fields() {
    let mut bytes = vec![0u8; 16];
    bytes[0] = 2; // date = 258
    bytes[1] = 1;
    bytes[8] = 9; // time = 9
    let b = Backoff::decode(&bytes).unwrap();
    assert_eq!(b.get_date(), 258);
    assert_eq!(b.get_time(), 9);
}

#[test]
fn clock_reads_a_plausible_instant() {
    // Well after 2001-09-09 (epoch second 1_000_000_000): the clock wrapper
    // must hand back the real time, not a stand-in.
    assert!(uptime_check::backoff::now_seconds() > 1_000_000_000);
}
