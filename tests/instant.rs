use lagan::instant::NetworkTablesInstant;

#[test]
fn instant_micros_round_trip() {
    let t = NetworkTablesInstant::from_micros(1_234);
    assert_eq!(t.as_micros(), 1_234);
}

#[test]
fn instant_checked_add_and_overflow() {
    let t = NetworkTablesInstant::from_micros(10);
    assert_eq!(t.checked_add(5).map(|i| i.as_micros()), Some(15));
    let late = NetworkTablesInstant::from_micros(u64::MAX - 1);
    assert_eq!(late.checked_add(1).map(|i| i.as_micros()), Some(u64::MAX));
    assert!(late.checked_add(2).is_none());
}

#[test]
fn instant_checked_sub_and_underflow() {
    let t = NetworkTablesInstant::from_micros(10);
    assert_eq!(t.checked_sub(10).map(|i| i.as_micros()), Some(0));
    assert!(t.checked_sub(11).is_none());
}

#[test]
fn instant_durations_between() {
    let early = NetworkTablesInstant::from_micros(100);
    let late = NetworkTablesInstant::from_micros(350);
    assert_eq!(late.duration_since(early), 250);
    assert_eq!(late.checked_duration_since(early), Some(250));
    assert_eq!(early.checked_duration_since(late), None);
    assert_eq!(late.saturating_duration_since(early), 250);
    assert_eq!(early.saturating_duration_since(late), 0);
}

#[test]
fn instant_elapsed_until_now() {
    let start = NetworkTablesInstant::from_micros(1_000);
    assert_eq!(start.elapsed(NetworkTablesInstant::from_micros(1_500)), 500);
    assert_eq!(start.elapsed(NetworkTablesInstant::from_micros(900)), 0);
}

#[test]
fn instant_ordering() {
    let a = NetworkTablesInstant::from_micros(1);
    let b = NetworkTablesInstant::from_micros(2);
    assert!(a < b);
    assert_eq!(a, NetworkTablesInstant::from_micros(1));
}
