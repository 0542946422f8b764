use wtimer::time::Duration;

#[test]
fn seconds_round_trip() {
    for s in [0u64, 1, 59, 60, 61, 3599, 3600, 3661, 4500, 86400, u64::MAX] {
        assert_eq!(Duration::from_secs(s).into_secs(), s);
    }
}

#[test]
fn decompose_4500() {
    let d = Duration::from_secs(4500);
    assert_eq!(d.hrs(), 1);
    assert_eq!(d.mins(), 15);
    assert_eq!(d.secs(), 0);
    assert_eq!(d.as_mins(), 75);
}

#[test]
fn from_minutes_total() {
    assert_eq!(Duration::from_minutes(25).into_secs(), 1500);
    assert_eq!(Duration::from_minutes(0).into_secs(), 0);
    assert_eq!(Duration::from_minutes(90).as_mins(), 90);
}

#[test]
fn from_parts_canonicalizes() {
    let d = Duration::from_parts(1, 15, 0).unwrap();
    assert_eq!(d.into_secs(), 4500);
    let d = Duration::from_parts(0, 75, 0).unwrap();
    assert_eq!(d.into_secs(), 4500);
    assert_eq!(d.hrs(), 1);
    assert_eq!(d.mins(), 15);
    assert_eq!(d.secs(), 0);
    let d = Duration::from_parts(0, 0, 3661).unwrap();
    assert_eq!(d.hrs(), 1);
    assert_eq!(d.mins(), 1);
    assert_eq!(d.secs(), 1);
}

#[test]
fn from_parts_overflow_fails() {
    assert!(Duration::from_parts(u64::MAX, 0, 0).is_none());
    assert!(Duration::from_parts(u64::MAX / 3600, 0, u64::MAX % 3600 + 1).is_none());
    assert!(Duration::from_parts(u64::MAX / 3600, 0, u64::MAX % 3600).is_some());
}

#[test]
fn addition_totals() {
    let a = Duration::from_secs(100);
    let b = Duration::from_secs(50);
    assert_eq!(a.checked_add(b).unwrap().into_secs(), 150);
    assert_eq!(b.checked_add(a).unwrap().into_secs(), 150);
}

#[test]
fn addition_commutes_and_associates() {
    let a = Duration::from_secs(4500);
    let b = Duration::from_secs(59);
    let c = Duration::from_secs(86400);
    assert_eq!(a.checked_add(b), b.checked_add(a));
    let left = a.checked_add(b).unwrap().checked_add(c).unwrap();
    let right = a.checked_add(b.checked_add(c).unwrap()).unwrap();
    assert_eq!(left, right);
}

#[test]
fn addition_overflow_fails() {
    let big = Duration::from_secs(u64::MAX);
    let one = Duration::from_secs(1);
    assert!(big.checked_add(one).is_none());
    assert!(one.checked_add(big).is_none());
    assert!(big.checked_add(Duration::from_secs(0)).is_some());
}
