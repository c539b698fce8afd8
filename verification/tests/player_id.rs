use ruffle_android::player_id::{PlayerId, PlayerIdCounter};

#[test]
fn players_are_numbered_from_zero() {
    let mut counter = PlayerIdCounter::new();
    assert_eq!(PlayerId::new(&mut counter), PlayerId(0));
    assert_eq!(PlayerId::new(&mut counter), PlayerId(1));
    assert_eq!(PlayerId::new(&mut counter), PlayerId(2));
    assert_eq!(counter, PlayerIdCounter { next: 3 });
    assert!(!counter.exhausted());
}

#[test]
fn players_are_told_apart() {
    let mut counter = PlayerIdCounter::new();
    let first = PlayerId::new(&mut counter);
    let second = PlayerId::new(&mut counter);
    assert_ne!(first, second);
}

#[test]
fn last_identifier_exhausts_the_counter() {
    let mut counter = PlayerIdCounter { next: i64::MAX };
    assert!(!counter.exhausted());
    assert_eq!(PlayerId::new(&mut counter), PlayerId(i64::MAX));
    assert_eq!(counter.next, i64::MIN);
    assert!(counter.exhausted());
}
