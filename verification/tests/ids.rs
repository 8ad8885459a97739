use book_manager::kernel::model::id::{BookId, CheckoutId, UserId};
use book_manager::kernel::model::time::Timestamp;

const MARKS: u128 = 0x0000_0000_0000_f000_c000_0000_0000_0000;
const RANDOM: u128 = 0x0000_0000_0000_4000_8000_0000_0000_0000;

#[test]
fn fresh_ids_are_random_uuids() {
    let mut seen = Vec::new();
    for _ in 0..50 {
        for id in [BookId::new().0, CheckoutId::new().0, UserId::new().0] {
            assert_eq!(id & MARKS, RANDOM);
            assert_ne!(id, 0);
            assert!(!seen.contains(&id));
            seen.push(id);
        }
    }
}

#[test]
fn a_fresh_id_reads_as_a_version_four_uuid() {
    let id = CheckoutId::new();
    let uuid = uuid::Uuid::from_u128(id.0);
    assert_eq!(uuid.get_version_num(), 4);
    assert_eq!(uuid.as_u128(), id.0);
}

#[test]
fn the_clock_shows_a_time_after_the_epoch() {
    let first = Timestamp::now();
    assert!(first.0 > 1_600_000_000_000_000);
    assert!(Timestamp::now().0 > 1_600_000_000_000_000);
}
