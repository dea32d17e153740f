use xiangqi::tt::{Bound, TranspositionTable};
use xiangqi::xiangqi::Move;

#[test]
fn store_and_probe() {
    let mut tt = TranspositionTable::new(1);
    let hash: u64 = 0x1234_5678_9ABC_DEF0 ^ 0x0F0F_0F0F_0F0F_0F0F;
    let mv = Move::from_iccs("h2e2").unwrap();

    tt.store(hash, Some(mv), 42, 5, Bound::Exact);
    let entry = tt.probe(hash).expect("should find stored entry");
    assert_eq!(entry.best_move, Some(mv));
    assert_eq!(entry.score, 42);
    assert_eq!(entry.depth, 5);
    assert_eq!(entry.bound, Bound::Exact);
}

#[test]
fn probe_returns_none_for_unknown() {
    let tt = TranspositionTable::new(1);
    assert!(tt.probe(0x123456789ABCDEF0).is_none());
}

#[test]
fn deeper_entry_replaces_shallower() {
    let mut tt = TranspositionTable::new(1);
    let hash = 0xDEADBEEF_CAFEBABE;

    tt.store(hash, None, 10, 3, Bound::Lower);
    tt.store(hash, None, 20, 5, Bound::Exact);

    let entry = tt.probe(hash).unwrap();
    assert_eq!(entry.score, 20);
    assert_eq!(entry.depth, 5);
}

#[test]
fn shallower_entry_does_not_replace_deeper() {
    let mut tt = TranspositionTable::new(1);
    let hash = 0xDEADBEEF_CAFEBABE;

    tt.store(hash, None, 20, 8, Bound::Exact);
    tt.store(hash, None, 10, 3, Bound::Lower);

    let entry = tt.probe(hash).unwrap();
    assert_eq!(entry.score, 20, "deeper entry should be preserved");
    assert_eq!(entry.depth, 8);
}

#[test]
fn clear_removes_all_entries() {
    let mut tt = TranspositionTable::new(1);
    let hash = 0xFEEDFACE_12345678;
    tt.store(hash, None, 100, 10, Bound::Exact);
    assert!(tt.probe(hash).is_some());
    tt.clear();
    assert!(tt.probe(hash).is_none());
}

#[test]
fn one_megabyte_table_has_power_of_two_slots() {
    let tt = TranspositionTable::new(1);
    let n = tt.capacity();
    assert!(n.is_power_of_two());
    assert!(n > 1);
}

#[test]
fn colliding_slot_with_other_key_is_a_miss() {
    let mut tt = TranspositionTable::new(1);
    let n = tt.capacity() as u64;
    let a: u64 = 5;
    let b: u64 = a + (1u64 << 32) * 3;
    assert_eq!(a & (n - 1), b & (n - 1));
    tt.store(a, None, 7, 2, Bound::Upper);
    assert!(tt.probe(b).is_none());
    assert_eq!(tt.probe(a).unwrap().score, 7);
}
