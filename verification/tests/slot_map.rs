use sdl3_gs::slot_map::{SlotMap, SlotMapRefCell};

#[test]
fn fresh_inserts_use_increasing_indices() {
    let mut m: SlotMap<&str> = SlotMap::default();
    let a = m.insert("a");
    let b = m.insert("b");
    let c = m.insert("c");
    assert_eq!((a, b, c), (0, 1, 2));
}

#[test]
fn removed_slot_is_reused_by_next_insert() {
    let mut m: SlotMap<&str> = SlotMap::default();
    let a = m.insert("a");
    let b = m.insert("b");
    let c = m.insert("c");
    assert_eq!(m.remove(b), "b");
    let d = m.insert("d");
    assert_eq!(d, b);
    let entries: Vec<(i32, &str)> = m.iter().into_iter().map(|(i, v)| (i, *v)).collect();
    assert_eq!(entries, vec![(a, "a"), (d, "d"), (c, "c")]);
}

#[test]
fn reuse_is_most_recently_freed_first() {
    let mut m: SlotMap<u32> = SlotMap::default();
    let a = m.insert(10);
    let b = m.insert(20);
    m.remove(a);
    m.remove(b);
    assert_eq!(m.insert(30), b);
    assert_eq!(m.insert(40), a);
    assert_eq!(m.insert(50), 2);
}

#[test]
fn double_free_is_detected() {
    let mut m: SlotMap<u32> = SlotMap::default();
    let a = m.insert(10);
    assert!(m.contains(a));
    assert_eq!(m.remove(a), 10);
    // The slot is free now: a second remove would be a contract violation
    // (it panics); the guard callers must test reports it.
    assert!(!m.contains(a));
}

#[test]
fn stale_handle_is_detected() {
    let mut m: SlotMap<u32> = SlotMap::default();
    let a = m.insert(10);
    m.remove(a);
    // Accessing the removed handle would be a contract violation (it
    // panics); the guard callers must test reports it.
    assert!(!m.contains(a));
    assert!(!m.contains(7));
    assert!(!m.contains(-1));
}

#[test]
fn get_and_get_mut_reach_the_stored_value() {
    let mut m: SlotMap<u32> = SlotMap::default();
    let a = m.insert(10);
    let b = m.insert(20);
    assert_eq!(*m.get(a), 10);
    *m.get_mut(b) = 25;
    assert_eq!(*m.get(b), 25);
    assert_eq!(*m.get(a), 10);
}

#[test]
fn iter_skips_free_slots_in_storage_order() {
    let mut m: SlotMap<u32> = SlotMap::default();
    let a = m.insert(1);
    let b = m.insert(2);
    let c = m.insert(3);
    m.remove(b);
    let entries: Vec<(i32, u32)> = m.iter().into_iter().map(|(i, v)| (i, *v)).collect();
    assert_eq!(entries, vec![(a, 1), (c, 3)]);
}

#[test]
fn refcell_variant_inserts_and_removes() {
    let mut m: SlotMapRefCell<u32> = SlotMapRefCell::default();
    let a = m.insert(10);
    let b = m.insert(20);
    assert_eq!((a, b), (0, 1));
    assert_eq!(m.remove(a), 10);
    assert_eq!(m.insert(30), a);
}

#[test]
fn refcell_variant_with_reads_the_value() {
    let mut m: SlotMapRefCell<u32> = SlotMapRefCell::default();
    let a = m.insert(10);
    let doubled = m.with(a, |v| *v * 2);
    assert_eq!(doubled, 20);
}

#[test]
fn refcell_variant_with_mut_replaces_the_value() {
    let mut m: SlotMapRefCell<u32> = SlotMapRefCell::default();
    let a = m.insert(10);
    let old = m.with_mut(a, |v| (v + 1, v));
    assert_eq!(old, 10);
    assert_eq!(m.with(a, |v| *v), 11);
}

#[test]
fn refcell_variant_for_each_visits_occupied_entries() {
    let mut m: SlotMapRefCell<u32> = SlotMapRefCell::default();
    let a = m.insert(1);
    let b = m.insert(2);
    let c = m.insert(3);
    m.remove(b);
    let seen: std::cell::RefCell<Vec<(i32, u32)>> = std::cell::RefCell::new(Vec::new());
    m.for_each(|i, v| seen.borrow_mut().push((i, *v)));
    assert_eq!(seen.into_inner(), vec![(a, 1), (c, 3)]);
}
