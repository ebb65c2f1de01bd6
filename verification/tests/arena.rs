use hot::arena::Arena;
use hot::arena::Handle;

#[test]
fn insert_then_get_returns_value() {
    let mut arena: Arena<u32> = Arena::new();
    assert!(arena.is_empty());
    let h = arena.insert(41);
    assert_eq!(arena.len(), 1);
    assert_eq!(arena.get(h), Some(&41));
}

#[test]
fn never_issued_handle_yields_none() {
    let arena: Arena<u32> = Arena::new();
    let bogus = Handle::new(3, 0);
    assert_eq!(arena.get(bogus), None);
}

#[test]
fn remove_hands_value_back_and_handle_goes_stale() {
    let mut arena: Arena<String> = Arena::new();
    let h = arena.insert(String::from("vertex data"));
    let removed = arena.remove(h);
    assert_eq!(removed, Some(String::from("vertex data")));
    assert_eq!(arena.get(h), None);
    assert_eq!(arena.remove(h), None);
    assert!(arena.is_empty());
}

#[test]
fn stale_handle_stays_stale_after_slot_reuse() {
    let mut arena: Arena<u32> = Arena::new();
    let first = arena.insert(1);
    arena.remove(first).unwrap();
    let second = arena.insert(2);
    // The vacated slot is reused, so only the generation tells the two
    // handles apart.
    assert_eq!(second.index, first.index);
    assert_ne!(second.generation, first.generation);
    assert_eq!(arena.get(first), None);
    assert_eq!(arena.get(second), Some(&2));
}

#[test]
fn handles_of_distinct_values_are_distinct() {
    let mut arena: Arena<u32> = Arena::new();
    let a = arena.insert(10);
    let b = arena.insert(20);
    assert_ne!(a, b);
    assert_eq!(arena.get(a), Some(&10));
    assert_eq!(arena.get(b), Some(&20));
}

#[test]
fn next_handle_predicts_insert() {
    let mut arena: Arena<u32> = Arena::new();
    let predicted = arena.next_handle();
    let issued = arena.insert(5);
    assert_eq!(predicted, issued);
}

#[test]
fn drain_yields_every_value_and_invalidates_all_handles() {
    let mut arena: Arena<u32> = Arena::new();
    let h1 = arena.insert(100);
    let h2 = arena.insert(200);
    let h3 = arena.insert(300);
    arena.remove(h2).unwrap();

    let drained = arena.drain();
    assert_eq!(drained.len(), 2);
    assert!(drained.contains(&(h1, 100)));
    assert!(drained.contains(&(h3, 300)));

    assert!(arena.is_empty());
    assert_eq!(arena.get(h1), None);
    assert_eq!(arena.get(h3), None);

    // Handles from before the drain never resolve again, even after the
    // arena fills back up.
    let h4 = arena.insert(400);
    assert_eq!(arena.get(h1), None);
    assert_eq!(arena.get(h3), None);
    assert_eq!(arena.get(h4), Some(&400));
}

#[test]
fn borrow_mut_updates_in_place() {
    let mut arena: Arena<u32> = Arena::new();
    let h = arena.insert(1);
    *arena.borrow_mut(h) = 99;
    assert_eq!(arena.get(h), Some(&99));
    assert_eq!(arena.len(), 1);
}
