use conclave_server::CapacityError;
use conclave_server::UniqueIdCollection;

#[test]
fn add_then_get_item() {
    let mut collection = UniqueIdCollection::<u32>::new();
    let item_id = collection.add_item(42).unwrap();
    assert_eq!(item_id, 0);
    let found_item = collection.get_item(item_id).unwrap();
    assert_eq!(*found_item, 42);
    assert!(collection.get_item(1).is_none());
}

#[test]
fn fifo_reuse_scenario() {
    let mut collection = UniqueIdCollection::<&str>::new();
    let a = collection.add_item("a").unwrap();
    let b = collection.add_item("b").unwrap();
    assert_eq!(a, 0);
    assert_eq!(b, 1);
    assert_eq!(collection.remove_item(a), Some("a"));
    // The freed identifier is the only reclaimable one, so it is reused.
    let c = collection.add_item("c").unwrap();
    assert_eq!(c, 0);
    assert_eq!(collection.len(), 2);
    // The free list is empty again, so the next identifier is fresh.
    let d = collection.add_item("d").unwrap();
    assert_eq!(d, 2);
}

#[test]
fn fifo_reuse_is_oldest_first() {
    let mut collection = UniqueIdCollection::<u32>::new();
    for value in 0..4u32 {
        collection.add_item(value).unwrap();
    }
    collection.remove_item(2);
    collection.remove_item(0);
    collection.remove_item(3);
    // Freed in the order 2, 0, 3 — reused in exactly that order.
    assert_eq!(collection.add_item(10).unwrap(), 2);
    assert_eq!(collection.add_item(11).unwrap(), 0);
    assert_eq!(collection.add_item(12).unwrap(), 3);
    assert_eq!(collection.add_item(13).unwrap(), 4);
}

#[test]
fn len_counts_allocations_minus_successful_removals() {
    let mut collection = UniqueIdCollection::<u32>::new();
    assert_eq!(collection.len(), 0);
    assert!(collection.is_empty());
    collection.add_item(1).unwrap();
    collection.add_item(2).unwrap();
    collection.add_item(3).unwrap();
    assert_eq!(collection.len(), 3);
    assert!(!collection.is_empty());
    assert!(collection.remove_item(1).is_some());
    assert_eq!(collection.len(), 2);
    // An unsuccessful removal does not count.
    assert!(collection.remove_item(1).is_none());
    assert_eq!(collection.len(), 2);
}

#[test]
fn removing_non_live_id_returns_absent_and_changes_nothing() {
    let mut collection = UniqueIdCollection::<u32>::new();
    collection.add_item(5).unwrap();
    assert_eq!(collection.remove_item(9), None);
    assert_eq!(collection.len(), 1);
    // The free list is still empty: the next identifier is fresh, not 9.
    assert_eq!(collection.add_item(6).unwrap(), 1);
}

#[test]
fn capacity_exhaustion_is_reported_and_recoverable() {
    let mut collection = UniqueIdCollection::<u16>::new();
    for value in 0..256u16 {
        let id = collection.add_item(value).unwrap();
        assert_eq!(id as u16, value);
    }
    assert_eq!(collection.len(), 256);
    assert_eq!(collection.add_item(999), Err(CapacityError));
    assert_eq!(collection.len(), 256);
    // Freeing one slot makes allocation succeed again, with that identifier.
    assert_eq!(collection.remove_item(17), Some(17));
    assert_eq!(collection.add_item(1000).unwrap(), 17);
    assert_eq!(collection.add_item(1001), Err(CapacityError));
}

#[test]
fn default_is_empty() {
    let collection = UniqueIdCollection::<u32>::default();
    assert!(collection.is_empty());
    assert_eq!(collection.len(), 0);
}
