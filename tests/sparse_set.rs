use hydrolox::framework::{next_id, Comptainer, Entity, EntityIdError, IdAllocator};

fn three(ids: &mut IdAllocator) -> (Entity, Entity, Entity) {
    (Entity::new(ids), Entity::new(ids), Entity::new(ids))
}

#[test]
fn remove_middle_moves_last_into_its_slot() {
    let mut ids = IdAllocator::new();
    let (a, b, c) = three(&mut ids);
    let mut set: Comptainer<&str> = Comptainer::new();
    set.add_component(a, "a");
    set.add_component(b, "b");
    set.add_component(c, "c");
    assert!(set.remove_component(b));
    assert!(set.get(b).is_none());
    let mut seen = Vec::new();
    let mut it = set.iter();
    while let Some((e, v)) = it.next() {
        seen.push((e, *v));
    }
    assert_eq!(seen, vec![(a, "a"), (c, "c")]);
    let (owners, values) = set.take();
    assert_eq!(owners, vec![a, c]);
    assert_eq!(values, vec!["a", "c"]);
}

#[test]
fn add_then_get_then_remove() {
    let mut ids = IdAllocator::new();
    let e = Entity::new(&mut ids);
    let mut set: Comptainer<u32> = Comptainer::new();
    assert_eq!(set.add_component(e, 7), None);
    assert_eq!(set.get(e), Some(&7));
    assert!(set.has_component(e));
    assert!(set.remove_component(e));
    assert_eq!(set.get(e), None);
    assert!(!set.has_component(e));
    assert_eq!(set.len(), 0);
}

#[test]
fn add_twice_replaces_and_keeps_size() {
    let mut ids = IdAllocator::new();
    let (a, b, _) = three(&mut ids);
    let mut set: Comptainer<u32> = Comptainer::with_capacity(4);
    set.add_component(a, 1);
    set.add_component(b, 2);
    assert_eq!(set.add_component(a, 5), Some(1));
    assert_eq!(set.get(a), Some(&5));
    assert_eq!(set.get(b), Some(&2));
    assert_eq!(set.len(), 2);
}

#[test]
fn remove_absent_is_a_no_op() {
    let mut ids = IdAllocator::new();
    let (a, b, _) = three(&mut ids);
    let mut set: Comptainer<u32> = Comptainer::new();
    set.add_component(a, 1);
    assert!(!set.remove_component(b));
    assert_eq!(set.len(), 1);
    assert_eq!(set.get(a), Some(&1));
}

#[test]
fn remove_last_slot_moves_nothing() {
    let mut ids = IdAllocator::new();
    let (a, b, c) = three(&mut ids);
    let mut set: Comptainer<u32> = Comptainer::new();
    set.add_component(a, 1);
    set.add_component(b, 2);
    set.add_component(c, 3);
    assert!(set.remove_component(c));
    let (owners, values) = set.take();
    assert_eq!(owners, vec![a, b]);
    assert_eq!(values, vec![1, 2]);
}

#[test]
fn remove_first_then_readd_appends() {
    let mut ids = IdAllocator::new();
    let (a, b, c) = three(&mut ids);
    let mut set: Comptainer<u32> = Comptainer::new();
    set.add_component(a, 1);
    set.add_component(b, 2);
    set.add_component(c, 3);
    set.remove_component(a);
    set.add_component(a, 4);
    let pairs = set.take_iter();
    assert_eq!(pairs, vec![(c, 3), (b, 2), (a, 4)]);
    assert_eq!(set.len(), 0);
    assert!(set.get_one().is_none());
}

#[test]
fn density_holds_through_many_operations() {
    let mut ids = IdAllocator::new();
    let es: Vec<Entity> = (0..20).map(|_| Entity::new(&mut ids)).collect();
    let mut set: Comptainer<usize> = Comptainer::new();
    for (i, e) in es.iter().enumerate() {
        set.add_component(*e, i);
    }
    for (i, e) in es.iter().enumerate() {
        if i % 3 == 0 {
            set.remove_component(*e);
        }
    }
    assert_eq!(set.len(), 13);
    for (i, e) in es.iter().enumerate() {
        if i % 3 == 0 {
            assert_eq!(set.get(*e), None);
        } else {
            assert_eq!(set.get(*e), Some(&i));
        }
    }
    let (owners, values) = set.take();
    assert_eq!(owners.len(), values.len());
    let mut sorted = owners.clone();
    sorted.sort();
    sorted.dedup();
    assert_eq!(sorted.len(), owners.len());
}

#[test]
fn get_mut_writes_into_the_set() {
    let mut ids = IdAllocator::new();
    let (a, b, _) = three(&mut ids);
    let mut set: Comptainer<u32> = Comptainer::new();
    set.add_component(a, 1);
    if let Some(v) = set.get_mut(a) {
        *v = 9;
    }
    assert!(set.get_mut(b).is_none());
    assert_eq!(set.get(a), Some(&9));
}

#[test]
fn iter_mut_visits_each_slot_once() {
    let mut ids = IdAllocator::new();
    let (a, b, c) = three(&mut ids);
    let mut set: Comptainer<u32> = Comptainer::new();
    set.add_component(a, 1);
    set.add_component(b, 2);
    set.add_component(c, 3);
    let mut it = set.iter_mut();
    assert_eq!(it.size_hint(), (3, Some(3)));
    let mut seen = Vec::new();
    while let Some((e, v)) = it.next() {
        *v += 10;
        seen.push(e);
    }
    assert_eq!(seen, vec![a, b, c]);
    assert_eq!(set.get(a), Some(&11));
    assert_eq!(set.get(b), Some(&12));
    assert_eq!(set.get(c), Some(&13));
}

#[test]
fn iter_size_hint_counts_what_is_left() {
    let mut ids = IdAllocator::new();
    let (a, b, _) = three(&mut ids);
    let mut set: Comptainer<u32> = Comptainer::new();
    set.add_component(a, 1);
    set.add_component(b, 2);
    let mut it = set.iter();
    assert_eq!(it.size_hint(), (2, Some(2)));
    it.next();
    assert_eq!(it.size_hint(), (1, Some(1)));
    it.next();
    assert!(it.next().is_none());
    assert_eq!(it.size_hint(), (0, Some(0)));
}

#[test]
fn get_one_returns_a_live_entry() {
    let mut ids = IdAllocator::new();
    let (a, _, _) = three(&mut ids);
    let mut set: Comptainer<u32> = Comptainer::new();
    assert!(set.get_one().is_none());
    set.add_component(a, 4);
    assert_eq!(set.get_one(), Some((a, &4)));
}

#[test]
fn from_entries_keeps_last_duplicate() {
    let a = Entity::from_id(3).unwrap();
    let b = Entity::from_id(8).unwrap();
    let set = Comptainer::from_entries(vec![(a, 1u32), (b, 2), (a, 3)]);
    assert_eq!(set.len(), 2);
    assert_eq!(set.get(a), Some(&3));
    assert_eq!(set.get(b), Some(&2));
    let empty: Comptainer<u32> = Comptainer::from_entries(Vec::new());
    assert_eq!(empty.len(), 0);
}

#[test]
fn ids_count_up_from_one() {
    let mut ids = IdAllocator::new();
    assert!(!ids.is_exhausted());
    assert_eq!(next_id(&mut ids), 1);
    assert_eq!(next_id(&mut ids), 2);
    let e = Entity::new(&mut ids);
    assert_eq!(e.id(), 3);
    assert_ne!(e, Entity::new(&mut ids));
}

#[test]
fn entity_ids_are_checked_when_read() {
    assert!(Entity::from_id(0).is_none());
    assert_eq!(Entity::from_id(5).unwrap().id(), 5);
    assert_eq!(Entity::from_integer(0), Err(EntityIdError::Zero));
    assert_eq!(Entity::from_integer(-4), Err(EntityIdError::Negative));
    assert_eq!(
        Entity::from_integer(u64::MAX as i128 + 1),
        Err(EntityIdError::TooLarge)
    );
    assert_eq!(Entity::from_integer(u64::MAX as i128).unwrap().id(), u64::MAX);
    assert_eq!(Entity::from_integer(42).unwrap().id(), 42);
}

#[test]
fn default_set_is_empty() {
    let set: Comptainer<u32> = Comptainer::default();
    assert_eq!(set.len(), 0);
    assert!(set.get_one().is_none());
    let mut ids = IdAllocator::new();
    let e = Entity::new(&mut ids);
    assert!(!set.has_component(e));
    assert_ne!(e.id(), 0);
}
