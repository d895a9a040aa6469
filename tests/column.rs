use hydrolox::comp_data::CompData;

#[test]
fn column_grows_then_swap_removes() {
    let mut col: CompData<u32> = CompData::with_capacity(2);
    for v in [10u32, 20, 30, 40, 50] {
        col.push(v);
    }
    assert_eq!(col.as_typed_slice(), &[10, 20, 30, 40, 50]);
    col.swap_remove(1);
    assert_eq!(col.as_typed_slice(), &[10, 50, 30, 40]);
    assert_eq!(col.len(), 4);
}

#[test]
fn column_capacity_follows_growth_policy() {
    let mut col: CompData<u32> = CompData::with_capacity(2);
    assert_eq!(col.capacity(), 2);
    col.push(10);
    col.push(20);
    assert_eq!(col.capacity(), 2);
    col.push(30);
    assert_eq!(col.capacity(), 3);
    col.push(40);
    assert_eq!(col.capacity(), 4);
    col.push(50);
    assert_eq!(col.capacity(), 6);
}

#[test]
fn column_first_allocation_holds_eight() {
    let mut col: CompData<u64> = CompData::new();
    assert_eq!(col.capacity(), 0);
    col.push(1);
    assert_eq!(col.capacity(), 8);
    for v in 2..=8u64 {
        col.push(v);
    }
    assert_eq!(col.capacity(), 8);
    col.push(9);
    assert_eq!(col.capacity(), 12);
}

#[test]
fn column_growth_keeps_push_order() {
    let mut col: CompData<u64> = CompData::with_capacity(3);
    let vals: Vec<u64> = (0..40u64).map(|i| i * 7 + 1).collect();
    for v in &vals {
        col.push(*v);
    }
    assert_eq!(col.as_typed_slice(), vals.as_slice());
}

#[test]
fn column_zero_sized_counts_without_allocating() {
    let mut col: CompData<()> = CompData::with_capacity(5);
    assert_eq!(col.capacity(), usize::MAX);
    for n in 1..=4usize {
        col.push(());
        assert_eq!(col.len(), n);
    }
    col.swap_remove(0);
    assert_eq!(col.len(), 3);
    col.swap_remove(2);
    assert_eq!(col.len(), 2);
    assert_eq!(col.capacity(), usize::MAX);
}

#[test]
fn column_replace_returns_old_value() {
    let mut col: CompData<String> = CompData::new();
    col.push("a".to_string());
    col.push("b".to_string());
    let old = col.replace(1, "c".to_string());
    assert_eq!(old, "b");
    assert_eq!(col.as_typed_slice(), &["a".to_string(), "c".to_string()]);
}

#[test]
fn column_swap_remove_last_only_shrinks() {
    let mut col: CompData<i32> = CompData::new();
    col.push(1);
    col.push(2);
    col.push(3);
    col.swap_remove(2);
    assert_eq!(col.as_typed_slice(), &[1, 2]);
}

#[test]
fn column_mutable_view_writes_through() {
    let mut col: CompData<i32> = CompData::new();
    col.push(1);
    col.push(2);
    for v in col.as_typed_slice_mut() {
        *v *= 10;
    }
    assert_eq!(col.as_typed_slice(), &[10, 20]);
    assert_eq!(col.into_vec(), vec![10, 20]);
}
