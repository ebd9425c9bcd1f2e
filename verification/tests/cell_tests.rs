use webview2wrapper::cell::{CallablePool, ValueCell};

#[test]
fn callable_count_reaches_zero_exactly_once() {
    // The mock owning count: one owner per construction or alias, one
    // decrement per release, zero exactly when the last owner lets go.
    let mut pool = CallablePool::new();
    let mut cell = ValueCell::from_callable(&mut pool);
    let id = cell.callable_id().unwrap();
    assert_eq!(pool.count_of(id), 1);

    let mut alias = cell.alias_callable(&mut pool);
    assert_eq!(alias.callable_id(), Some(id));
    assert_eq!(pool.count_of(id), 2);

    cell.release(&mut pool);
    assert_eq!(pool.count_of(id), 1);
    alias.release(&mut pool);
    assert_eq!(pool.count_of(id), 0);
}

#[test]
fn transfer_suppresses_the_local_release() {
    // Once the payload moves across the boundary the receiver owes the
    // release: the local cell must not decrement the count again.
    let mut pool = CallablePool::new();
    let mut cell = ValueCell::from_callable(&mut pool);
    let id = cell.callable_id().unwrap();
    cell.transfer();
    assert_eq!(pool.count_of(id), 1);
}

#[test]
fn each_pool_entry_counts_separately() {
    let mut pool = CallablePool::new();
    let mut first = ValueCell::from_callable(&mut pool);
    let second = ValueCell::from_callable(&mut pool);
    let first_id = first.callable_id().unwrap();
    let second_id = second.callable_id().unwrap();
    assert_ne!(first_id, second_id);
    first.release(&mut pool);
    assert_eq!(pool.count_of(first_id), 0);
    assert_eq!(pool.count_of(second_id), 1);
}

#[test]
fn integer_and_text_cells_release_without_a_pool_effect() {
    let mut pool = CallablePool::new();
    let mut number = ValueCell::from_integer(7);
    assert_eq!(number.integer(), Some(7));
    assert!(number.text().is_none());
    number.release(&mut pool);

    let mut text = ValueCell::from_text(String::from("hi"));
    assert_eq!(text.text().unwrap(), "hi");
    assert!(text.integer().is_none());
    text.release(&mut pool);
    assert_eq!(pool.count_of(0), 0);
}
