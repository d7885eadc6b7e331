use call_bridge::identity::AccountId;
use call_bridge::store::{bytes_equal, DuplicateValue, Store};

fn account(tag: u8) -> AccountId {
    AccountId::new([tag; 32])
}

#[test]
fn nothing_stored_reads_as_empty() {
    let store = Store::new();
    assert_eq!(store.get(&account(1)), Vec::<u8>::new());
}

#[test]
fn same_value_twice_is_a_duplicate_the_second_time() {
    let mut store = Store::new();
    assert_eq!(store.put(account(1), vec![7, 8, 9]), Ok(()));
    let after_first = store.clone();
    assert_eq!(store.put(account(1), vec![7, 8, 9]), Err(DuplicateValue));
    assert_eq!(store, after_first);
    assert_eq!(store.get(&account(1)), vec![7, 8, 9]);
}

#[test]
fn another_value_replaces_the_first() {
    let mut store = Store::new();
    assert_eq!(store.put(account(1), vec![1]), Ok(()));
    assert_eq!(store.put(account(1), vec![2, 2]), Ok(()));
    assert_eq!(store.get(&account(1)), vec![2, 2]);
    assert_eq!(store.put(account(1), vec![1]), Ok(()));
    assert_eq!(store.get(&account(1)), vec![1]);
}

#[test]
fn callers_are_kept_apart() {
    let mut store = Store::new();
    assert_eq!(store.put(account(1), vec![1]), Ok(()));
    assert_eq!(store.put(account(2), vec![1]), Ok(()));
    assert_eq!(store.put(account(3), vec![3]), Ok(()));
    assert_eq!(store.put(account(2), vec![9]), Ok(()));
    assert_eq!(store.get(&account(1)), vec![1]);
    assert_eq!(store.get(&account(2)), vec![9]);
    assert_eq!(store.get(&account(3)), vec![3]);
    assert_eq!(store.get(&account(4)), Vec::<u8>::new());
    assert_eq!(store.put(account(1), vec![1]), Err(DuplicateValue));
}

#[test]
fn accounts_that_differ_in_the_last_byte_are_kept_apart() {
    let mut bytes = [5u8; 32];
    let first = AccountId::new(bytes);
    bytes[31] = 6;
    let second = AccountId::new(bytes);
    assert!(!first.same_as(&second));
    assert!(first.same_as(&first));
    let mut store = Store::new();
    assert_eq!(store.put(first, vec![1]), Ok(()));
    assert_eq!(store.get(&second), Vec::<u8>::new());
    assert_eq!(store.put(second, vec![1]), Ok(()));
}

#[test]
fn empty_bytes_for_a_new_caller_are_a_duplicate() {
    let mut store = Store::new();
    assert_eq!(store.put(account(1), Vec::new()), Err(DuplicateValue));
    assert_eq!(store, Store::new());
    assert_eq!(store.put(account(1), vec![1]), Ok(()));
    assert_eq!(store.put(account(1), Vec::new()), Ok(()));
    assert_eq!(store.get(&account(1)), Vec::<u8>::new());
    assert_eq!(store.put(account(1), Vec::new()), Err(DuplicateValue));
}

#[test]
fn copy_holds_the_same() {
    let mut store = Store::new();
    assert_eq!(store.put(account(1), vec![1, 2]), Ok(()));
    let copy = store.clone();
    assert_eq!(copy.get(&account(1)), vec![1, 2]);
    assert_eq!(store.put(account(1), vec![3]), Ok(()));
    assert_eq!(copy.get(&account(1)), vec![1, 2]);
}

#[test]
fn bytes_equal_compares_bytes() {
    assert!(bytes_equal(&vec![], &vec![]));
    assert!(bytes_equal(&vec![1, 2], &vec![1, 2]));
    assert!(!bytes_equal(&vec![1, 2], &vec![1, 3]));
    assert!(!bytes_equal(&vec![1, 2], &vec![1]));
}
