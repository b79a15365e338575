use dca_bot_pancakeswap_cw::state::{
    bytes_equal, dispatch_key, State, StorageError, Store, Timestamp, NANOS_PER_SECOND,
};
use dca_bot_pancakeswap_cw::uint256::Uint256;

#[test]
fn new_store_is_empty() {
    let store = Store::new();
    assert_eq!(store.identity_get(), Err(StorageError::NotFound));
    assert_eq!(store.retry_delay_get(), Err(StorageError::NotFound));
    assert_eq!(store.dispatch_log_get(&vec![1, 2, 3]), None);
}

#[test]
fn identity_and_retry_delay_are_kept() {
    let mut store = Store::new();
    store.identity_set(State { owner: "O".to_string(), job_id: "j".to_string() });
    assert_eq!(store.retry_delay_get(), Err(StorageError::NotFound));
    store.retry_delay_set(60);
    assert_eq!(store.identity_get(), Ok(&State { owner: "O".to_string(), job_id: "j".to_string() }));
    assert_eq!(store.retry_delay_get(), Ok(60));
}

#[test]
fn log_keeps_the_latest_time_of_each_key() {
    let mut store = Store::new();
    store.dispatch_log_put(vec![1], Timestamp::from_nanos(10));
    store.dispatch_log_put(vec![2], Timestamp::from_nanos(20));
    store.dispatch_log_put(vec![1, 0], Timestamp::from_nanos(30));
    assert_eq!(store.dispatch_log_get(&vec![1]), Some(Timestamp::from_nanos(10)));
    store.dispatch_log_put(vec![1], Timestamp::from_nanos(40));
    assert_eq!(store.dispatch_log_get(&vec![1]), Some(Timestamp::from_nanos(40)));
    assert_eq!(store.dispatch_log_get(&vec![2]), Some(Timestamp::from_nanos(20)));
    assert_eq!(store.dispatch_log_get(&vec![1, 0]), Some(Timestamp::from_nanos(30)));
    assert_eq!(store.dispatch_log_get(&vec![]), None);
    assert_eq!(store.dispatch_log_get(&vec![0, 1]), None);
}

#[test]
fn log_may_go_back_in_time() {
    let mut store = Store::new();
    store.dispatch_log_put(vec![9], Timestamp::from_nanos(50));
    store.dispatch_log_put(vec![9], Timestamp::from_nanos(5));
    assert_eq!(store.dispatch_log_get(&vec![9]), Some(Timestamp::from_nanos(5)));
}

#[test]
fn key_is_swap_id_then_number_trades() {
    let key = dispatch_key(&Uint256::from_u128(1), &Uint256::from_u128(3));
    assert_eq!(key.len(), 64);
    let mut expected = vec![0u8; 64];
    expected[31] = 1;
    expected[63] = 3;
    assert_eq!(key, expected);
    let swapped = dispatch_key(&Uint256::from_u128(3), &Uint256::from_u128(1));
    assert_ne!(key, swapped);
}

#[test]
fn key_holds_all_bytes_of_both_numbers() {
    let mut high = [0u8; 32];
    let mut low = [0u8; 32];
    for i in 0..32 {
        high[i] = i as u8;
        low[i] = 0x80 + i as u8;
    }
    let key = dispatch_key(&Uint256::from_be_bytes(high), &Uint256::from_be_bytes(low));
    assert_eq!(key[..32], high);
    assert_eq!(key[32..], low);
}

#[test]
fn timestamps_count_nanoseconds() {
    assert_eq!(NANOS_PER_SECOND, 1_000_000_000);
    assert_eq!(Timestamp::from_seconds(1000), Timestamp::from_nanos(1_000_000_000_000));
    assert_eq!(Timestamp::from_seconds(0).nanos, 0);
    assert_eq!(Timestamp::from_nanos(17).nanos, 17);
}

#[test]
fn retry_is_due_strictly_after_the_delay() {
    let last = Timestamp::from_seconds(1000);
    assert!(!last.is_retry_due(60, Timestamp::from_seconds(1050)));
    assert!(!last.is_retry_due(60, Timestamp::from_seconds(1060)));
    assert!(last.is_retry_due(60, Timestamp::from_nanos(1_060_000_000_001)));
    assert!(last.is_retry_due(60, Timestamp::from_seconds(1061)));
    assert!(!last.is_retry_due(60, Timestamp::from_seconds(999)));
    assert!(!last.is_retry_due(0, last));
    assert!(!Timestamp::from_nanos(u64::MAX).is_retry_due(u64::MAX, Timestamp::from_nanos(u64::MAX)));
    assert!(!Timestamp::from_nanos(0).is_retry_due(u64::MAX, Timestamp::from_nanos(u64::MAX)));
}

#[test]
fn byte_strings_are_compared_whole() {
    assert!(bytes_equal(&vec![], &vec![]));
    assert!(bytes_equal(&vec![1, 2, 3], &vec![1, 2, 3]));
    assert!(!bytes_equal(&vec![1, 2, 3], &vec![1, 2]));
    assert!(!bytes_equal(&vec![1, 2, 3], &vec![1, 2, 4]));
    assert!(!bytes_equal(&vec![0, 2, 3], &vec![1, 2, 3]));
}
