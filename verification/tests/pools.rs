use sol_exec::{ExecError, SolExecutor, WalletPool};
use solana_sdk::signature::Keypair;
use solana_sdk::signer::Signer;

fn executor_with(endpoints: Vec<&str>) -> SolExecutor {
    SolExecutor::new(endpoints.into_iter().map(|s| s.to_string()).collect()).unwrap()
}

#[test]
fn test_sol_executor_creation() {
    let endpoints = vec!["https://api.mainnet-beta.solana.com".to_string()];
    let executor = SolExecutor::new(endpoints);
    assert!(executor.is_ok());
}

#[test]
fn refresh_balance_reads_back_exactly() {
    let mut ex = executor_with(vec!["http://localhost:8899"]);
    let keypair = Keypair::new();
    ex.add_wallet("w1".to_string(), keypair.to_bytes().to_vec())
        .unwrap();
    let id = "w1".to_string();

    assert_eq!(ex.get_wallet_balance(&id, 1234).unwrap(), 1234);
    assert_eq!(ex.get_wallet_status(&id).unwrap().balance, 1234);

    // The cached value stands until the next refresh, across busy-flag writes.
    ex.set_wallet_busy(&id, true).unwrap();
    ex.set_wallet_busy(&id, false).unwrap();
    assert_eq!(ex.get_wallet_status(&id).unwrap().balance, 1234);

    assert_eq!(ex.get_wallet_balance(&id, 99).unwrap(), 99);
    assert_eq!(ex.get_wallet_status(&id).unwrap().balance, 99);
}

#[test]
fn busy_acquire_then_release_leaves_flag_clear() {
    let mut ex = executor_with(vec!["http://localhost:8899"]);
    let keypair = Keypair::new();
    ex.add_wallet("w1".to_string(), keypair.to_bytes().to_vec())
        .unwrap();
    let id = "w1".to_string();

    ex.set_wallet_busy(&id, true).unwrap();
    assert!(ex.get_wallet_status(&id).unwrap().busy);
    ex.set_wallet_busy(&id, false).unwrap();
    assert!(!ex.get_wallet_status(&id).unwrap().busy);
}

#[test]
fn set_busy_unknown_wallet_fails() {
    let mut ex = executor_with(vec!["http://localhost:8899"]);
    assert_eq!(
        ex.set_wallet_busy(&"ghost".to_string(), true),
        Err(ExecError::NotFound)
    );
}

#[test]
fn rotate_full_cycle_returns_to_start() {
    let mut ex = executor_with(vec!["http://a", "http://b", "http://c"]);
    let start = ex.current_endpoint().unwrap();
    assert_eq!(start, "http://a");
    ex.rotate_rpc_client();
    assert_eq!(ex.current_endpoint().unwrap(), "http://b");
    ex.rotate_rpc_client();
    assert_eq!(ex.current_endpoint().unwrap(), "http://c");
    ex.rotate_rpc_client();
    assert_eq!(ex.current_endpoint().unwrap(), start);
}

#[test]
fn current_endpoint_empty_pool_fails() {
    let mut ex = executor_with(vec![]);
    assert_eq!(ex.current_endpoint(), Err(ExecError::PoolEmpty));
    // Rotating an empty pool is a no-op, never a crash.
    ex.rotate_rpc_client();
    assert_eq!(ex.current_endpoint(), Err(ExecError::PoolEmpty));
}

#[test]
fn get_wallet_status_unknown_id_fails_and_changes_nothing() {
    let mut ex = executor_with(vec!["http://localhost:8899"]);
    let keypair = Keypair::new();
    ex.add_wallet("w1".to_string(), keypair.to_bytes().to_vec())
        .unwrap();
    ex.get_wallet_balance(&"w1".to_string(), 777).unwrap();

    assert!(matches!(
        ex.get_wallet_status(&"ghost".to_string()),
        Err(ExecError::NotFound)
    ));

    // Pool state is unchanged by the failed lookup.
    let w = ex.get_wallet_status(&"w1".to_string()).unwrap();
    assert_eq!(w.balance, 777);
    assert_eq!(w.pubkey, keypair.pubkey().to_string());
    assert!(!w.busy);
}

#[test]
fn status_snapshot_redacts_credential() {
    let mut ex = executor_with(vec!["http://localhost:8899"]);
    let keypair = Keypair::new();
    ex.add_wallet("w1".to_string(), keypair.to_bytes().to_vec())
        .unwrap();
    let w = ex.get_wallet_status(&"w1".to_string()).unwrap();
    assert!(w.credential.is_none());
    assert_eq!(w.id, "w1");
}

#[test]
fn add_wallet_rejects_malformed_credential() {
    let mut ex = executor_with(vec!["http://localhost:8899"]);
    // Too short to be a keypair at all.
    let r = ex.add_wallet("w1".to_string(), vec![1, 2, 3]);
    assert_eq!(r, Err(ExecError::InvalidCredential));
    // 64 bytes whose second half is not the public key of the first half.
    let r = ex.add_wallet("w1".to_string(), vec![7u8; 64]);
    assert_eq!(r, Err(ExecError::InvalidCredential));
    assert!(matches!(
        ex.get_wallet_status(&"w1".to_string()),
        Err(ExecError::NotFound)
    ));
}

#[test]
fn register_checks_supplied_public_key_against_derived() {
    let mut pool = WalletPool::new();
    let keypair = Keypair::new();
    let bytes = keypair.to_bytes().to_vec();

    // A wrong public key is rejected and the pool stays empty.
    let r = pool.register(
        "w1".to_string(),
        "not-the-derived-key".to_string(),
        Some(bytes.clone()),
    );
    assert_eq!(r, Err(ExecError::InvalidCredential));
    assert!(matches!(
        pool.get_balance(&"w1".to_string()),
        Err(ExecError::NotFound)
    ));

    // The derived public key is accepted.
    pool.register("w1".to_string(), keypair.pubkey().to_string(), Some(bytes))
        .unwrap();
    assert_eq!(pool.get_balance(&"w1".to_string()), Ok(0));
}

#[test]
fn register_overwrites_record_with_same_id() {
    let mut pool = WalletPool::new();
    pool.register("w1".to_string(), "pk-one".to_string(), None)
        .unwrap();
    pool.refresh_balance(&"w1".to_string(), 500).unwrap();
    // Re-registration resets the record to balance 0 and busy clear.
    pool.register("w1".to_string(), "pk-two".to_string(), None)
        .unwrap();
    assert_eq!(pool.get_balance(&"w1".to_string()), Ok(0));
    let w = pool.snapshot(&"w1".to_string()).unwrap();
    assert_eq!(w.pubkey, "pk-two");
    assert!(!w.busy);
}

#[test]
fn pool_operations_on_distinct_ids_do_not_interfere() {
    let mut pool = WalletPool::new();
    pool.register("w1".to_string(), "pk1".to_string(), None)
        .unwrap();
    pool.register("w2".to_string(), "pk2".to_string(), None)
        .unwrap();
    pool.refresh_balance(&"w1".to_string(), 10).unwrap();
    pool.refresh_balance(&"w2".to_string(), 20).unwrap();
    pool.set_busy(&"w2".to_string(), true).unwrap();
    assert_eq!(pool.get_balance(&"w1".to_string()), Ok(10));
    assert_eq!(pool.get_balance(&"w2".to_string()), Ok(20));
    assert!(!pool.snapshot(&"w1".to_string()).unwrap().busy);
    assert!(pool.snapshot(&"w2".to_string()).unwrap().busy);
}
