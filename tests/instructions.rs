use solana_twitter::{initialize, Initialize};

#[test]
fn initialize_without_accounts_succeeds() {
    assert!(initialize(&Initialize {}).is_ok());
}

#[test]
fn initialize_twice_succeeds() {
    let accounts = Initialize {};
    assert!(initialize(&accounts).is_ok());
    assert!(initialize(&accounts).is_ok());
}
