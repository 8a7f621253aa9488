use trader_exec::signer::{Address, KeyRecord, MemoryKeystore, NonceTable, SignerError, Ticket};

fn address(byte: u8) -> Address {
    Address { bytes: [byte; 20] }
}

fn store() -> MemoryKeystore {
    MemoryKeystore::from_keys(vec![
        ("hot".to_string(), KeyRecord { address: address(1), chain_id: None }),
        ("cold".to_string(), KeyRecord { address: address(2), chain_id: Some(137) }),
        ("hot-again".to_string(), KeyRecord { address: address(1), chain_id: Some(10) }),
    ])
}

#[test]
fn addresses_are_compared_by_their_bytes() {
    assert!(address(1).same(&address(1)));
    assert!(!address(1).same(&address(2)));
    let mut bytes = [1u8; 20];
    bytes[19] = 2;
    assert!(!address(1).same(&Address { bytes }));
    bytes[19] = 1;
    bytes[0] = 0;
    assert!(!address(1).same(&Address { bytes }));
}

#[test]
fn fresh_table_starts_at_zero() {
    let table = NonceTable::new();
    assert_eq!(table.peek(&address(1)), 0);
    assert_eq!(table.peek(&address(2)), 0);
}

#[test]
fn table_gives_out_consecutive_nonces() {
    let mut table = NonceTable::new();
    for expected in 0..100u64 {
        assert_eq!(table.peek(&address(1)), expected);
        assert_eq!(table.allocate(&address(1)), expected);
    }
    assert_eq!(table.peek(&address(1)), 100);
    assert_eq!(table.peek(&address(2)), 0);
}

#[test]
fn addresses_count_apart_whatever_the_interleaving() {
    let mut table = NonceTable::new();
    let order = [1u8, 2, 1, 1, 3, 2, 1, 3, 3, 3, 2, 1];
    let mut given: Vec<(u8, u64)> = Vec::new();
    for who in order {
        given.push((who, table.allocate(&address(who))));
    }
    for who in [1u8, 2, 3] {
        let nonces: Vec<u64> = given.iter().filter(|(w, _)| *w == who).map(|(_, n)| *n).collect();
        let expected: Vec<u64> = (0..nonces.len() as u64).collect();
        assert_eq!(nonces, expected);
        assert_eq!(table.peek(&address(who)), nonces.len() as u64);
    }
}

#[test]
fn known_alias_resolves_to_its_address() {
    let store = store();
    assert_eq!(store.address("hot"), Ok(address(1)));
    assert_eq!(store.address("cold"), Ok(address(2)));
    assert_eq!(store.address("missing"), Err(SignerError::MissingKey("missing".to_string())));
    assert_eq!(store.address(""), Err(SignerError::MissingKey("".to_string())));
}

#[test]
fn ticket_carries_chain_and_nonce() {
    let mut store = store();
    assert_eq!(
        store.allocate("hot"),
        Ok(Ticket { address: address(1), chain_id: 1, nonce: 0 })
    );
    assert_eq!(
        store.allocate("cold"),
        Ok(Ticket { address: address(2), chain_id: 137, nonce: 0 })
    );
    assert_eq!(
        store.allocate("hot"),
        Ok(Ticket { address: address(1), chain_id: 1, nonce: 1 })
    );
}

#[test]
fn unknown_alias_consumes_no_nonce() {
    let mut store = store();
    assert_eq!(store.allocate("missing"), Err(SignerError::MissingKey("missing".to_string())));
    assert_eq!(store.next_nonce(&address(1)), 0);
    assert_eq!(store.next_nonce(&address(2)), 0);
    assert_eq!(store.allocate("hot").unwrap().nonce, 0);
}

#[test]
fn aliases_of_one_address_share_its_nonces() {
    let mut store = store();
    assert_eq!(store.allocate("hot").unwrap().nonce, 0);
    assert_eq!(
        store.allocate("hot-again"),
        Ok(Ticket { address: address(1), chain_id: 10, nonce: 1 })
    );
    assert_eq!(store.allocate("hot").unwrap().nonce, 2);
    assert_eq!(store.allocate("cold").unwrap().nonce, 0);
    assert_eq!(store.next_nonce(&address(1)), 3);
}

#[test]
fn many_requests_get_a_contiguous_range() {
    let mut store = store();
    for _ in 0..7 {
        store.allocate("hot").unwrap();
    }
    let start = store.next_nonce(&address(1));
    assert_eq!(start, 7);
    let mut nonces: Vec<u64> = Vec::new();
    for round in 0..50 {
        if round % 3 == 0 {
            store.allocate("cold").unwrap();
        }
        nonces.push(store.allocate("hot").unwrap().nonce);
    }
    let expected: Vec<u64> = (start..start + 50).collect();
    assert_eq!(nonces, expected);
    assert_eq!(store.next_nonce(&address(1)), start + 50);
}

#[test]
fn later_provision_replaces_an_earlier_one() {
    let store = MemoryKeystore::from_keys(vec![
        ("hot".to_string(), KeyRecord { address: address(1), chain_id: None }),
        ("hot".to_string(), KeyRecord { address: address(9), chain_id: None }),
    ]);
    assert_eq!(store.address("hot"), Ok(address(9)));
    let empty = MemoryKeystore::from_keys(vec![]);
    assert_eq!(empty.address("hot"), Err(SignerError::MissingKey("hot".to_string())));
}

#[test]
fn room_is_reported() {
    let mut store = store();
    assert!(store.can_allocate("hot"));
    assert!(store.can_allocate("missing"));
    store.allocate("hot").unwrap();
    assert!(store.can_allocate("hot"));
}

#[test]
fn signer_errors_have_their_texts() {
    assert_eq!(
        SignerError::MissingKey("hot".to_string()).message(),
        "key alias not found: hot"
    );
    assert_eq!(
        SignerError::SigningFailed("bad key".to_string()).message(),
        "signing failed: bad key"
    );
}
