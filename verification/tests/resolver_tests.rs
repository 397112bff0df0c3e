use name_service::resolver::Resolver;
use name_service::types::{CallContext, NnsError};

fn ctx(predecessor: &str, signer: &str, deposit: u128, now_ms: u64) -> CallContext {
    CallContext {
        predecessor_account_id: predecessor.to_string(),
        signer_account_id: signer.to_string(),
        attached_deposit: deposit,
        block_timestamp_ms: now_ms,
    }
}

fn text_of(records: &[(String, String)], key: &str) -> Option<String> {
    records
        .iter()
        .find(|(k, _)| k == key)
        .map(|(_, v)| v.clone())
}

#[test]
fn test_new() {
    let contract = Resolver::new("bob".to_string(), &ctx("bob", "bob", 0, 0));
    assert_eq!(contract.get_addresses(None, None).len(), 0);
}

#[test]
fn test_add_addresses() {
    let mut contract = Resolver::new("bob".to_string(), &ctx("bob", "bob", 0, 0));
    let bitcoin = "bitcoin".to_string();
    let ethereum = "ethereum".to_string();
    let ethereum_address = "0xB65B139A319A09F088486C22D18074810BA99715".to_string();
    let bitcoin_address = "mp8g4GZLbAUJZyY7DTMMHroiW9SzbocJUh".to_string();
    let addresses = vec![
        (ethereum.clone(), ethereum_address.clone()),
        (bitcoin.clone(), bitcoin_address.clone()),
    ];
    contract
        .set_addresses(addresses, &ctx("bob", "bob", 0, 0))
        .unwrap();
    assert_eq!(contract.get_addresses(None, None).len(), 2);
    assert_eq!(contract.resolve(ethereum).address.unwrap(), ethereum_address);
    assert_eq!(contract.resolve(bitcoin).address.unwrap(), bitcoin_address);
}

#[test]
fn test_add_addresses_unauthorized() {
    let mut contract = Resolver::new("charlie".to_string(), &ctx("bob", "bob", 0, 0));
    let ethereum = "ethereum".to_string();
    let ethereum_address = "0xB65B139A319A09F088486C22D18074810BA99715".to_string();
    let r = contract.set_addresses(
        vec![(ethereum, ethereum_address)],
        &ctx("bob", "bob", 0, 0),
    );
    assert_eq!(r.unwrap_err(), NnsError::Unauthorized);
    assert_eq!(contract.get_addresses(None, None).len(), 0);
}

#[test]
fn test_address_pagination() {
    let mut contract = Resolver::new("bob".to_string(), &ctx("bob", "bob", 0, 0));
    let addresses = vec![
        ("a".to_string(), "1".to_string()),
        ("b".to_string(), "2".to_string()),
        ("c".to_string(), "3".to_string()),
    ];
    contract
        .set_addresses(addresses, &ctx("bob", "bob", 0, 0))
        .unwrap();
    let page = contract.get_addresses(Some(1), Some(1));
    assert_eq!(page.len(), 1);
    assert_eq!(page[0].network, "b".to_string());
    assert_eq!(page[0].address, Some("2".to_string()));
    assert_eq!(contract.get_addresses(Some(9), None).len(), 0);
}

#[test]
fn test_add_ipfs() {
    let mut contract = Resolver::new("bob".to_string(), &ctx("bob", "bob", 0, 0));
    let ipfs = "bafybeighxhsavoanjqkqvnnpbkvoweurybjt7gauunbg37ueahcbze5ise".to_string();
    contract
        .set_ipfs(ipfs.clone(), &ctx("bob", "bob", 0, 0))
        .unwrap();
    assert_eq!(contract.ipfs().unwrap(), ipfs);
}

#[test]
fn test_add_record() {
    let mut contract = Resolver::new("bob".to_string(), &ctx("bob", "bob", 0, 0));
    let facebook = "facebook".to_string();
    let youtube = "youtube".to_string();
    let facebook_url = "https://facebook.com".to_string();
    let youtube_url = "https://youtube.com".to_string();
    let records = vec![
        (facebook.clone(), facebook_url.clone()),
        (youtube.clone(), youtube_url.clone()),
    ];
    contract
        .set_text_records(records, &ctx("bob", "bob", 0, 0))
        .unwrap();
    let stored = contract.get_text_records();
    assert_eq!(stored.len(), 2);
    assert_eq!(text_of(&stored, &facebook).unwrap(), facebook_url);
    assert_eq!(text_of(&stored, &youtube).unwrap(), youtube_url);
}

#[test]
fn test_owner_changed() {
    let mut contract = Resolver::new("bob".to_string(), &ctx("bob", "bob", 0, 0));
    let r = contract.owner_changed("charlie".to_string(), &ctx("bob", "bob", 0, 0));
    assert_eq!(r.unwrap_err(), NnsError::OwnerUnchanged);
}

#[test]
fn test_owner_changed_relay() {
    let mut contract = Resolver::new("alice".to_string(), &ctx("registry", "alice", 0, 0));
    // Any caller but the configured registry is turned away.
    let bad = contract.owner_changed("bob".to_string(), &ctx("mallory", "bob", 0, 0));
    assert_eq!(bad.unwrap_err(), NnsError::Unauthorized);
    // The registry's relay for a fresh owner goes through and answers the
    // previous owner.
    let previous = contract
        .owner_changed("bob".to_string(), &ctx("registry", "bob", 0, 0))
        .unwrap();
    assert_eq!(previous, "alice".to_string());
}

#[test]
fn test_text_records_cap() {
    let mut contract = Resolver::new("bob".to_string(), &ctx("bob", "bob", 0, 0));
    let mut ten: Vec<(String, String)> = Vec::new();
    for i in 0..10 {
        ten.push((format!("k{}", i), format!("v{}", i)));
    }
    contract
        .set_text_records(ten, &ctx("bob", "bob", 0, 0))
        .unwrap();
    assert_eq!(contract.get_text_records().len(), 10);

    // An eleventh record pushes the merged store over the cap: the whole
    // batch is refused and nothing changes.
    let r = contract.set_text_records(
        vec![("k10".to_string(), "v10".to_string())],
        &ctx("bob", "bob", 0, 0),
    );
    assert_eq!(r.unwrap_err(), NnsError::TooManyRecords);
    assert_eq!(contract.get_text_records().len(), 10);

    // Overwriting existing keys stays within the cap.
    contract
        .set_text_records(
            vec![("k3".to_string(), "fresh".to_string())],
            &ctx("bob", "bob", 0, 0),
        )
        .unwrap();
    let stored = contract.get_text_records();
    assert_eq!(stored.len(), 10);
    assert_eq!(text_of(&stored, "k3").unwrap(), "fresh".to_string());
}

#[test]
fn test_clear_wipes_all() {
    let mut contract = Resolver::new("bob".to_string(), &ctx("bob", "bob", 0, 0));
    contract
        .set_addresses(
            vec![("near".to_string(), "bob.near".to_string())],
            &ctx("bob", "bob", 0, 0),
        )
        .unwrap();
    contract
        .set_ipfs("bafy".to_string(), &ctx("bob", "bob", 0, 0))
        .unwrap();
    contract
        .set_text_records(
            vec![("site".to_string(), "https://example.com".to_string())],
            &ctx("bob", "bob", 0, 0),
        )
        .unwrap();

    let refused = contract.clear("carol".to_string(), &ctx("mallory", "mallory", 0, 0));
    assert_eq!(refused.unwrap_err(), NnsError::Unauthorized);

    let beneficiary = contract
        .clear("carol".to_string(), &ctx("bob", "bob", 0, 0))
        .unwrap();
    assert_eq!(beneficiary, "carol".to_string());
    assert_eq!(contract.get_addresses(None, None).len(), 0);
    assert_eq!(contract.get_text_records().len(), 0);
    assert_eq!(contract.ipfs(), None);
}

#[test]
fn test_self_delete() {
    let contract = Resolver::new("bob".to_string(), &ctx("bob", "bob", 0, 0));
    let refused = contract.self_delete("carol".to_string(), &ctx("mallory", "mallory", 0, 0));
    assert_eq!(refused.unwrap_err(), NnsError::Unauthorized);
    let action = contract
        .self_delete("carol".to_string(), &ctx("bob", "bob", 0, 0))
        .unwrap();
    assert_eq!(action.beneficiary, "carol".to_string());
}
