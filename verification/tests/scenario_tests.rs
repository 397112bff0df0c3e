use name_service::registry::Registry;
use name_service::resolver::Resolver;
use name_service::types::{CallContext, NnsError, TokenMetadata, ONE_YEAR_MILLISECOND};

fn ctx(predecessor: &str, signer: &str, deposit: u128, now_ms: u64) -> CallContext {
    CallContext {
        predecessor_account_id: predecessor.to_string(),
        signer_account_id: signer.to_string(),
        attached_deposit: deposit,
        block_timestamp_ms: now_ms,
    }
}

const ONE_NEAR: u128 = 1_000_000_000_000_000_000_000_000;

#[test]
fn test_full_lifecycle() {
    let mut registry =
        Registry::new_default_meta("admin".to_string(), "registry".to_string(), 1024);

    // Register "alice" with a deposit covering two years.
    let deposit = ONE_NEAR / 2 + 2 * ONE_NEAR;
    let call = registry
        .register(
            "alice".to_string(),
            "alice".to_string(),
            &ctx("alice", "alice", deposit, 1_000),
        )
        .unwrap();
    assert_eq!(call.years_extended, 2);
    registry
        .register_name(
            call.token_id,
            call.token_owner_id,
            call.token_metadata,
            call.years_extended,
            &ctx("registry", "alice", call.attached_deposit, 1_000),
        )
        .unwrap();
    assert_eq!(
        registry.expired_date(&"alice".to_string()),
        Some(1_000 + 2 * ONE_YEAR_MILLISECOND)
    );

    // Re-registering before expiration fails.
    let early = registry.register(
        "alice".to_string(),
        "eve".to_string(),
        &ctx("eve", "eve", deposit, 2_000),
    );
    assert_eq!(early.unwrap_err(), NnsError::Unexpired);

    // The owner points their default name at it.
    registry
        .set_default("alice".to_string(), &ctx("alice", "alice", 0, 2_000))
        .unwrap();

    // Past expiration a different owner captures it and the old default
    // pointer is cleared.
    let late = 1_000 + 2 * ONE_YEAR_MILLISECOND + 1;
    let recapture = registry
        .register(
            "alice".to_string(),
            "eve".to_string(),
            &ctx("eve", "eve", deposit, late),
        )
        .unwrap();
    let token = registry
        .register_name(
            recapture.token_id,
            recapture.token_owner_id,
            recapture.token_metadata,
            recapture.years_extended,
            &ctx("registry", "eve", recapture.attached_deposit, late),
        )
        .unwrap();
    assert_eq!(token.owner_id, "eve".to_string());
    assert_eq!(registry.default_name(&"alice".to_string()), None);

    // Deploying a resolver with an insufficient balance fails.
    let min = registry.get_min_attach_balance(&name_service::setup::ResolverArgs {
        owner_id: "eve".to_string(),
    });
    let poor = registry.setup("alice".to_string(), &ctx("eve", "eve", min, late));
    assert_eq!(poor.unwrap_err(), NnsError::InsufficientDeposit);

    // With a sufficient balance the deployment carries the computed
    // minimum, targets the derived sub-account and hands the initializer
    // the name's current owner.
    let deploy = registry
        .setup("alice".to_string(), &ctx("eve", "eve", min + 1, late))
        .unwrap();
    assert_eq!(deploy.resolver_account_id, "alice.registry".to_string());
    assert_eq!(deploy.transfer_amount, min);
    assert_eq!(deploy.init_args, "{\"owner_id\":\"eve\"}".to_string());

    // The shell would now create the sub-account and run the initializer.
    let mut resolver = Resolver::new("eve".to_string(), &ctx("registry", "eve", 0, late));
    assert_eq!(resolver.get_addresses(None, None).len(), 0);

    // A non-registry caller cannot relay ownership.
    let bad = resolver.owner_changed("carol".to_string(), &ctx("mallory", "carol", 0, late));
    assert_eq!(bad.unwrap_err(), NnsError::Unauthorized);

    // The owner pushes a later holder in through the registry.
    let push = registry
        .take_ownership("alice".to_string(), &ctx("eve", "eve", 0, late))
        .unwrap();
    assert_eq!(push.resolver_account_id, "alice.registry".to_string());
    assert_eq!(push.args, "{\"owner_id\":\"eve\"}".to_string());
}

#[test]
fn test_min_attach_balance_formula() {
    let registry = Registry::new("admin".to_string(), "registry".to_string(), 10, 4, 1024);
    let min = registry.get_min_attach_balance(&name_service::setup::ResolverArgs {
        owner_id: "alice".to_string(),
    });
    // code bytes + margin + twice the 4-byte-prefixed 5-byte arguments,
    // priced per byte, plus five.
    let expected: u128 = (1024 + 10_000 + (4 + 5) * 2) * 10_000_000_000_000_000_000 + 5;
    assert_eq!(min, expected);
}

#[test]
fn test_setup_owner_only() {
    let mut registry = Registry::new("admin".to_string(), "registry".to_string(), 10, 4, 1024);
    registry
        .register_name(
            "alice".to_string(),
            "bob".to_string(),
            TokenMetadata {
                title: "alice.nns".to_string(),
                description: "d".to_string(),
            },
            1,
            &ctx("registry", "bob", 0, 0),
        )
        .unwrap();
    let r = registry.setup("alice".to_string(), &ctx("mallory", "mallory", ONE_NEAR, 0));
    assert_eq!(r.unwrap_err(), NnsError::Unauthorized);
    let r2 = registry.take_ownership("alice".to_string(), &ctx("mallory", "mallory", 0, 0));
    assert_eq!(r2.unwrap_err(), NnsError::Unauthorized);
}

#[test]
fn test_transfer_clears_default_pointer() {
    let mut registry = Registry::new("admin".to_string(), "registry".to_string(), 10, 4, 0);
    registry
        .register_name(
            "alice".to_string(),
            "bob".to_string(),
            TokenMetadata {
                title: "alice.nns".to_string(),
                description: "d".to_string(),
            },
            1,
            &ctx("registry", "bob", 0, 0),
        )
        .unwrap();
    registry
        .set_default("alice".to_string(), &ctx("bob", "bob", 0, 0))
        .unwrap();

    // An expired name cannot be transferred at all.
    let late = ONE_YEAR_MILLISECOND + 1;
    let gone = registry.nft_transfer(
        "carol".to_string(),
        "alice".to_string(),
        None,
        None,
        &ctx("bob", "bob", 1, late),
    );
    assert_eq!(gone.unwrap_err(), NnsError::Expired);

    // A live one moves, and the default pointer moves out of the way.
    registry
        .nft_transfer(
            "carol".to_string(),
            "alice".to_string(),
            None,
            None,
            &ctx("bob", "bob", 1, 5),
        )
        .unwrap();
    assert_eq!(
        registry.nft_token(&"alice".to_string()).unwrap().owner_id,
        "carol".to_string()
    );
    assert_eq!(registry.default_name(&"bob".to_string()), None);
}

#[test]
fn test_transfer_call_kept_and_rolled_back() {
    let mut registry = Registry::new("admin".to_string(), "registry".to_string(), 10, 4, 0);
    registry
        .register_name(
            "alice".to_string(),
            "bob".to_string(),
            TokenMetadata {
                title: "alice.nns".to_string(),
                description: "d".to_string(),
            },
            1,
            &ctx("registry", "bob", 0, 0),
        )
        .unwrap();
    registry
        .set_default("alice".to_string(), &ctx("bob", "bob", 0, 0))
        .unwrap();

    // First phase: the token moves to the receiver and the receiver is
    // asked; the default pointer is settled only at resolution.
    let action = registry
        .nft_transfer_call(
            "carol".to_string(),
            "alice".to_string(),
            None,
            None,
            "payload".to_string(),
            &ctx("bob", "bob", 1, 5),
        )
        .unwrap();
    assert_eq!(action.receiver_id, "carol".to_string());
    assert_eq!(
        registry.nft_token(&"alice".to_string()).unwrap().owner_id,
        "carol".to_string()
    );

    // The receiver keeps it: the previous owner's pointer is cleared.
    let kept = registry
        .nft_resolve_transfer(
            "bob".to_string(),
            "carol".to_string(),
            "alice".to_string(),
            true,
            &ctx("registry", "bob", 0, 6),
        )
        .unwrap();
    assert!(kept);
    assert_eq!(registry.default_name(&"bob".to_string()), None);

    // A second round where the receiver refuses: the name returns.
    let action2 = registry
        .nft_transfer_call(
            "dave".to_string(),
            "alice".to_string(),
            None,
            None,
            "payload".to_string(),
            &ctx("carol", "carol", 1, 7),
        )
        .unwrap();
    assert_eq!(action2.token_id, "alice".to_string());
    let kept2 = registry
        .nft_resolve_transfer(
            "carol".to_string(),
            "dave".to_string(),
            "alice".to_string(),
            false,
            &ctx("registry", "carol", 0, 8),
        )
        .unwrap();
    assert!(!kept2);
    assert_eq!(
        registry.nft_token(&"alice".to_string()).unwrap().owner_id,
        "carol".to_string()
    );
}

#[test]
fn test_set_default_owner_gate() {
    let mut registry = Registry::new("admin".to_string(), "registry".to_string(), 10, 4, 0);
    registry
        .register_name(
            "alice".to_string(),
            "bob".to_string(),
            TokenMetadata {
                title: "alice.nns".to_string(),
                description: "d".to_string(),
            },
            1,
            &ctx("registry", "bob", 0, 0),
        )
        .unwrap();
    // A minted name can only become someone else's default if they own it.
    let r = registry.set_default("alice".to_string(), &ctx("carol", "carol", 0, 0));
    assert_eq!(r.unwrap_err(), NnsError::Unauthorized);
    // A never-minted name can be pointed at freely, and removed again.
    registry
        .set_default("ghost".to_string(), &ctx("carol", "carol", 0, 0))
        .unwrap();
    assert_eq!(
        registry.default_name(&"carol".to_string()),
        Some("ghost".to_string())
    );
    registry.remove_default(&ctx("carol", "carol", 0, 0));
    assert_eq!(registry.default_name(&"carol".to_string()), None);
}
