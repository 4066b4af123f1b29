use movie_platform::admin::initialize_nft_collections;
use movie_platform::admin::initialize_platform;
use movie_platform::admin::open_mint;
use movie_platform::error::PlatformError;
use movie_platform::label::pass_label;
use movie_platform::label::u64_to_dec_string;
use movie_platform::ledger::Ledger;
use movie_platform::registry::AssetRegistry;
use movie_platform::state::MemberPass;
use movie_platform::state::Tier;
use movie_platform::store::ConfigStore;
use movie_platform::store::CredentialStore;
use movie_platform::verification::require_tier;
use movie_platform::verification::verify_pass;

#[test]
fn initialize_platform_is_exclusive() {
    let mut store = ConfigStore::new();
    assert!(!store.is_initialized());
    assert!(initialize_platform(&mut store, 1, 2, 10, 20, 30));
    assert!(store.is_initialized());
    let config = store.get().unwrap().clone();
    assert_eq!(config.authority, 1);
    assert_eq!(config.treasury, 2);
    assert_eq!(config.bronze_price, 10);
    assert_eq!(config.silver_price, 20);
    assert_eq!(config.gold_price, 30);
    assert_eq!(config.bronze_collection, None);
    assert_eq!(config.silver_collection, None);
    assert_eq!(config.gold_collection, None);
    assert_eq!(config.bronze_next_edition, 0);
    assert_eq!(config.silver_next_edition, 0);
    assert_eq!(config.gold_next_edition, 0);
    assert_eq!(config.mint_open_timestamp, 32_503_680_000);
    assert_eq!(config.first_edition_timestamp, 0);

    // A second initialization is refused and the first configuration stays.
    assert!(!initialize_platform(&mut store, 9, 9, 1, 1, 1));
    assert_eq!(store.get().unwrap().authority, 1);
}

#[test]
fn open_mint_gates_on_authority() {
    let mut store = ConfigStore::new();
    initialize_platform(&mut store, 1, 2, 10, 20, 30);
    let mut config = store.get().unwrap().clone();

    let r = open_mint(&mut config, 99, 1234);
    assert_eq!(r, Err(PlatformError::Unauthorized));
    // The configuration is untouched.
    assert_eq!(config.mint_open_timestamp, 32_503_680_000);
    assert_eq!(config.first_edition_timestamp, 0);

    assert!(open_mint(&mut config, 1, 1234).is_ok());
    assert_eq!(config.mint_open_timestamp, 1234);
    assert_eq!(config.first_edition_timestamp, 1234);

    // Each call overwrites the previous window.
    assert!(open_mint(&mut config, 1, 9999).is_ok());
    assert_eq!(config.mint_open_timestamp, 9999);
    assert_eq!(config.first_edition_timestamp, 9999);
}

#[test]
fn register_collections_records_groups() {
    let mut store = ConfigStore::new();
    initialize_platform(&mut store, 1, 2, 10, 20, 30);
    let mut config = store.get().unwrap().clone();
    let mut registry = AssetRegistry::new();

    let (b, s, g) = initialize_nft_collections(
        &mut config,
        &mut registry,
        1,
        String::from("uri-b"),
        String::from("uri-s"),
        String::from("uri-g"),
    )
    .unwrap();
    assert_eq!((b, s, g), (0, 1, 2));
    assert_eq!(config.bronze_collection, Some(b));
    assert_eq!(config.silver_collection, Some(s));
    assert_eq!(config.gold_collection, Some(g));
    assert_eq!(config.bronze_nft_uri, "uri-b");
    assert_eq!(config.silver_nft_uri, "uri-s");
    assert_eq!(config.gold_nft_uri, "uri-g");
    assert!(registry.has_group(b));
    assert!(registry.has_group(s));
    assert!(registry.has_group(g));
    assert!(!registry.has_group(3));
}

#[test]
fn register_collections_gates_on_authority() {
    let mut store = ConfigStore::new();
    initialize_platform(&mut store, 1, 2, 10, 20, 30);
    let mut config = store.get().unwrap().clone();
    let mut registry = AssetRegistry::new();

    let r = initialize_nft_collections(
        &mut config,
        &mut registry,
        99,
        String::from("uri-b"),
        String::from("uri-s"),
        String::from("uri-g"),
    );
    assert_eq!(r, Err(PlatformError::Unauthorized));
    // Neither the configuration nor the registry changed.
    assert_eq!(config.bronze_collection, None);
    assert_eq!(config.silver_collection, None);
    assert_eq!(config.gold_collection, None);
    assert_eq!(config.bronze_nft_uri, "");
    assert_eq!(registry.next_group_id(), 0);
    assert!(!registry.has_group(0));
}

#[test]
fn verify_pass_reports_each_outcome() {
    let mut passes = CredentialStore::new();
    assert_eq!(verify_pass(&passes, 5, 0), Err(PlatformError::PassNotFound));

    let pass = MemberPass {
        owner: 5,
        tier: 1,
        minted_at: 1000,
        expires_at: 1000 + 2_592_000,
        nft_edition: 0,
        nft_asset: 0,
    };
    assert!(passes.create_if_absent(5, pass));
    assert_eq!(verify_pass(&passes, 5, 1000), Ok(1));
    assert_eq!(verify_pass(&passes, 5, 1000 + 2_591_999), Ok(1));
    // The boundary instant itself already counts as expired.
    assert_eq!(verify_pass(&passes, 5, 1000 + 2_592_000), Err(PlatformError::PassExpired));
    assert_eq!(verify_pass(&passes, 5, 1000 + 2_592_001), Err(PlatformError::PassExpired));

    // A slot whose record names another owner is refused defensively.
    let stray = MemberPass { owner: 6, ..pass };
    assert!(passes.create_if_absent(7, stray));
    assert_eq!(verify_pass(&passes, 7, 1000), Err(PlatformError::Unauthorized));
}

#[test]
fn require_tier_gates_low_tiers() {
    let mut passes = CredentialStore::new();
    assert_eq!(require_tier(&passes, 5, 0, 1), Err(PlatformError::PassNotFound));

    let pass = MemberPass {
        owner: 5,
        tier: 1,
        minted_at: 0,
        expires_at: 2_592_000,
        nft_edition: 0,
        nft_asset: 0,
    };
    passes.create_if_absent(5, pass);
    assert_eq!(require_tier(&passes, 5, 10, 0), Ok(1));
    assert_eq!(require_tier(&passes, 5, 10, 1), Ok(1));
    assert_eq!(require_tier(&passes, 5, 10, 2), Err(PlatformError::TierTooLow));
    assert_eq!(require_tier(&passes, 5, 2_592_000, 1), Err(PlatformError::PassExpired));
}

#[test]
fn credential_store_creates_at_most_once() {
    let mut passes = CredentialStore::new();
    let first = MemberPass {
        owner: 1,
        tier: 0,
        minted_at: 0,
        expires_at: 2_592_000,
        nft_edition: 0,
        nft_asset: 0,
    };
    let second = MemberPass { tier: 2, ..first };
    assert!(passes.create_if_absent(1, first));
    assert!(!passes.create_if_absent(1, second));
    assert_eq!(passes.get(1), Some(&first));
    assert_eq!(passes.len(), 1);
    assert!(!passes.contains(2));
}

#[test]
fn ledger_moves_exact_amounts() {
    let mut ledger = Ledger::new();
    assert_eq!(ledger.balance_of(1), 0);
    ledger.deposit(1, 100);
    ledger.deposit(1, 20);
    assert_eq!(ledger.balance_of(1), 120);

    assert_eq!(ledger.transfer(1, 2, 121), Err(PlatformError::InsufficientFunds));
    assert_eq!(ledger.balance_of(1), 120);
    assert_eq!(ledger.balance_of(2), 0);

    assert!(ledger.transfer(1, 2, 120).is_ok());
    assert_eq!(ledger.balance_of(1), 0);
    assert_eq!(ledger.balance_of(2), 120);

    // A transfer to the paying account itself moves nothing.
    assert!(ledger.transfer(2, 2, 50).is_ok());
    assert_eq!(ledger.balance_of(2), 120);
    assert_eq!(ledger.transfer(2, 2, 121), Err(PlatformError::InsufficientFunds));
}

#[test]
fn registry_issues_fresh_identifiers() {
    let mut registry = AssetRegistry::new();
    let g0 = registry.create_asset_group(1, String::from("Group A"), String::from("uri-a"));
    let g1 = registry.create_asset_group(2, String::from("Group B"), String::from("uri-b"));
    assert_ne!(g0, g1);

    let a0 = registry.mint_asset(g0, 10, String::from("Item #0"), String::from("u"));
    let a1 = registry.mint_asset(g0, 11, String::from("Item #1"), String::from("u"));
    assert_ne!(a0, a1);
    let record = registry.asset(a1).unwrap();
    assert_eq!(record.owner, 11);
    assert_eq!(record.group, g0);
    assert_eq!(record.name, "Item #1");
    assert!(registry.asset(a1 + 1).is_none());
}

#[test]
fn decimal_rendering_is_exact() {
    assert_eq!(u64_to_dec_string(0), "0");
    assert_eq!(u64_to_dec_string(7), "7");
    assert_eq!(u64_to_dec_string(10), "10");
    assert_eq!(u64_to_dec_string(12345), "12345");
    assert_eq!(u64_to_dec_string(u64::MAX), "18446744073709551615");
}

#[test]
fn pass_labels_name_tier_and_edition() {
    assert_eq!(pass_label(0, 0), "Bronze #0");
    assert_eq!(pass_label(1, 7), "Silver #7");
    assert_eq!(pass_label(2, 123), "Gold #123");
}

#[test]
fn config_getters_follow_tier() {
    let mut store = ConfigStore::new();
    initialize_platform(&mut store, 1, 2, 10, 20, 30);
    let mut config = store.get().unwrap().clone();
    let mut registry = AssetRegistry::new();
    initialize_nft_collections(
        &mut config,
        &mut registry,
        1,
        String::from("b"),
        String::from("s"),
        String::from("g"),
    )
    .unwrap();
    assert_eq!(config.price(Tier::Bronze), 10);
    assert_eq!(config.price(Tier::Silver), 20);
    assert_eq!(config.price(Tier::Gold), 30);
    assert_eq!(config.collection(Tier::Bronze), config.bronze_collection);
    assert_eq!(config.collection(Tier::Gold), config.gold_collection);
    assert_eq!(config.next_edition(Tier::Silver), 0);
    assert_eq!(registry.next_group_id(), 3);
    assert_eq!(registry.next_asset_id(), 0);
}

#[test]
fn tier_codes_round_trip() {
    assert_eq!(Tier::from_code(0), Some(Tier::Bronze));
    assert_eq!(Tier::from_code(1), Some(Tier::Silver));
    assert_eq!(Tier::from_code(2), Some(Tier::Gold));
    assert_eq!(Tier::from_code(3), None);
    assert_eq!(Tier::from_code(255), None);
    assert_eq!(Tier::Bronze.code(), 0);
    assert_eq!(Tier::Silver.code(), 1);
    assert_eq!(Tier::Gold.code(), 2);
}
