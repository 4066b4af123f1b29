use vstd::prelude::*;

use crate::error::PlatformError;
use crate::registry::AssetRegistry;
use crate::state::AccountId;
use crate::state::FAR_FUTURE_TIMESTAMP;
use crate::state::PlatformConfig;
use crate::store::ConfigStore;

verus! {

/// What a freshly initialized configuration looks like: the given authority,
/// treasury and prices; no asset groups registered; empty metadata locators;
/// every edition counter at 0; and the mint window closed by the far-future
/// sentinel.
pub open spec fn spec_is_initial_config(
    config: PlatformConfig,
    authority: AccountId,
    treasury: AccountId,
    bronze_price: u64,
    silver_price: u64,
    gold_price: u64,
) -> bool {
    &&& config.authority == authority
    &&& config.treasury == treasury
    &&& config.bronze_price == bronze_price
    &&& config.silver_price == silver_price
    &&& config.gold_price == gold_price
    &&& config.bronze_collection is None
    &&& config.silver_collection is None
    &&& config.gold_collection is None
    &&& config.bronze_nft_uri@ == Seq::<char>::empty()
    &&& config.silver_nft_uri@ == Seq::<char>::empty()
    &&& config.gold_nft_uri@ == Seq::<char>::empty()
    &&& config.bronze_next_edition == 0
    &&& config.silver_next_edition == 0
    &&& config.gold_next_edition == 0
    &&& config.mint_open_timestamp == FAR_FUTURE_TIMESTAMP
    &&& config.first_edition_timestamp == 0
}

/// Builds the initial configuration record.
pub fn new_platform_config(
    authority: AccountId,
    treasury: AccountId,
    bronze_price: u64,
    silver_price: u64,
    gold_price: u64,
) -> (config: PlatformConfig)
    ensures
        spec_is_initial_config(config, authority, treasury, bronze_price, silver_price, gold_price),
{
    PlatformConfig {
        authority,
        treasury,
        bronze_collection: None,
        silver_collection: None,
        gold_collection: None,
        bronze_price,
        silver_price,
        gold_price,
        bronze_nft_uri: String::new(),
        silver_nft_uri: String::new(),
        gold_nft_uri: String::new(),
        bronze_next_edition: 0,
        silver_next_edition: 0,
        gold_next_edition: 0,
        mint_open_timestamp: FAR_FUTURE_TIMESTAMP,
        first_edition_timestamp: 0,
    }
}

/// Creates the singleton configuration. Succeeds exactly once: where a
/// configuration already exists, nothing changes and `created` is false.
pub fn initialize_platform(
    store: &mut ConfigStore,
    authority: AccountId,
    treasury: AccountId,
    bronze_price: u64,
    silver_price: u64,
    gold_price: u64,
) -> (created: bool)
    ensures
        created == old(store).spec_config() is None,
        created ==> match final(store).spec_config() {
            Some(config) => spec_is_initial_config(
                config,
                authority,
                treasury,
                bronze_price,
                silver_price,
                gold_price,
            ),
            None => false,
        },
        !created ==> final(store).spec_config() == old(store).spec_config(),
{
    let config = new_platform_config(authority, treasury, bronze_price, silver_price, gold_price);
    store.create_if_absent(config)
}

/// Registers the three asset groups, one per tier, administered by
/// `authority`, and records their identifiers and metadata locators in the
/// configuration. Only the configured authority may do so; any other caller
/// is turned away with `Unauthorized` and neither the configuration nor the
/// registry changes. The group identifiers are fresh and pairwise distinct;
/// the three creations and the configuration update land together.
pub fn initialize_nft_collections(
    config: &mut PlatformConfig,
    registry: &mut AssetRegistry,
    authority: AccountId,
    bronze_uri: String,
    silver_uri: String,
    gold_uri: String,
) -> (r: Result<(AccountId, AccountId, AccountId), PlatformError>)
    requires
        old(registry).wf(),
        old(registry).spec_next_group_id() + 3 <= u64::MAX,
    ensures
        final(registry).wf(),
        r is Ok <==> authority == old(config).authority,
        r is Err ==> {
            &&& r == Err::<(AccountId, AccountId, AccountId), PlatformError>(
                PlatformError::Unauthorized,
            )
            &&& *final(config) == *old(config)
            &&& final(registry).groups() == old(registry).groups()
            &&& final(registry).assets() == old(registry).assets()
            &&& final(registry).spec_next_group_id() == old(registry).spec_next_group_id()
            &&& final(registry).spec_next_asset_id() == old(registry).spec_next_asset_id()
        },
        r matches Ok(groups) ==> {
            &&& groups.0 == old(registry).spec_next_group_id()
            &&& groups.1 == old(registry).spec_next_group_id() + 1
            &&& groups.2 == old(registry).spec_next_group_id() + 2
            &&& *final(config) == (PlatformConfig {
                bronze_collection: Some(groups.0),
                silver_collection: Some(groups.1),
                gold_collection: Some(groups.2),
                bronze_nft_uri: final(config).bronze_nft_uri,
                silver_nft_uri: final(config).silver_nft_uri,
                gold_nft_uri: final(config).gold_nft_uri,
                ..*old(config)
            })
            &&& final(config).bronze_nft_uri@ == bronze_uri@
            &&& final(config).silver_nft_uri@ == silver_uri@
            &&& final(config).gold_nft_uri@ == gold_uri@
            &&& forall|g: AccountId| #[trigger]
                final(registry).groups().contains_key(g) <==> old(registry).groups().contains_key(
                    g,
                ) || g == groups.0 || g == groups.1 || g == groups.2
            &&& forall|g: AccountId| #[trigger]
                old(registry).groups().contains_key(g) ==> final(registry).groups()[g] == old(
                    registry,
                ).groups()[g]
            &&& final(registry).groups()[groups.0].admin == authority
            &&& final(registry).groups()[groups.1].admin == authority
            &&& final(registry).groups()[groups.2].admin == authority
            &&& final(registry).groups()[groups.0].uri@ == bronze_uri@
            &&& final(registry).groups()[groups.1].uri@ == silver_uri@
            &&& final(registry).groups()[groups.2].uri@ == gold_uri@
            &&& final(registry).groups()[groups.0].name@ == "Movie Bronze Pass"@
            &&& final(registry).groups()[groups.1].name@ == "Movie Silver Pass"@
            &&& final(registry).groups()[groups.2].name@ == "Movie Gold Pass"@
            &&& final(registry).assets() == old(registry).assets()
            &&& final(registry).spec_next_asset_id() == old(registry).spec_next_asset_id()
            &&& final(registry).spec_next_group_id() == old(registry).spec_next_group_id() + 3
        },
{
    if authority != config.authority {
        return Err(PlatformError::Unauthorized);
    }
    let bronze_group = registry.create_asset_group(
        authority,
        String::from_str("Movie Bronze Pass"),
        bronze_uri.clone(),
    );
    let silver_group = registry.create_asset_group(
        authority,
        String::from_str("Movie Silver Pass"),
        silver_uri.clone(),
    );
    let gold_group = registry.create_asset_group(
        authority,
        String::from_str("Movie Gold Pass"),
        gold_uri.clone(),
    );
    config.bronze_collection = Some(bronze_group);
    config.silver_collection = Some(silver_group);
    config.gold_collection = Some(gold_group);
    config.bronze_nft_uri = bronze_uri;
    config.silver_nft_uri = silver_uri;
    config.gold_nft_uri = gold_uri;
    Ok((bronze_group, silver_group, gold_group))
}

/// Opens (or re-schedules) the mint window. Only the configured authority may
/// do so; any other caller is turned away with `Unauthorized` and the
/// configuration stays exactly as it was.
pub fn open_mint(config: &mut PlatformConfig, authority: AccountId, mint_open_timestamp: i64) -> (r:
    Result<(), PlatformError>)
    ensures
        r is Ok <==> authority == old(config).authority,
        r is Err ==> r == Err::<(), PlatformError>(PlatformError::Unauthorized) && *final(config)
            == *old(config),
        r is Ok ==> *final(config) == (PlatformConfig {
            mint_open_timestamp,
            first_edition_timestamp: mint_open_timestamp,
            ..*old(config)
        }),
{
    if authority != config.authority {
        return Err(PlatformError::Unauthorized);
    }
    config.mint_open_timestamp = mint_open_timestamp;
    config.first_edition_timestamp = mint_open_timestamp;
    Ok(())
}

} // verus!
