use vstd::prelude::*;

use crate::error::PlatformError;
use crate::label::pass_label;
use crate::label::spec_pass_label;
use crate::ledger::Ledger;
use crate::registry::AssetGroup;
use crate::registry::AssetRegistry;
use crate::state::spec_bump_edition;
use crate::state::spec_valid_tier;
use crate::state::store_wf;
use crate::state::AccountId;
use crate::state::MemberPass;
use crate::state::PlatformConfig;
use crate::state::Tier;
use crate::state::PASS_VALIDITY_SECS;
use crate::store::CredentialStore;

verus! {

/// The first reason a mint attempt fails, or `None` where it is owed
/// success. The checks run in this order: tier validity, the mint window,
/// the asset-group target, the principal's slot, the edition counter's
/// headroom, and only then the payment — so every local rule is settled
/// before the irreversible transfer is attempted.
pub open spec fn spec_mint_error(
    config: PlatformConfig,
    passes: Map<AccountId, MemberPass>,
    groups: Map<AccountId, AssetGroup>,
    user_balance: u64,
    user: AccountId,
    tier: u8,
    collection: AccountId,
    now: i64,
) -> Option<PlatformError> {
    if !spec_valid_tier(tier) {
        Some(PlatformError::InvalidTier)
    } else if now < config.mint_open_timestamp {
        Some(PlatformError::MintingNotOpen)
    } else if config.spec_collection(tier) != Some(collection) || !groups.contains_key(collection) {
        Some(PlatformError::InvalidCollection)
    } else if passes.contains_key(user) {
        Some(PlatformError::PassAlreadyActive)
    } else if config.spec_next_edition(tier) == u64::MAX {
        Some(PlatformError::EditOverflow)
    } else if user_balance < config.spec_price(tier) {
        Some(PlatformError::InsufficientFunds)
    } else {
        None
    }
}

/// The credential a successful mint writes: owned by the principal, valid
/// for exactly `PASS_VALIDITY_SECS` from `now`, carrying the tier's current
/// edition number and the freshly issued asset.
pub open spec fn spec_minted_pass(
    config: PlatformConfig,
    asset_id: AccountId,
    user: AccountId,
    tier: u8,
    now: i64,
) -> MemberPass {
    MemberPass {
        owner: user,
        tier,
        minted_at: now,
        expires_at: (now + PASS_VALIDITY_SECS) as i64,
        nft_edition: config.spec_next_edition(tier),
        nft_asset: asset_id,
    }
}

/// The edition number the next successful mint of `tier` will carry.
pub fn get_next_edition_number(config: &PlatformConfig, tier: u8) -> (r: Result<u64, PlatformError>)
    ensures
        spec_valid_tier(tier) ==> r == Ok::<u64, PlatformError>(config.spec_next_edition(tier)),
        !spec_valid_tier(tier) ==> r == Err::<u64, PlatformError>(PlatformError::InvalidTier),
{
    match Tier::from_code(tier) {
        Some(t) => Ok(config.next_edition(t)),
        None => Err(PlatformError::InvalidTier),
    }
}

/// Law: a freshly numbered credential never collides. Inserting a pass that
/// carries its tier's current counter value keeps the store well-formed
/// against the bumped counter, and its edition number differs from the
/// edition of every credential of that tier stored so far — so the editions
/// of one tier stay pairwise distinct and, the counter moving up by exactly
/// one per successful mint from 0, form a gap-free increasing sequence.
pub proof fn lemma_mint_preserves_store_wf(
    passes: Map<AccountId, MemberPass>,
    config: PlatformConfig,
    user: AccountId,
    pass: MemberPass,
)
    requires
        store_wf(passes, config),
        !passes.contains_key(user),
        spec_valid_tier(pass.tier),
        pass.nft_edition == config.spec_next_edition(pass.tier),
        config.spec_next_edition(pass.tier) < u64::MAX,
        pass.expires_at == pass.minted_at + PASS_VALIDITY_SECS,
    ensures
        store_wf(passes.insert(user, pass), spec_bump_edition(config, pass.tier)),
        forall|k: AccountId|
            passes.contains_key(k) && (#[trigger] passes[k].tier) == pass.tier ==> passes[k].nft_edition
                != pass.nft_edition,
{
    let m2 = passes.insert(user, pass);
    let c2 = spec_bump_edition(config, pass.tier);
    assert forall|k: AccountId| #[trigger] m2.contains_key(k) implies spec_valid_tier(m2[k].tier)
        && m2[k].expires_at == m2[k].minted_at + PASS_VALIDITY_SECS by {
        if k != user {
            assert(passes.contains_key(k));
        }
    }
    assert forall|k: AccountId| #[trigger]
        m2.contains_key(k) implies m2[k].nft_edition < c2.spec_next_edition(m2[k].tier) by {
        if k != user {
            assert(passes.contains_key(k));
            assert(passes[k].nft_edition < config.spec_next_edition(passes[k].tier));
        }
    }
    assert forall|k1: AccountId, k2: AccountId|
        m2.contains_key(k1) && m2.contains_key(k2) && k1 != k2 && (#[trigger] m2[k1].tier) == (
        #[trigger] m2[k2].tier) implies m2[k1].nft_edition != m2[k2].nft_edition by {
        if k1 != user && k2 != user {
            assert(passes.contains_key(k1) && passes.contains_key(k2));
        } else if k1 == user {
            assert(passes.contains_key(k2));
            assert(passes[k2].nft_edition < config.spec_next_edition(passes[k2].tier));
        } else {
            assert(passes.contains_key(k1));
            assert(passes[k1].nft_edition < config.spec_next_edition(passes[k1].tier));
        }
    }
}

/// Law: while a principal's credential slot is occupied, no mint attempt for
/// that principal can succeed — with every other precondition in place the
/// attempt reports exactly `PassAlreadyActive`. Together with the mint
/// contract (success occupies the slot, nothing ever vacates it), at most one
/// mint per principal ever succeeds.
pub proof fn lemma_exclusivity(
    config: PlatformConfig,
    passes: Map<AccountId, MemberPass>,
    groups: Map<AccountId, AssetGroup>,
    user_balance: u64,
    user: AccountId,
    tier: u8,
    collection: AccountId,
    now: i64,
)
    requires
        passes.contains_key(user),
        spec_valid_tier(tier),
        now >= config.mint_open_timestamp,
        config.spec_collection(tier) == Some(collection),
        groups.contains_key(collection),
    ensures
        spec_mint_error(config, passes, groups, user_balance, user, tier, collection, now) == Some(
            PlatformError::PassAlreadyActive,
        ),
{
}

/// Issues a credential for `user` in the requested tier, as one atomic unit:
/// it validates the request, settles the payment into the treasury, issues a
/// unique asset, writes the credential slot, and moves the tier's edition
/// counter up by one. A failure at any step leaves every component exactly as
/// it was; the only irreversible step, the payment, runs after every local
/// check (the counter's headroom included) has passed.
pub fn mint_pass(
    config: &mut PlatformConfig,
    passes: &mut CredentialStore,
    ledger: &mut Ledger,
    registry: &mut AssetRegistry,
    user: AccountId,
    tier: u8,
    collection: AccountId,
    now: i64,
) -> (r: Result<MemberPass, PlatformError>)
    requires
        old(registry).wf(),
        old(registry).spec_next_asset_id() < u64::MAX,
        now + PASS_VALIDITY_SECS <= i64::MAX,
        user != old(config).treasury ==> old(ledger).balance(old(config).treasury) + old(
            config,
        ).spec_price(tier) <= u64::MAX,
    ensures
        final(registry).wf(),
        ({
            let err = spec_mint_error(
                *old(config),
                old(passes)@,
                old(registry).groups(),
                old(ledger).balance(user),
                user,
                tier,
                collection,
                now,
            );
            match r {
                Ok(pass) => err is None && pass == spec_minted_pass(
                    *old(config),
                    old(registry).spec_next_asset_id(),
                    user,
                    tier,
                    now,
                ),
                Err(e) => err == Some(e),
            }
        }),
        r is Err ==> {
            &&& *final(config) == *old(config)
            &&& final(passes)@ == old(passes)@
            &&& forall|a: AccountId| #[trigger] final(ledger).balance(a) == old(ledger).balance(a)
            &&& final(registry).assets() == old(registry).assets()
            &&& final(registry).groups() == old(registry).groups()
            &&& final(registry).spec_next_asset_id() == old(registry).spec_next_asset_id()
            &&& final(registry).spec_next_group_id() == old(registry).spec_next_group_id()
        },
        r matches Ok(pass) ==> {
            &&& *final(config) == spec_bump_edition(*old(config), tier)
            &&& final(passes)@ == old(passes)@.insert(user, pass)
            &&& user == old(config).treasury ==> forall|a: AccountId| #[trigger]
                final(ledger).balance(a) == old(ledger).balance(a)
            &&& user != old(config).treasury ==> {
                &&& final(ledger).balance(user) == old(ledger).balance(user) - old(
                    config,
                ).spec_price(tier)
                &&& final(ledger).balance(old(config).treasury) == old(ledger).balance(
                    old(config).treasury,
                ) + old(config).spec_price(tier)
                &&& forall|a: AccountId|
                    a != user && a != old(config).treasury ==> #[trigger] final(ledger).balance(a)
                        == old(ledger).balance(a)
            }
            &&& final(registry).spec_next_asset_id() == old(registry).spec_next_asset_id() + 1
            &&& !old(registry).assets().contains_key(pass.nft_asset)
            &&& final(registry).assets().contains_key(pass.nft_asset)
            &&& final(registry).assets()[pass.nft_asset].group == collection
            &&& final(registry).assets()[pass.nft_asset].owner == user
            &&& final(registry).assets()[pass.nft_asset].name@ == spec_pass_label(
                tier,
                pass.nft_edition,
            )
            &&& final(registry).assets()[pass.nft_asset].uri@ == old(config).spec_uri(tier)
            &&& forall|a: AccountId| #[trigger]
                old(registry).assets().contains_key(a) ==> final(registry).assets()[a] == old(
                    registry,
                ).assets()[a]
            &&& final(registry).groups() == old(registry).groups()
            &&& final(registry).spec_next_group_id() == old(registry).spec_next_group_id()
        },
        store_wf(old(passes)@, *old(config)) ==> store_wf(final(passes)@, *final(config)),
{
    let tier_enum = match Tier::from_code(tier) {
        Some(t) => t,
        None => {
            return Err(PlatformError::InvalidTier);
        },
    };
    if now < config.mint_open_timestamp {
        return Err(PlatformError::MintingNotOpen);
    }
    let expected_collection = match config.collection(tier_enum) {
        Some(group) => group,
        None => {
            return Err(PlatformError::InvalidCollection);
        },
    };
    if expected_collection != collection || !registry.has_group(collection) {
        return Err(PlatformError::InvalidCollection);
    }
    if passes.contains(user) {
        return Err(PlatformError::PassAlreadyActive);
    }
    let edition_number = config.next_edition(tier_enum);
    if edition_number == u64::MAX {
        return Err(PlatformError::EditOverflow);
    }
    let price = config.price(tier_enum);
    match ledger.transfer(user, config.treasury, price) {
        Ok(()) => (),
        Err(e) => {
            return Err(e);
        },
    }
    let label = pass_label(tier, edition_number);
    let uri = match tier_enum {
        Tier::Bronze => config.bronze_nft_uri.clone(),
        Tier::Silver => config.silver_nft_uri.clone(),
        Tier::Gold => config.gold_nft_uri.clone(),
    };
    let asset_id = registry.mint_asset(collection, user, label, uri);
    let pass = MemberPass {
        owner: user,
        tier,
        minted_at: now,
        expires_at: now + PASS_VALIDITY_SECS,
        nft_edition: edition_number,
        nft_asset: asset_id,
    };
    passes.create_if_absent(user, pass);
    match tier_enum {
        Tier::Bronze => {
            config.bronze_next_edition = edition_number + 1;
        },
        Tier::Silver => {
            config.silver_next_edition = edition_number + 1;
        },
        Tier::Gold => {
            config.gold_next_edition = edition_number + 1;
        },
    }
    proof {
        if store_wf(old(passes)@, *old(config)) {
            lemma_mint_preserves_store_wf(old(passes)@, *old(config), user, pass);
        }
    }
    Ok(pass)
}

} // verus!
