use vstd::prelude::*;

verus! {

/// Identity of a principal, a treasury, an asset or an asset group.
pub type AccountId = u64;

/// Seconds a credential stays valid after minting: 30 days.
pub const PASS_VALIDITY_SECS: i64 = 30 * 24 * 60 * 60;

/// Sentinel mint-open instant (January 1, 3000 UTC): minting stays closed
/// until an administrator overwrites it with a real timestamp.
pub const FAR_FUTURE_TIMESTAMP: i64 = 32503680000;

/// The three membership levels, as a closed enumeration. On the wire a tier
/// travels as a code in 0..=2; `from_code` is the only way in, so an invalid
/// code is rejected exactly once, at the boundary.
#[derive(Clone, Copy, Debug, PartialEq, Eq, Structural)]
pub enum Tier {
    Bronze,
    Silver,
    Gold,
}

/// A tier code is one of 0 (Bronze), 1 (Silver), 2 (Gold).
pub open spec fn spec_valid_tier(tier: u8) -> bool {
    tier <= 2
}

impl Tier {
    /// The wire code of this tier.
    pub open spec fn spec_code(self) -> u8 {
        match self {
            Tier::Bronze => 0,
            Tier::Silver => 1,
            Tier::Gold => 2,
        }
    }

    pub fn code(self) -> (code: u8)
        ensures
            code == self.spec_code(),
    {
        match self {
            Tier::Bronze => 0,
            Tier::Silver => 1,
            Tier::Gold => 2,
        }
    }

    /// Decodes a wire code; exactly the codes 0..=2 are accepted.
    pub fn from_code(code: u8) -> (tier: Option<Tier>)
        ensures
            match tier {
                Some(t) => spec_valid_tier(code) && t.spec_code() == code,
                None => !spec_valid_tier(code),
            },
    {
        match code {
            0 => Some(Tier::Bronze),
            1 => Some(Tier::Silver),
            2 => Some(Tier::Gold),
            _ => None,
        }
    }
}

/// A membership credential: one slot per principal, written exactly once at
/// mint time and never mutated afterward (expiry is evaluated at read time).
#[derive(Clone, Copy, Debug, PartialEq, Eq, Structural)]
pub struct MemberPass {
    pub owner: AccountId,
    pub tier: u8,
    pub minted_at: i64,
    pub expires_at: i64,
    pub nft_edition: u64,
    pub nft_asset: AccountId,
}

/// The singleton platform configuration: per-tier prices, asset groups,
/// metadata locators and edition counters, plus the mint window and the
/// administering authority.
#[derive(Clone, Debug)]
pub struct PlatformConfig {
    pub authority: AccountId,
    pub treasury: AccountId,
    pub bronze_collection: Option<AccountId>,
    pub silver_collection: Option<AccountId>,
    pub gold_collection: Option<AccountId>,
    pub bronze_price: u64,
    pub silver_price: u64,
    pub gold_price: u64,
    pub bronze_nft_uri: String,
    pub silver_nft_uri: String,
    pub gold_nft_uri: String,
    pub bronze_next_edition: u64,
    pub silver_next_edition: u64,
    pub gold_next_edition: u64,
    pub mint_open_timestamp: i64,
    pub first_edition_timestamp: i64,
}

impl PlatformConfig {
    /// Price of a tier, by wire code.
    pub open spec fn spec_price(&self, tier: u8) -> u64 {
        if tier == 0 {
            self.bronze_price
        } else if tier == 1 {
            self.silver_price
        } else {
            self.gold_price
        }
    }

    /// Registered asset group of a tier, by wire code; `None` until the
    /// groups have been registered.
    pub open spec fn spec_collection(&self, tier: u8) -> Option<AccountId> {
        if tier == 0 {
            self.bronze_collection
        } else if tier == 1 {
            self.silver_collection
        } else {
            self.gold_collection
        }
    }

    /// Metadata locator of a tier, by wire code.
    pub open spec fn spec_uri(&self, tier: u8) -> Seq<char> {
        if tier == 0 {
            self.bronze_nft_uri@
        } else if tier == 1 {
            self.silver_nft_uri@
        } else {
            self.gold_nft_uri@
        }
    }

    /// Next edition number of a tier, by wire code.
    pub open spec fn spec_next_edition(&self, tier: u8) -> u64 {
        if tier == 0 {
            self.bronze_next_edition
        } else if tier == 1 {
            self.silver_next_edition
        } else {
            self.gold_next_edition
        }
    }

    pub fn price(&self, tier: Tier) -> (price: u64)
        ensures
            price == self.spec_price(tier.spec_code()),
    {
        match tier {
            Tier::Bronze => self.bronze_price,
            Tier::Silver => self.silver_price,
            Tier::Gold => self.gold_price,
        }
    }

    pub fn collection(&self, tier: Tier) -> (group: Option<AccountId>)
        ensures
            group == self.spec_collection(tier.spec_code()),
    {
        match tier {
            Tier::Bronze => self.bronze_collection,
            Tier::Silver => self.silver_collection,
            Tier::Gold => self.gold_collection,
        }
    }

    pub fn next_edition(&self, tier: Tier) -> (edition: u64)
        ensures
            edition == self.spec_next_edition(tier.spec_code()),
    {
        match tier {
            Tier::Bronze => self.bronze_next_edition,
            Tier::Silver => self.silver_next_edition,
            Tier::Gold => self.gold_next_edition,
        }
    }
}

/// The configuration after one successful mint of `tier`: the tier's edition
/// counter moved up by one, everything else untouched.
pub open spec fn spec_bump_edition(config: PlatformConfig, tier: u8) -> PlatformConfig {
    if tier == 0 {
        PlatformConfig { bronze_next_edition: (config.bronze_next_edition + 1) as u64, ..config }
    } else if tier == 1 {
        PlatformConfig { silver_next_edition: (config.silver_next_edition + 1) as u64, ..config }
    } else {
        PlatformConfig { gold_next_edition: (config.gold_next_edition + 1) as u64, ..config }
    }
}

/// Every stored credential carries a valid tier code and a validity window of
/// exactly `PASS_VALIDITY_SECS` after its mint instant.
pub open spec fn windows_wf(passes: Map<AccountId, MemberPass>) -> bool {
    forall|k: AccountId| #[trigger]
        passes.contains_key(k) ==> spec_valid_tier(passes[k].tier) && passes[k].expires_at
            == passes[k].minted_at + PASS_VALIDITY_SECS
}

/// Credentials of one tier never share an edition number.
pub open spec fn editions_unique(passes: Map<AccountId, MemberPass>) -> bool {
    forall|k1: AccountId, k2: AccountId|
        passes.contains_key(k1) && passes.contains_key(k2) && k1 != k2 && #[trigger] passes[k1].tier
            == #[trigger] passes[k2].tier ==> passes[k1].nft_edition != passes[k2].nft_edition
}

/// Every stored credential's edition lies below its tier's counter, so the
/// counter value is always fresh.
pub open spec fn editions_bounded(
    passes: Map<AccountId, MemberPass>,
    config: PlatformConfig,
) -> bool {
    forall|k: AccountId| #[trigger]
        passes.contains_key(k) ==> passes[k].nft_edition < config.spec_next_edition(passes[k].tier)
}

/// Joint well-formedness of the credential store and the configuration's
/// counters; established empty and preserved by every mint.
pub open spec fn store_wf(passes: Map<AccountId, MemberPass>, config: PlatformConfig) -> bool {
    windows_wf(passes) && editions_unique(passes) && editions_bounded(passes, config)
}

/// A viewer-written note about a title. Carries no mutation logic in this
/// core; held as plain data.
#[derive(Clone, Debug)]
pub struct CommentRecord {
    pub authority: AccountId,
    pub movie_id: [u8; 32],
    pub content: String,
    pub created_at: i64,
}

/// A viewer's score for a title. Carries no mutation logic in this core;
/// held as plain data.
#[derive(Clone, Copy, Debug)]
pub struct RatingRecord {
    pub owner: AccountId,
    pub score: u8,
    pub movie_id: [u8; 32],
    pub created_at: i64,
}

} // verus!
