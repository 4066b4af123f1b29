use vstd::prelude::*;

use crate::error::PlatformError;
use crate::state::windows_wf;
use crate::state::AccountId;
use crate::state::MemberPass;
use crate::state::PASS_VALIDITY_SECS;
use crate::store::CredentialStore;

verus! {

/// What a verification of `user`'s credential at instant `now` reports:
/// `PassNotFound` where no slot exists; `PassExpired` from the end of the
/// validity window on; `Unauthorized` where the slot is not owned by `user`;
/// otherwise the credential's tier.
pub open spec fn spec_verify(
    passes: Map<AccountId, MemberPass>,
    user: AccountId,
    now: i64,
) -> Result<u8, PlatformError> {
    if !passes.contains_key(user) {
        Err(PlatformError::PassNotFound)
    } else if now >= passes[user].expires_at {
        Err(PlatformError::PassExpired)
    } else if passes[user].owner != user {
        Err(PlatformError::Unauthorized)
    } else {
        Ok(passes[user].tier)
    }
}

/// Read-only validity check of `user`'s credential at instant `now`.
pub fn verify_pass(passes: &CredentialStore, user: AccountId, now: i64) -> (r: Result<
    u8,
    PlatformError,
>)
    ensures
        r == spec_verify(passes@, user, now),
{
    match passes.get(user) {
        None => Err(PlatformError::PassNotFound),
        Some(pass) => {
            if now >= pass.expires_at {
                Err(PlatformError::PassExpired)
            } else if pass.owner != user {
                Err(PlatformError::Unauthorized)
            } else {
                Ok(pass.tier)
            }
        },
    }
}

/// The check tier-restricted actions run first: verifies the credential and
/// additionally turns a tier below `min_tier` away with `TierTooLow`.
pub fn require_tier(passes: &CredentialStore, user: AccountId, now: i64, min_tier: u8) -> (r: Result<
    u8,
    PlatformError,
>)
    ensures
        match spec_verify(passes@, user, now) {
            Err(e) => r == Err::<u8, PlatformError>(e),
            Ok(tier) => if tier >= min_tier {
                r == Ok::<u8, PlatformError>(tier)
            } else {
                r == Err::<u8, PlatformError>(PlatformError::TierTooLow)
            },
        },
{
    let tier = match verify_pass(passes, user, now) {
        Ok(tier) => tier,
        Err(e) => {
            return Err(e);
        },
    };
    if tier < min_tier {
        return Err(PlatformError::TierTooLow);
    }
    Ok(tier)
}

/// Law: in a well-formed store, a credential verifies as expired exactly from
/// `minted_at + PASS_VALIDITY_SECS` on, and at any instant strictly before
/// that boundary its owner is handed the credential's tier.
pub proof fn lemma_expiry_boundary(
    passes: Map<AccountId, MemberPass>,
    user: AccountId,
    now: i64,
)
    requires
        windows_wf(passes),
        passes.contains_key(user),
    ensures
        spec_verify(passes, user, now) == Err::<u8, PlatformError>(PlatformError::PassExpired)
            <==> now >= passes[user].minted_at + PASS_VALIDITY_SECS,
        now < passes[user].minted_at + PASS_VALIDITY_SECS && passes[user].owner == user
            ==> spec_verify(passes, user, now) == Ok::<u8, PlatformError>(passes[user].tier),
{
}

} // verus!
