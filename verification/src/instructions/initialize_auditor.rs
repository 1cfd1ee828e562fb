//! Registering an auditor.

use vstd::prelude::*;
use crate::identity::Identity;
use crate::state::Auditor;
use crate::tier::AuditorTier;

verus! {

/// Reputation that a new auditor starts with.
pub const STARTING_REPUTATION: u16 = 20;

/// What registering an auditor reads.
#[derive(Clone, Copy, Debug)]
pub struct InitializeAuditor {
    /// The caller, who becomes the auditor.
    pub authority: Identity,
}

/// An auditor as registered: of the community tier, with the starting
/// reputation, nothing staked and not yet active.
pub open spec fn registered(authority: Identity) -> Auditor {
    Auditor {
        pubkey: authority,
        tier: AuditorTier::Tier3,
        skills_audited: 0,
        reputation: STARTING_REPUTATION,
        total_earned: 0,
        stake_amount: 0,
        active: false,
        locked_until: 0,
    }
}

/// Registers the caller of `ctx` as an auditor. The new record is returned
/// for the caller to store.
pub fn handler(ctx: &InitializeAuditor) -> (auditor: Auditor)
    ensures
        auditor == registered(ctx.authority),
        auditor.wf(),
{
    Auditor {
        pubkey: ctx.authority,
        tier: AuditorTier::Tier3,
        skills_audited: 0,
        reputation: STARTING_REPUTATION,
        total_earned: 0,
        stake_amount: 0,
        active: false,
        locked_until: 0,
    }
}

} // verus!
