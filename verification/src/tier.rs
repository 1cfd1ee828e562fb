//! Auditor tiers and the attestation weight each one carries.

use vstd::prelude::*;

verus! {

/// How thoroughly an auditor has been vetted. A higher tier lends more
/// weight to an attestation.
#[derive(Clone, Copy, Debug, PartialEq, Eq, Structural)]
pub enum AuditorTier {
    /// Top audit firms.
    Tier1,
    /// Verified firms.
    Tier2,
    /// Community auditors.
    Tier3,
}

/// The weight table: points that one attestation of the given tier adds to
/// a trust score.
pub open spec fn tier_weight(tier: AuditorTier) -> nat {
    match tier {
        AuditorTier::Tier1 => 100,
        AuditorTier::Tier2 => 50,
        AuditorTier::Tier3 => 20,
    }
}

impl AuditorTier {
    /// Attestation weight of this tier.
    pub fn weight(&self) -> (w: u16)
        ensures
            w as nat == tier_weight(*self),
    {
        match self {
            AuditorTier::Tier1 => 100,
            AuditorTier::Tier2 => 50,
            AuditorTier::Tier3 => 20,
        }
    }
}

} // verus!
