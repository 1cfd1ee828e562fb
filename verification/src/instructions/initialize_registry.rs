//! Creating the registry.

use vstd::prelude::*;
use crate::identity::Identity;
use crate::state::SkillRegistry;

verus! {

/// What creating the registry reads.
#[derive(Clone, Copy, Debug)]
pub struct InitializeRegistry {
    /// The caller, who becomes the admin.
    pub authority: Identity,
    /// Bump seed of the address at which the registry will be stored.
    pub bump: u8,
}

/// Creates the registry with the caller of `ctx` as its admin and all
/// counters at 0. The new record is returned for the caller to store.
pub fn handler(ctx: &InitializeRegistry) -> (registry: SkillRegistry)
    ensures
        registry == (SkillRegistry {
            authority: ctx.authority,
            skill_count: 0,
            total_executions: 0,
            total_consensus_records: 0,
            bump: ctx.bump,
        }),
{
    SkillRegistry {
        authority: ctx.authority,
        skill_count: 0,
        total_executions: 0,
        total_consensus_records: 0,
        bump: ctx.bump,
    }
}

} // verus!
