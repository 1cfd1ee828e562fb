//! Registering a skill.

use vstd::prelude::*;
use crate::error::ErrorCode;
use crate::identity::Identity;
use crate::state::{ConsensusStatus, Skill, SkillRegistry, SkillView};

verus! {

/// What registering a skill reads and changes.
#[derive(Clone, Copy, Debug)]
pub struct MintSkill {
    /// The caller, who becomes the skill's creator.
    pub creator: Identity,
    pub registry: SkillRegistry,
    /// Bump seed of the address at which the skill will be stored.
    pub bump: u8,
}

/// Why a skill is not registered, or `None` where it is: the registry's
/// count of skills must have room for it.
pub open spec fn refusal(ctx: MintSkill) -> Option<ErrorCode> {
    if ctx.registry.skill_count == u64::MAX {
        Some(ErrorCode::ArithmeticOverflow)
    } else {
        None
    }
}

/// A skill as it is registered at time `now`: no attestation, no
/// consensus, a trust score of 0 and zeroed statistics. It has never been
/// used, so the time of its last use is 0.
pub open spec fn minted(
    creator: Identity,
    bump: u8,
    skill_id: [u8; 32],
    price_usdc: u64,
    ipfs_hash: Seq<char>,
    creator_signature: [u8; 64],
    now: i64,
) -> SkillView {
    SkillView {
        skill_id,
        creator,
        creator_signature,
        price_usdc,
        ipfs_hash,
        audit_report_hash: Seq::empty(),
        auditor_count: 0,
        auditors: Seq::empty(),
        consensus_status: ConsensusStatus::Pending,
        consensus_record: None,
        trust_score: 0,
        execution_count: 0,
        success_count: 0,
        total_earned: 0,
        last_used: 0,
        created_at: now,
        bump,
    }
}

/// Registers a skill for the creator of `ctx` at time `now` and counts it
/// in the registry. The new skill is returned for the caller to store. A
/// refusal changes nothing.
pub fn handler(
    ctx: &mut MintSkill,
    skill_id: [u8; 32],
    price_usdc: u64,
    ipfs_hash: String,
    creator_signature: [u8; 64],
    now: i64,
) -> (result: Result<Skill, ErrorCode>)
    ensures
        match result {
            Ok(skill) => {
                &&& refusal(*old(ctx)).is_none()
                &&& skill@ == minted(
                    old(ctx).creator,
                    old(ctx).bump,
                    skill_id,
                    price_usdc,
                    ipfs_hash@,
                    creator_signature,
                    now,
                )
                &&& skill.wf()
                &&& final(ctx).registry == (SkillRegistry {
                    skill_count: (old(ctx).registry.skill_count + 1) as u64,
                    ..old(ctx).registry
                })
                &&& final(ctx).creator == old(ctx).creator
                &&& final(ctx).bump == old(ctx).bump
            },
            Err(error) => {
                &&& refusal(*old(ctx)) == Some(error)
                &&& *final(ctx) == *old(ctx)
            },
        },
{
    if ctx.registry.skill_count == u64::MAX {
        return Err(ErrorCode::ArithmeticOverflow);
    }
    let skill = Skill {
        skill_id,
        creator: ctx.creator,
        creator_signature,
        price_usdc,
        ipfs_hash,
        audit_report_hash: String::new(),
        auditor_count: 0,
        auditors: Vec::new(),
        consensus_status: ConsensusStatus::Pending,
        consensus_record: None,
        trust_score: 0,
        execution_count: 0,
        success_count: 0,
        total_earned: 0,
        last_used: 0,
        created_at: now,
        bump: ctx.bump,
    };
    ctx.registry.skill_count = ctx.registry.skill_count + 1;
    Ok(skill)
}

} // verus!
