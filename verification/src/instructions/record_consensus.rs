//! Recording the verdict of a consensus round: the certificate that
//! overrides a skill's running trust score.

use vstd::prelude::*;
use crate::error::ErrorCode;
use crate::identity::Identity;
use crate::state::{
    status_of, ConsensusLink, ConsensusRecord, ConsensusRecordView, ConsensusVerdict, Skill,
    SkillRegistry, SkillView, MAX_CONFIDENCE, MAX_TRUST_SCORE,
};
pub use crate::state::CONSENSUS_VALIDITY;

verus! {

/// What recording a consensus round reads and changes.
#[derive(Clone, Debug)]
pub struct RecordConsensus {
    /// Where the new record will be stored.
    pub record_address: Identity,
    /// Bump seed of that address.
    pub record_bump: u8,
    /// Where the skill is stored.
    pub skill_address: Identity,
    pub skill: Skill,
    pub registry: SkillRegistry,
    /// The caller.
    pub authority: Identity,
}

/// The round that a record made now would close: the number of
/// attestations that the skill has.
pub open spec fn current_round(skill: SkillView) -> u8 {
    skill.auditor_count
}

/// Why a submission at time `now` is refused, or `None` where it is
/// accepted. Only the registry's admin may submit; confidence is at most
/// 100 and the score at most 1000; each round of a skill is recorded once;
/// and the expiry time and the registry's count must fit in their records.
pub open spec fn refusal(
    ctx: RecordConsensus,
    confidence: u8,
    trust_score: u16,
    now: i64,
) -> Option<ErrorCode> {
    if ctx.authority != ctx.registry.authority {
        Some(ErrorCode::Unauthorized)
    } else if confidence > MAX_CONFIDENCE || trust_score > MAX_TRUST_SCORE {
        Some(ErrorCode::InvalidConsensusVerdict)
    } else if ctx.skill.consensus_record.is_some() && ctx.skill.consensus_record.unwrap().version
        >= current_round(ctx.skill@) {
        Some(ErrorCode::ConsensusAlreadyRecorded)
    } else if now + CONSENSUS_VALIDITY > i64::MAX || ctx.registry.total_consensus_records
        == u64::MAX {
        Some(ErrorCode::ArithmeticOverflow)
    } else {
        None
    }
}

/// The record of a submission accepted at time `now`. It closes the
/// skill's current round, names the caller as recorder, and expires 365
/// days after the evaluation.
pub open spec fn certificate(
    ctx: RecordConsensus,
    verdict: ConsensusVerdict,
    confidence: u8,
    trust_score: u16,
    evaluator_count: u8,
    mean_score: u16,
    score_variance: u16,
    critical_overlap: u16,
    methodology_count: u8,
    reports_ipfs_hash: Seq<char>,
    reasoning_ipfs_hash: Seq<char>,
    now: i64,
) -> ConsensusRecordView {
    ConsensusRecordView {
        skill: ctx.skill_address,
        version: current_round(ctx.skill@),
        verdict,
        confidence,
        trust_score,
        evaluator_count,
        mean_score,
        score_variance,
        critical_overlap,
        methodology_count,
        reports_ipfs_hash,
        reasoning_ipfs_hash,
        evaluated_at: now,
        expires_at: (now + CONSENSUS_VALIDITY) as i64,
        recorded_by: ctx.authority,
        bump: ctx.record_bump,
    }
}

/// The skill after a verdict with the given score was recorded at
/// `record_address`: the score is the certified one, the status mirrors the
/// verdict, and the skill links to the new record.
pub open spec fn certified(
    skill: SkillView,
    record_address: Identity,
    verdict: ConsensusVerdict,
    trust_score: u16,
) -> SkillView {
    SkillView {
        trust_score,
        consensus_record: Some(
            ConsensusLink { record: record_address, version: current_round(skill) },
        ),
        consensus_status: status_of(verdict),
        ..skill
    }
}

/// The registry after one more consensus record.
pub open spec fn counted(registry: SkillRegistry) -> SkillRegistry {
    SkillRegistry {
        total_consensus_records: (registry.total_consensus_records + 1) as u64,
        ..registry
    }
}

/// Records the verdict of a consensus round on the skill of `ctx`, at time
/// `now`. On success the new record is returned for the caller to store,
/// the skill carries the certified score and status, and the registry has
/// counted the record. A refused submission changes nothing.
pub fn handler(
    ctx: &mut RecordConsensus,
    verdict: ConsensusVerdict,
    confidence: u8,
    trust_score: u16,
    evaluator_count: u8,
    mean_score: u16,
    score_variance: u16,
    critical_overlap: u16,
    methodology_count: u8,
    reports_ipfs_hash: String,
    reasoning_ipfs_hash: String,
    now: i64,
) -> (result: Result<ConsensusRecord, ErrorCode>)
    ensures
        match result {
            Ok(record) => {
                &&& refusal(*old(ctx), confidence, trust_score, now).is_none()
                &&& record.wf()
                &&& record.evaluated_at == now
                &&& record.expires_at == now + CONSENSUS_VALIDITY
                &&& record@ == certificate(
                    *old(ctx),
                    verdict,
                    confidence,
                    trust_score,
                    evaluator_count,
                    mean_score,
                    score_variance,
                    critical_overlap,
                    methodology_count,
                    reports_ipfs_hash@,
                    reasoning_ipfs_hash@,
                    now,
                )
                &&& final(ctx).skill@ == certified(
                    old(ctx).skill@,
                    old(ctx).record_address,
                    verdict,
                    trust_score,
                )
                &&& final(ctx).registry == counted(old(ctx).registry)
                &&& final(ctx).record_address == old(ctx).record_address
                &&& final(ctx).record_bump == old(ctx).record_bump
                &&& final(ctx).skill_address == old(ctx).skill_address
                &&& final(ctx).authority == old(ctx).authority
            },
            Err(error) => {
                &&& refusal(*old(ctx), confidence, trust_score, now) == Some(error)
                &&& *final(ctx) == *old(ctx)
            },
        },
        old(ctx).skill.wf() ==> final(ctx).skill.wf(),
{
    if ctx.authority != ctx.registry.authority {
        return Err(ErrorCode::Unauthorized);
    }
    if confidence > MAX_CONFIDENCE || trust_score > MAX_TRUST_SCORE {
        return Err(ErrorCode::InvalidConsensusVerdict);
    }
    let round = ctx.skill.auditor_count;
    match ctx.skill.consensus_record {
        Some(link) => {
            if link.version >= round {
                return Err(ErrorCode::ConsensusAlreadyRecorded);
            }
        },
        None => {},
    }
    if now > i64::MAX - CONSENSUS_VALIDITY || ctx.registry.total_consensus_records == u64::MAX {
        return Err(ErrorCode::ArithmeticOverflow);
    }
    let record = ConsensusRecord {
        skill: ctx.skill_address,
        version: round,
        verdict,
        confidence,
        trust_score,
        evaluator_count,
        mean_score,
        score_variance,
        critical_overlap,
        methodology_count,
        reports_ipfs_hash,
        reasoning_ipfs_hash,
        evaluated_at: now,
        expires_at: now + CONSENSUS_VALIDITY,
        recorded_by: ctx.authority,
        bump: ctx.record_bump,
    };
    ctx.skill.trust_score = trust_score;
    ctx.skill.consensus_record = Some(ConsensusLink { record: ctx.record_address, version: round });
    ctx.skill.consensus_status = verdict.status();
    ctx.registry.total_consensus_records = ctx.registry.total_consensus_records + 1;
    Ok(record)
}

} // verus!
