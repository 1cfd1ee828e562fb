//! What holds of the registry whatever it is asked to do, stated over the
//! functions that say what each operation makes of the state.

use vstd::prelude::*;
use crate::error::ErrorCode;
use crate::identity::Identity;
use crate::instructions::add_signature;
use crate::instructions::log_execution;
use crate::instructions::mint_skill;
use crate::instructions::record_consensus;
use crate::instructions::request_unstake;
use crate::instructions::slash_auditor;
use crate::instructions::stake_usdc;
use crate::instructions::withdraw_stake;
use crate::payment::{creator_share_of, protocol_share_of};
use crate::state::{
    distinct_auditors, has_signed, lifecycle_of, Auditor, ConsensusVerdict, SkillView, StakeState,
    MAX_TRUST_SCORE,
};
use crate::trust_score::{auditor_weight, score};

verus! {

/// A trust score is at most 1000, whatever the skill and the time.
pub proof fn score_is_in_range(skill: SkillView, now: i64)
    ensures
        0 <= score(skill, now) <= MAX_TRUST_SCORE,
{
}

/// Every operation that sets a trust score leaves it at most 1000: an
/// attestation and an execution compute it anew, and a consensus
/// submission is accepted only with a score in range.
pub proof fn trust_score_stays_in_range(
    signing: add_signature::AddAuditorSignature,
    signature: [u8; 64],
    audit_report_hash: Seq<char>,
    logging: log_execution::LogExecution,
    success: bool,
    recording: record_consensus::RecordConsensus,
    verdict: ConsensusVerdict,
    confidence: u8,
    trust_score: u16,
    now: i64,
)
    ensures
        add_signature::signed(
            signing.skill@,
            signing.auditor,
            signature,
            audit_report_hash,
            now,
        ).trust_score <= MAX_TRUST_SCORE,
        log_execution::executed(logging.skill@, success, now).trust_score <= MAX_TRUST_SCORE,
        record_consensus::refusal(recording, confidence, trust_score, now).is_none()
            ==> record_consensus::certified(
            recording.skill@,
            recording.record_address,
            verdict,
            trust_score,
        ).trust_score <= MAX_TRUST_SCORE,
{
}

/// A skill that was never executed and carries two attestations of the
/// second tier scores 100 once 90 days have passed since time 0, which
/// is the last use that a new skill is registered with.
pub proof fn two_second_tier_attestations_score_100(skill: SkillView, now: i64)
    requires
        skill.auditors.len() == 2,
        skill.auditors[0].tier == crate::tier::AuditorTier::Tier2,
        skill.auditors[1].tier == crate::tier::AuditorTier::Tier2,
        skill.execution_count == 0,
        skill.last_used == 0,
        now >= 90 * crate::trust_score::SECONDS_PER_DAY,
    ensures
        auditor_weight(skill.auditors) == 100,
        score(skill, now) == 100,
{
    reveal_with_fuel(auditor_weight, 3);
}

/// A skill is well formed when it is registered.
pub proof fn a_new_skill_is_well_formed(
    creator: Identity,
    bump: u8,
    skill_id: [u8; 32],
    price_usdc: u64,
    ipfs_hash: Seq<char>,
    creator_signature: [u8; 64],
    now: i64,
)
    ensures
        mint_skill::minted(
            creator,
            bump,
            skill_id,
            price_usdc,
            ipfs_hash,
            creator_signature,
            now,
        ).wf(),
{
}

/// No two attestations of a skill come from one auditor: an accepted
/// attestation keeps it so, and no other operation touches the chain.
pub proof fn attestations_stay_distinct(
    signing: add_signature::AddAuditorSignature,
    signature: [u8; 64],
    audit_report_hash: Seq<char>,
    success: bool,
    record_address: Identity,
    verdict: ConsensusVerdict,
    trust_score: u16,
    now: i64,
)
    requires
        distinct_auditors(signing.skill@.auditors),
        add_signature::refusal(signing).is_none(),
    ensures
        distinct_auditors(
            add_signature::signed(
                signing.skill@,
                signing.auditor,
                signature,
                audit_report_hash,
                now,
            ).auditors,
        ),
        log_execution::executed(signing.skill@, success, now).auditors == signing.skill@.auditors,
        record_consensus::certified(
            signing.skill@,
            record_address,
            verdict,
            trust_score,
        ).auditors == signing.skill@.auditors,
{
    let before = signing.skill@.auditors;
    let after = add_signature::signed(
        signing.skill@,
        signing.auditor,
        signature,
        audit_report_hash,
        now,
    ).auditors;
    assert forall|i: int, j: int| 0 <= i < j < after.len() implies (#[trigger] after[i]).auditor
        != (#[trigger] after[j]).auditor by {
        if j < before.len() {
            assert(after[i] == before[i] && after[j] == before[j]);
        } else {
            assert(after[i] == before[i]);
        }
    }
}

/// An auditor who has attested to a skill is refused a second attestation,
/// whatever the signature and whatever tier the auditor has by then.
pub proof fn a_second_attestation_is_refused(signing: add_signature::AddAuditorSignature)
    requires
        signing.auditor.active,
        has_signed(signing.skill@.auditors, signing.auditor.pubkey),
    ensures
        add_signature::refusal(signing) == Some(ErrorCode::AuditorAlreadySigned),
{
}

/// A step that changes a skill between two consensus rounds.
pub enum SkillStep {
    /// An accepted attestation.
    Sign { auditor: Auditor, signature: [u8; 64], audit_report_hash: Seq<char>, now: i64 },
    /// A logged execution.
    Execute { success: bool, now: i64 },
}

/// The skill after one step.
pub open spec fn after_step(skill: SkillView, step: SkillStep) -> SkillView {
    match step {
        SkillStep::Sign { auditor, signature, audit_report_hash, now } => add_signature::signed(
            skill,
            auditor,
            signature,
            audit_report_hash,
            now,
        ),
        SkillStep::Execute { success, now } => log_execution::executed(skill, success, now),
    }
}

/// The skill after a sequence of steps, the first of the sequence first.
pub open spec fn after_steps(skill: SkillView, steps: Seq<SkillStep>) -> SkillView
    decreases steps.len(),
{
    if steps.len() == 0 {
        skill
    } else {
        after_step(after_steps(skill, steps.drop_last()), steps.last())
    }
}

/// Whether a step is open to a skill: an attestation by an active auditor
/// who has not attested to it yet, or an execution, while the counters
/// have room for one more.
pub open spec fn step_allowed(skill: SkillView, step: SkillStep) -> bool {
    match step {
        SkillStep::Sign { auditor, .. } => {
            &&& auditor.active
            &&& !has_signed(skill.auditors, auditor.pubkey)
            &&& skill.auditor_count < u8::MAX
        },
        SkillStep::Execute { success, .. } => {
            &&& skill.execution_count < u64::MAX
            &&& success ==> skill.success_count < u64::MAX
            &&& skill.total_earned + skill.price_usdc <= u64::MAX
        },
    }
}

/// Whether each step of a sequence is open to the skill as the steps
/// before it have left it.
pub open spec fn steps_allowed(skill: SkillView, steps: Seq<SkillStep>) -> bool
    decreases steps.len(),
{
    if steps.len() == 0 {
        true
    } else {
        &&& steps_allowed(skill, steps.drop_last())
        &&& step_allowed(after_steps(skill, steps.drop_last()), steps.last())
    }
}

/// A step that is open to a well-formed skill leaves it well formed.
pub proof fn step_keeps_the_invariant(skill: SkillView, step: SkillStep)
    requires
        skill.wf(),
        step_allowed(skill, step),
    ensures
        after_step(skill, step).wf(),
{
    match step {
        SkillStep::Sign { auditor, signature, audit_report_hash, now } => {
            let before = skill.auditors;
            let after = after_step(skill, step).auditors;
            assert forall|i: int, j: int| 0 <= i < j < after.len() implies (
            #[trigger] after[i]).auditor != (#[trigger] after[j]).auditor by {
                if j < before.len() {
                    assert(after[i] == before[i] && after[j] == before[j]);
                } else {
                    assert(after[i] == before[i]);
                }
            }
        },
        SkillStep::Execute { .. } => {},
    }
}

/// Whatever attestations and executions a skill goes through, it stays
/// well formed: no auditor has attested twice, the count of attestations
/// is their number, and the trust score is at most 1000.
pub proof fn steps_keep_the_invariant(skill: SkillView, steps: Seq<SkillStep>)
    requires
        skill.wf(),
        steps_allowed(skill, steps),
    ensures
        after_steps(skill, steps).wf(),
    decreases steps.len(),
{
    if steps.len() > 0 {
        steps_keep_the_invariant(skill, steps.drop_last());
        step_keeps_the_invariant(after_steps(skill, steps.drop_last()), steps.last());
    }
}

/// An accepted consensus submission leaves a well-formed skill well
/// formed.
pub proof fn consensus_keeps_the_invariant(
    ctx: record_consensus::RecordConsensus,
    verdict: ConsensusVerdict,
    confidence: u8,
    trust_score: u16,
    now: i64,
)
    requires
        ctx.skill.wf(),
        record_consensus::refusal(ctx, confidence, trust_score, now).is_none(),
    ensures
        record_consensus::certified(ctx.skill@, ctx.record_address, verdict, trust_score).wf(),
{
}

/// A stake is an unsigned amount, and an accepted slash leaves exactly 0
/// of it: the whole stake is what the release moves to the reward fund.
pub proof fn slash_takes_the_whole_stake(ctx: slash_auditor::SlashAuditor)
    requires
        slash_auditor::refusal(ctx).is_none(),
    ensures
        ctx.auditor.stake_amount > 0,
        slash_auditor::slashed(ctx.auditor).stake_amount == 0,
        lifecycle_of(slash_auditor::slashed(ctx.auditor)) == StakeState::Slashed,
{
}

/// A slashed auditor cannot stake again: whatever the amount, the deposit
/// is refused, so nothing changes and nothing moves. This holds of every
/// auditor right after a slash.
pub proof fn a_slashed_auditor_cannot_stake(auditor: Auditor, amount: u64)
    ensures
        lifecycle_of(auditor) == StakeState::Slashed ==> stake_usdc::refusal(
            stake_usdc::StakeUsdc { auditor },
            amount,
        ) == Some(ErrorCode::AuditorSlashed),
        stake_usdc::refusal(
            stake_usdc::StakeUsdc { auditor: slash_auditor::slashed(auditor) },
            amount,
        ) == Some(ErrorCode::AuditorSlashed),
{
}

/// An accepted deposit never wraps: the stake after it is the stake before
/// it plus the amount, as integers.
pub proof fn an_accepted_deposit_adds_up(ctx: stake_usdc::StakeUsdc, amount: u64)
    requires
        stake_usdc::refusal(ctx, amount).is_none(),
    ensures
        stake_usdc::staked(ctx.auditor, amount).stake_amount == ctx.auditor.stake_amount + amount,
        stake_usdc::staked(ctx.auditor, amount).stake_amount >= crate::state::MINIMUM_STAKE,
{
}

/// A withdrawal before the unlock time is refused as still locked,
/// whoever asks for it.
pub proof fn no_withdrawal_before_the_unlock_time(ctx: withdraw_stake::WithdrawStake, now: i64)
    requires
        ctx.auditor.locked_until > 0,
        now < ctx.auditor.locked_until,
    ensures
        withdraw_stake::refusal(ctx, now) == Some(ErrorCode::StillLocked),
{
}

/// From the unlock time on, the auditor's own withdrawal of an unbonding
/// stake is accepted. Once made, it leaves the auditor unstaked, and a
/// second one is refused for want of an unstake request.
pub proof fn withdrawal_happens_once(ctx: withdraw_stake::WithdrawStake, now: i64, later: i64)
    requires
        ctx.auditor.wf(),
        ctx.authority == ctx.auditor.pubkey,
        lifecycle_of(ctx.auditor) == StakeState::Unbonding,
        now >= ctx.auditor.locked_until,
    ensures
        withdraw_stake::refusal(ctx, now).is_none(),
        lifecycle_of(withdraw_stake::withdrawn(ctx.auditor)) == StakeState::Unstaked,
        withdraw_stake::withdrawn(ctx.auditor).stake_amount == 0,
        withdraw_stake::refusal(
            withdraw_stake::WithdrawStake {
                auditor: withdraw_stake::withdrawn(ctx.auditor),
                ..ctx
            },
            later,
        ) == Some(ErrorCode::UnstakeNotRequested),
{
}

/// Each accepted operation on a stake leads to the stage that the
/// lifecycle gives it: staking to staked, an unstake request to unbonding,
/// a withdrawal to unstaked and a slash to slashed.
pub proof fn transitions_follow_the_lifecycle(auditor: Auditor, amount: u64, now: i64)
    requires
        auditor.wf(),
        0 < now + request_unstake::UNBONDING_PERIOD <= i64::MAX,
    ensures
        stake_usdc::refusal(stake_usdc::StakeUsdc { auditor }, amount).is_none() ==> lifecycle_of(
            auditor,
        ) != StakeState::Slashed && lifecycle_of(stake_usdc::staked(auditor, amount))
            == StakeState::Staked,
        lifecycle_of(request_unstake::unbonding(auditor, now)) == StakeState::Unbonding,
        request_unstake::unbonding(auditor, now).locked_until - now == 7 * 24 * 60 * 60,
        !request_unstake::unbonding(auditor, now).active,
        lifecycle_of(auditor) == StakeState::Unbonding ==> lifecycle_of(
            withdraw_stake::withdrawn(auditor),
        ) == StakeState::Unstaked,
        lifecycle_of(slash_auditor::slashed(auditor)) == StakeState::Slashed,
{
}

/// The two shares of a price never exceed 75 percent of it, and fall short
/// of 75 percent rounded down by at most 1.
pub proof fn shares_are_three_quarters_at_most(price: u64)
    ensures
        creator_share_of(price) + protocol_share_of(price) <= price * 75 / 100,
        creator_share_of(price) + protocol_share_of(price) + 1 >= price * 75 / 100,
{
}

/// Where the two roundings together lose less than one unit, the two
/// shares make up 75 percent of the price, rounded down.
pub proof fn shares_are_three_quarters(price: u64)
    requires
        (price * 70) % 100 + (price * 5) % 100 < 100,
    ensures
        creator_share_of(price) + protocol_share_of(price) == price * 75 / 100,
{
}

/// The two shares together are never more than the price.
pub proof fn shares_fit_in_the_price(price: u64)
    ensures
        creator_share_of(price) + protocol_share_of(price) <= price,
{
}

/// Attestations and executions leave a skill's link to its consensus
/// record as it is.
pub proof fn steps_keep_the_consensus_link(skill: SkillView, steps: Seq<SkillStep>)
    ensures
        after_steps(skill, steps).consensus_record == skill.consensus_record,
    decreases steps.len(),
{
    if steps.len() > 0 {
        steps_keep_the_consensus_link(skill, steps.drop_last());
    }
}

/// An accepted submission closes a later round than the record that the
/// skill links to.
pub proof fn accepted_round_is_later(
    ctx: record_consensus::RecordConsensus,
    confidence: u8,
    trust_score: u16,
    now: i64,
)
    requires
        record_consensus::refusal(ctx, confidence, trust_score, now).is_none(),
        ctx.skill.consensus_record.is_some(),
    ensures
        record_consensus::current_round(ctx.skill@) > ctx.skill.consensus_record.unwrap().version,
{
}

/// The rounds of a skill's consensus records strictly increase: of two
/// accepted submissions, with any attestations and executions between
/// them, the second closes a later round than the first.
pub proof fn consensus_rounds_increase(
    first: record_consensus::RecordConsensus,
    verdict: ConsensusVerdict,
    confidence: u8,
    trust_score: u16,
    now: i64,
    between: Seq<SkillStep>,
    second: record_consensus::RecordConsensus,
    second_confidence: u8,
    second_trust_score: u16,
    later: i64,
)
    requires
        record_consensus::refusal(first, confidence, trust_score, now).is_none(),
        second.skill@ == after_steps(
            record_consensus::certified(first.skill@, first.record_address, verdict, trust_score),
            between,
        ),
        record_consensus::refusal(second, second_confidence, second_trust_score, later).is_none(),
    ensures
        record_consensus::current_round(second.skill@) > record_consensus::current_round(
            first.skill@,
        ),
{
    steps_keep_the_consensus_link(
        record_consensus::certified(first.skill@, first.record_address, verdict, trust_score),
        between,
    );
}

/// The record of an accepted submission is evaluated at the time of the
/// call and expires exactly 365 days later.
pub proof fn record_expires_after_a_year(
    ctx: record_consensus::RecordConsensus,
    verdict: ConsensusVerdict,
    confidence: u8,
    trust_score: u16,
    evaluator_count: u8,
    mean_score: u16,
    score_variance: u16,
    critical_overlap: u16,
    methodology_count: u8,
    reports_ipfs_hash: Seq<char>,
    reasoning_ipfs_hash: Seq<char>,
    now: i64,
)
    requires
        record_consensus::refusal(ctx, confidence, trust_score, now).is_none(),
    ensures
        ({
            let record = record_consensus::certificate(
                ctx,
                verdict,
                confidence,
                trust_score,
                evaluator_count,
                mean_score,
                score_variance,
                critical_overlap,
                methodology_count,
                reports_ipfs_hash,
                reasoning_ipfs_hash,
                now,
            );
            &&& record.evaluated_at == now
            &&& record.expires_at == now + 365 * 24 * 60 * 60
            &&& record.expires_at - record.evaluated_at == 365 * 24 * 60 * 60
        }),
{
}

} // verus!
