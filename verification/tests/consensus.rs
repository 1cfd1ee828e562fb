use sigil_registry::error::ErrorCode;
use sigil_registry::identity::Identity;
use sigil_registry::instructions::add_signature::{self, AddAuditorSignature};
use sigil_registry::instructions::initialize_registry::{self, InitializeRegistry};
use sigil_registry::instructions::log_execution::{self, LogExecution};
use sigil_registry::instructions::mint_skill::{self, MintSkill};
use sigil_registry::instructions::record_consensus::{self, RecordConsensus, CONSENSUS_VALIDITY};
use sigil_registry::state::{
    Auditor, ConsensusRecord, ConsensusStatus, ConsensusVerdict, Skill, SkillRegistry,
};
use sigil_registry::tier::AuditorTier;
use sigil_registry::trust_score::{authoritative_score, calculate_trust_score, StoredRecord};

fn key(byte: u8) -> Identity {
    Identity::new([byte; 32])
}

fn registry() -> SkillRegistry {
    initialize_registry::handler(&InitializeRegistry { authority: key(1), bump: 0 })
}

fn skill_with_signatures(count: u8) -> Skill {
    let mut mint = MintSkill { creator: key(2), registry: registry(), bump: 250 };
    let mut skill =
        mint_skill::handler(&mut mint, [9u8; 32], 1_000_000, String::from("QmCode"), [3u8; 64], 0)
            .unwrap();
    for byte in 0..count {
        skill = sign(skill, 100 + byte);
    }
    skill
}

fn sign(skill: Skill, byte: u8) -> Skill {
    let auditor = Auditor {
        pubkey: key(byte),
        tier: AuditorTier::Tier3,
        skills_audited: 0,
        reputation: 20,
        total_earned: 0,
        stake_amount: 50_000_000,
        active: true,
        locked_until: 0,
    };
    let mut ctx = AddAuditorSignature { skill, auditor };
    add_signature::handler(&mut ctx, [5u8; 64], String::from("QmReport"), 0).unwrap();
    ctx.skill
}

fn context(skill: Skill, caller: u8) -> RecordConsensus {
    RecordConsensus {
        record_address: key(40),
        record_bump: 253,
        skill_address: key(30),
        skill,
        registry: registry(),
        authority: key(caller),
    }
}

fn submit(
    ctx: &mut RecordConsensus,
    verdict: ConsensusVerdict,
    confidence: u8,
    trust_score: u16,
    now: i64,
) -> Result<ConsensusRecord, ErrorCode> {
    record_consensus::handler(
        ctx,
        verdict,
        confidence,
        trust_score,
        5,
        810,
        150,
        660,
        3,
        String::from("QmReports"),
        String::from("QmReasoning"),
        now,
    )
}

#[test]
fn record_holds_the_submission_and_expires_after_a_year() {
    assert_eq!(CONSENSUS_VALIDITY, 365 * 24 * 60 * 60);
    let mut ctx = context(skill_with_signatures(2), 1);
    let now: i64 = 1_700_000_000;
    let record = submit(&mut ctx, ConsensusVerdict::Approved, 92, 870, now).unwrap();
    assert_eq!(record.skill.bytes, [30u8; 32]);
    assert_eq!(record.version, 2);
    assert_eq!(record.verdict, ConsensusVerdict::Approved);
    assert_eq!(record.confidence, 92);
    assert_eq!(record.trust_score, 870);
    assert_eq!(record.evaluator_count, 5);
    assert_eq!(record.mean_score, 810);
    assert_eq!(record.score_variance, 150);
    assert_eq!(record.critical_overlap, 660);
    assert_eq!(record.methodology_count, 3);
    assert_eq!(record.reports_ipfs_hash, "QmReports");
    assert_eq!(record.reasoning_ipfs_hash, "QmReasoning");
    assert_eq!(record.evaluated_at, now);
    assert_eq!(record.expires_at, now + 31_536_000);
    assert_eq!(record.expires_at - record.evaluated_at, 365 * 86_400);
    assert_eq!(record.recorded_by.bytes, [1u8; 32]);
    assert_eq!(record.bump, 253);
}

#[test]
fn accepted_consensus_overrides_score_and_links_the_record() {
    let mut ctx = context(skill_with_signatures(2), 1);
    assert_eq!(ctx.skill.trust_score, 140);
    submit(&mut ctx, ConsensusVerdict::Approved, 92, 870, 50).unwrap();
    assert_eq!(ctx.skill.trust_score, 870);
    assert_eq!(ctx.skill.consensus_status, ConsensusStatus::Approved);
    let link = ctx.skill.consensus_record.unwrap();
    assert_eq!(link.record.bytes, [40u8; 32]);
    assert_eq!(link.version, 2);
    assert_eq!(ctx.registry.total_consensus_records, 1);
    assert_eq!(ctx.skill.auditor_count, 2);
    assert!(ctx.skill.is_well_formed());
}

#[test]
fn each_verdict_maps_to_its_status() {
    assert_eq!(ConsensusVerdict::Approved.status(), ConsensusStatus::Approved);
    assert_eq!(ConsensusVerdict::Rejected.status(), ConsensusStatus::Rejected);
    assert_eq!(ConsensusVerdict::Inconclusive.status(), ConsensusStatus::Contested);
    assert_eq!(ConsensusVerdict::Pending.status(), ConsensusStatus::InReview);
    let verdicts = [
        (ConsensusVerdict::Approved, ConsensusStatus::Approved),
        (ConsensusVerdict::Rejected, ConsensusStatus::Rejected),
        (ConsensusVerdict::Inconclusive, ConsensusStatus::Contested),
        (ConsensusVerdict::Pending, ConsensusStatus::InReview),
    ];
    for (verdict, status) in verdicts {
        let mut ctx = context(skill_with_signatures(1), 1);
        submit(&mut ctx, verdict, 50, 500, 0).unwrap();
        assert_eq!(ctx.skill.consensus_status, status);
    }
}

#[test]
fn defaults_are_pending() {
    assert_eq!(ConsensusStatus::default(), ConsensusStatus::Pending);
    assert_eq!(ConsensusVerdict::default(), ConsensusVerdict::Pending);
}

#[test]
fn non_admin_cannot_record_consensus() {
    let mut ctx = context(skill_with_signatures(1), 2);
    let result = submit(&mut ctx, ConsensusVerdict::Approved, 50, 500, 0);
    assert_eq!(result.unwrap_err(), ErrorCode::Unauthorized);
    assert_eq!(ctx.skill.trust_score, 120);
    assert_eq!(ctx.skill.consensus_status, ConsensusStatus::Pending);
    assert!(ctx.skill.consensus_record.is_none());
    assert_eq!(ctx.registry.total_consensus_records, 0);
}

#[test]
fn out_of_range_submission_is_invalid() {
    let mut ctx = context(skill_with_signatures(1), 1);
    assert_eq!(
        submit(&mut ctx, ConsensusVerdict::Approved, 101, 500, 0).unwrap_err(),
        ErrorCode::InvalidConsensusVerdict
    );
    assert_eq!(
        submit(&mut ctx, ConsensusVerdict::Approved, 100, 1001, 0).unwrap_err(),
        ErrorCode::InvalidConsensusVerdict
    );
    assert!(ctx.skill.consensus_record.is_none());
    assert_eq!(ctx.registry.total_consensus_records, 0);
    assert!(submit(&mut ctx, ConsensusVerdict::Approved, 100, 1000, 0).is_ok());
    assert_eq!(ctx.skill.trust_score, 1000);
}

#[test]
fn a_round_is_recorded_once() {
    let mut ctx = context(skill_with_signatures(1), 1);
    submit(&mut ctx, ConsensusVerdict::Pending, 10, 300, 0).unwrap();
    let again = submit(&mut ctx, ConsensusVerdict::Approved, 90, 900, 10);
    assert_eq!(again.unwrap_err(), ErrorCode::ConsensusAlreadyRecorded);
    assert_eq!(ctx.skill.trust_score, 300);
    assert_eq!(ctx.skill.consensus_status, ConsensusStatus::InReview);
    assert_eq!(ctx.registry.total_consensus_records, 1);
}

#[test]
fn rounds_increase_across_successive_records() {
    let mut ctx = context(skill_with_signatures(0), 1);
    let first = submit(&mut ctx, ConsensusVerdict::Pending, 10, 300, 0).unwrap();
    assert_eq!(first.version, 0);

    let mut log = LogExecution { skill_address: key(30), skill: ctx.skill, executor: key(21) };
    log_execution::handler(&mut log, true, 5, 20).unwrap();
    ctx.skill = log.skill;
    assert_eq!(
        submit(&mut ctx, ConsensusVerdict::Approved, 90, 900, 30).unwrap_err(),
        ErrorCode::ConsensusAlreadyRecorded
    );

    ctx.skill = sign(ctx.skill, 100);
    ctx.skill = sign(ctx.skill, 101);
    ctx.record_address = key(41);
    let second = submit(&mut ctx, ConsensusVerdict::Approved, 90, 900, 40).unwrap();
    assert_eq!(second.version, 2);
    assert!(second.version > first.version);
    assert_eq!(ctx.skill.consensus_record.unwrap().record.bytes, [41u8; 32]);

    ctx.skill = sign(ctx.skill, 102);
    let third = submit(&mut ctx, ConsensusVerdict::Rejected, 80, 100, 50).unwrap();
    assert_eq!(third.version, 3);
    assert_eq!(ctx.registry.total_consensus_records, 3);
    assert_eq!(first.trust_score, 300);
    assert_eq!(second.trust_score, 900);
}

#[test]
fn running_score_resumes_with_the_next_recomputation() {
    let mut ctx = context(skill_with_signatures(1), 1);
    submit(&mut ctx, ConsensusVerdict::Approved, 90, 900, 0).unwrap();
    assert_eq!(ctx.skill.trust_score, 900);
    let skill = sign(ctx.skill, 101);
    assert_eq!(skill.trust_score, 140);
    assert_eq!(skill.consensus_status, ConsensusStatus::Approved);
    assert_eq!(skill.consensus_record.unwrap().version, 1);
}

#[test]
fn certified_score_holds_until_the_record_expires() {
    let mut ctx = context(skill_with_signatures(1), 1);
    let evaluated: i64 = 1_000;
    let record = submit(&mut ctx, ConsensusVerdict::Approved, 90, 900, evaluated).unwrap();
    let expires_at = record.expires_at;
    let stored = StoredRecord { address: key(40), record };
    let skill = sign(ctx.skill, 101);
    assert_eq!(skill.trust_score, 140);
    assert_eq!(authoritative_score(&skill, Some(&stored), evaluated), 900);
    assert_eq!(authoritative_score(&skill, Some(&stored), expires_at - 1), 900);
    assert_eq!(
        authoritative_score(&skill, Some(&stored), expires_at),
        calculate_trust_score(&skill, expires_at)
    );
    assert_eq!(authoritative_score(&skill, Some(&stored), expires_at), 40);
    assert_eq!(authoritative_score(&skill, None, evaluated), 140);
}

#[test]
fn a_record_of_an_earlier_round_is_passed_over() {
    let mut ctx = context(skill_with_signatures(1), 1);
    let first = submit(&mut ctx, ConsensusVerdict::Approved, 90, 900, 0).unwrap();
    let first = StoredRecord { address: key(40), record: first };
    ctx.skill = sign(ctx.skill, 101);
    ctx.record_address = key(41);
    let second = submit(&mut ctx, ConsensusVerdict::Rejected, 90, 10, 5).unwrap();
    let second = StoredRecord { address: key(41), record: second };
    assert_eq!(authoritative_score(&ctx.skill, Some(&second), 6), 10);
    assert_eq!(authoritative_score(&ctx.skill, Some(&first), 6), 140);
    let unlinked = skill_with_signatures(1);
    assert_eq!(authoritative_score(&unlinked, Some(&first), 6), 120);
}

#[test]
fn a_record_stored_elsewhere_is_passed_over() {
    let mut ctx = context(skill_with_signatures(1), 1);
    let record = submit(&mut ctx, ConsensusVerdict::Approved, 90, 900, 0).unwrap();
    let elsewhere = StoredRecord { address: key(77), record: record.clone() };
    let linked = StoredRecord { address: key(40), record };
    assert_eq!(elsewhere.record.version, linked.record.version);
    assert_eq!(authoritative_score(&ctx.skill, Some(&linked), 6), 900);
    assert_eq!(authoritative_score(&ctx.skill, Some(&elsewhere), 6), 120);
}

#[test]
fn a_submission_that_does_not_fit_is_refused() {
    let mut ctx = context(skill_with_signatures(1), 1);
    assert_eq!(
        submit(&mut ctx, ConsensusVerdict::Approved, 90, 900, i64::MAX - CONSENSUS_VALIDITY + 1)
            .unwrap_err(),
        ErrorCode::ArithmeticOverflow
    );
    assert!(ctx.skill.consensus_record.is_none());
    assert_eq!(ctx.skill.trust_score, 120);
    ctx.registry.total_consensus_records = u64::MAX;
    assert_eq!(
        submit(&mut ctx, ConsensusVerdict::Approved, 90, 900, 0).unwrap_err(),
        ErrorCode::ArithmeticOverflow
    );
    assert_eq!(ctx.registry.total_consensus_records, u64::MAX);
    let mut stranger = context(skill_with_signatures(1), 2);
    assert_eq!(
        submit(&mut stranger, ConsensusVerdict::Approved, 101, 900, i64::MAX).unwrap_err(),
        ErrorCode::Unauthorized
    );
    let mut last = context(skill_with_signatures(1), 1);
    let record =
        submit(&mut last, ConsensusVerdict::Approved, 90, 900, i64::MAX - CONSENSUS_VALIDITY)
            .unwrap();
    assert_eq!(record.expires_at, i64::MAX);
}

#[test]
fn record_invariant_is_checked() {
    let mut ctx = context(skill_with_signatures(1), 1);
    let record = submit(&mut ctx, ConsensusVerdict::Approved, 100, 1000, -5).unwrap();
    assert!(record.is_well_formed());
    let mut overconfident = record.clone();
    overconfident.confidence = 101;
    assert!(!overconfident.is_well_formed());
    let mut inflated = record.clone();
    inflated.trust_score = 1001;
    assert!(!inflated.is_well_formed());
    let mut short_lived = record.clone();
    short_lived.expires_at -= 1;
    assert!(!short_lived.is_well_formed());
    let mut reversed = record.clone();
    reversed.evaluated_at = i64::MAX;
    reversed.expires_at = i64::MIN;
    assert!(!reversed.is_well_formed());
}

#[test]
fn a_link_to_a_later_round_breaks_the_skill_invariant() {
    let mut ctx = context(skill_with_signatures(1), 1);
    submit(&mut ctx, ConsensusVerdict::Approved, 100, 1000, 0).unwrap();
    assert!(ctx.skill.is_well_formed());
    let mut skill = ctx.skill.clone();
    let mut link = skill.consensus_record.unwrap();
    link.version = 2;
    skill.consensus_record = Some(link);
    assert!(!skill.is_well_formed());
}
