//! The attestation chain: an active auditor vouches for a skill, once.

use vstd::prelude::*;
use crate::error::ErrorCode;
use crate::identity::Identity;
use crate::state::{
    distinct_auditors, has_signed, signed_among, Auditor, AuditorSignature, Skill, SkillView,
    MAX_TRUST_SCORE,
};
use crate::trust_score::{calculate_trust_score, score};

verus! {

/// What an attestation reads and changes.
#[derive(Clone, Debug)]
pub struct AddAuditorSignature {
    pub skill: Skill,
    pub auditor: Auditor,
}

/// Why an attestation is refused, or `None` where it is accepted. The
/// auditor must be active and must not have attested to the skill before,
/// and the count of attestations must have room for one more.
pub open spec fn refusal(ctx: AddAuditorSignature) -> Option<ErrorCode> {
    if !ctx.auditor.active {
        Some(ErrorCode::AuditorNotActive)
    } else if has_signed(ctx.skill@.auditors, ctx.auditor.pubkey) {
        Some(ErrorCode::AuditorAlreadySigned)
    } else if ctx.skill.auditor_count == u8::MAX {
        Some(ErrorCode::ArithmeticOverflow)
    } else {
        None
    }
}

/// The attestation that `auditor` makes at time `now`. It keeps the tier
/// that the auditor has at that time.
pub open spec fn attestation(auditor: Auditor, signature: [u8; 64], now: i64) -> AuditorSignature {
    AuditorSignature { auditor: auditor.pubkey, signature, tier: auditor.tier, timestamp: now }
}

/// The skill with one more attestation and a new audit report, the trust
/// score still as it was.
pub open spec fn appended(
    skill: SkillView,
    auditor: Auditor,
    signature: [u8; 64],
    audit_report_hash: Seq<char>,
    now: i64,
) -> SkillView {
    SkillView {
        auditors: skill.auditors.push(attestation(auditor, signature, now)),
        auditor_count: (skill.auditor_count + 1) as u8,
        audit_report_hash,
        ..skill
    }
}

/// The skill after `auditor` attested to it at time `now`: the attestation
/// is the last of the chain, the audit report is the new one, and the
/// trust score is computed anew.
pub open spec fn signed(
    skill: SkillView,
    auditor: Auditor,
    signature: [u8; 64],
    audit_report_hash: Seq<char>,
    now: i64,
) -> SkillView {
    SkillView {
        trust_score: score(appended(skill, auditor, signature, audit_report_hash, now), now) as u16,
        ..appended(skill, auditor, signature, audit_report_hash, now)
    }
}

/// Whether `auditor` has attested to `skill`.
pub fn already_signed(skill: &Skill, auditor: &Identity) -> (found: bool)
    ensures
        found == has_signed(skill@.auditors, *auditor),
{
    assert(skill.auditors@.take(skill.auditors@.len() as int) =~= skill.auditors@);
    signed_among(&skill.auditors, skill.auditors.len(), auditor)
}

/// Adds the attestation of the auditor of `ctx` to the skill of `ctx`, at
/// time `now`. A refused attestation changes nothing.
pub fn handler(
    ctx: &mut AddAuditorSignature,
    signature: [u8; 64],
    audit_report_hash: String,
    now: i64,
) -> (result: Result<(), ErrorCode>)
    ensures
        match result {
            Ok(_) => {
                &&& refusal(*old(ctx)).is_none()
                &&& final(ctx).skill@ == signed(
                    old(ctx).skill@,
                    old(ctx).auditor,
                    signature,
                    audit_report_hash@,
                    now,
                )
                &&& final(ctx).skill.trust_score == score(final(ctx).skill@, now)
                &&& final(ctx).skill.trust_score <= MAX_TRUST_SCORE
                &&& final(ctx).auditor == old(ctx).auditor
            },
            Err(error) => {
                &&& refusal(*old(ctx)) == Some(error)
                &&& *final(ctx) == *old(ctx)
            },
        },
        old(ctx).skill.wf() ==> final(ctx).skill.wf(),
        distinct_auditors(old(ctx).skill@.auditors) ==> distinct_auditors(
            final(ctx).skill@.auditors,
        ),
{
    if !ctx.auditor.active {
        return Err(ErrorCode::AuditorNotActive);
    }
    if already_signed(&ctx.skill, &ctx.auditor.pubkey) {
        return Err(ErrorCode::AuditorAlreadySigned);
    }
    if ctx.skill.auditor_count == u8::MAX {
        return Err(ErrorCode::ArithmeticOverflow);
    }
    let auditor_sig = AuditorSignature {
        auditor: ctx.auditor.pubkey,
        signature,
        tier: ctx.auditor.tier,
        timestamp: now,
    };
    ctx.skill.auditors.push(auditor_sig);
    ctx.skill.auditor_count = ctx.skill.auditor_count + 1;
    ctx.skill.audit_report_hash = audit_report_hash;
    let trust_score = calculate_trust_score(&ctx.skill, now);
    ctx.skill.trust_score = trust_score;
    Ok(())
}

} // verus!
