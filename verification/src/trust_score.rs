//! The trust score engine: a pure function of a skill's attestations,
//! execution history and recency of use.

use vstd::prelude::*;
use crate::identity::Identity;
use crate::state::{
    AuditorSignature, ConsensusRecord, ConsensusRecordView, Skill, SkillView, MAX_TRUST_SCORE,
};
use crate::tier::tier_weight;

verus! {

/// Seconds in a day.
pub const SECONDS_PER_DAY: i64 = 86_400;

/// Sum of the tier weights of all attestations.
pub open spec fn auditor_weight(auditors: Seq<AuditorSignature>) -> nat
    decreases auditors.len(),
{
    if auditors.len() == 0 {
        0
    } else {
        auditor_weight(auditors.drop_last()) + tier_weight(auditors.last().tier)
    }
}

/// Points for the number of executions: 300 at 1000 executions and beyond,
/// in proportion below.
pub open spec fn execution_factor(execution_count: u64) -> nat {
    let counted: int = if execution_count < 1000 {
        execution_count as int
    } else {
        1000
    };
    (counted * 300 / 1000) as nat
}

/// Points for the share of successful executions: 400 times the share, 0
/// where nothing was executed.
pub open spec fn success_rate(execution_count: u64, success_count: u64) -> nat {
    if execution_count > 0 {
        (success_count * 400 / (execution_count as int)) as nat
    } else {
        0
    }
}

/// Points for recent use: 100 within 30 days of the last use, 50 within 90
/// days, 0 after that.
pub open spec fn recency_factor(last_used: i64, now: i64) -> nat {
    if now - last_used < 30 * SECONDS_PER_DAY {
        100
    } else if now - last_used < 90 * SECONDS_PER_DAY {
        50
    } else {
        0
    }
}

/// The four terms of a skill's score at time `now`, before the cap.
pub open spec fn raw_score(skill: SkillView, now: i64) -> nat {
    auditor_weight(skill.auditors) + execution_factor(skill.execution_count) + success_rate(
        skill.execution_count,
        skill.success_count,
    ) + recency_factor(skill.last_used, now)
}

/// The trust score of a skill at time `now`: the sum of its four terms,
/// capped at 1000.
pub open spec fn score(skill: SkillView, now: i64) -> nat {
    if raw_score(skill, now) < MAX_TRUST_SCORE {
        raw_score(skill, now)
    } else {
        MAX_TRUST_SCORE as nat
    }
}

/// One more attestation adds its tier's weight.
pub proof fn lemma_auditor_weight_push(auditors: Seq<AuditorSignature>, last: AuditorSignature)
    ensures
        auditor_weight(auditors.push(last)) == auditor_weight(auditors) + tier_weight(last.tier),
{
    assert(auditors.push(last).drop_last() =~= auditors);
}

/// Points for recent use at time `now` of something last used at
/// `last_used`.
pub fn calculate_recency_factor(last_used: i64, now: i64) -> (factor: u16)
    ensures
        factor as nat == recency_factor(last_used, now),
{
    let elapsed: i128 = now as i128 - last_used as i128;
    if elapsed < 30 * 86_400 {
        100
    } else if elapsed < 90 * 86_400 {
        50
    } else {
        0
    }
}

/// The trust score of `skill` at time `now`.
pub fn calculate_trust_score(skill: &Skill, now: i64) -> (trust_score: u16)
    ensures
        trust_score as nat == score(skill@, now),
        trust_score <= MAX_TRUST_SCORE,
{
    let mut weight: u128 = 0;
    let mut i: usize = 0;
    while i < skill.auditors.len()
        invariant
            i <= skill.auditors.len(),
            weight as nat == auditor_weight(skill.auditors@.take(i as int)),
            weight <= 100 * i,
        decreases skill.auditors.len() - i,
    {
        proof {
            let seen = skill.auditors@.take(i as int);
            assert(skill.auditors@.take(i + 1) =~= seen.push(skill.auditors@[i as int]));
            lemma_auditor_weight_push(seen, skill.auditors@[i as int]);
        }
        weight = weight + skill.auditors[i].tier.weight() as u128;
        i += 1;
    }
    assert(skill.auditors@.take(i as int) =~= skill.auditors@);
    let execution_factor: u128 = if skill.execution_count < 1000 {
        (skill.execution_count * 300 / 1000) as u128
    } else {
        300
    };
    let success_rate: u128 = if skill.execution_count > 0 {
        skill.success_count as u128 * 400 / (skill.execution_count as u128)
    } else {
        0
    };
    let recency_factor = calculate_recency_factor(skill.last_used, now);
    let total: u128 = weight + execution_factor + success_rate + recency_factor as u128;
    if total < 1000 {
        total as u16
    } else {
        1000
    }
}

/// A consensus record together with the address that it is stored at.
#[derive(Clone, Debug)]
pub struct StoredRecord {
    pub address: Identity,
    pub record: ConsensusRecord,
}

/// Whether the record stored at `address` is the one that the skill links
/// to, and has not expired at time `now`. A record expires at its expiry
/// time.
pub open spec fn certificate_holds(
    skill: SkillView,
    address: Identity,
    record: ConsensusRecordView,
    now: i64,
) -> bool {
    &&& skill.consensus_record.is_some()
    &&& skill.consensus_record.unwrap().record == address
    &&& skill.consensus_record.unwrap().version == record.version
    &&& now < record.expires_at
}

/// The score to go by at time `now`: the certified one while the record
/// that the skill links to holds, the running one otherwise.
pub open spec fn authoritative(
    skill: SkillView,
    stored: Option<(Identity, ConsensusRecordView)>,
    now: i64,
) -> nat {
    if stored.is_some() && certificate_holds(skill, stored.unwrap().0, stored.unwrap().1, now) {
        stored.unwrap().1.trust_score as nat
    } else {
        score(skill, now)
    }
}

/// The score of `skill` to go by at time `now`, given a consensus record
/// as it was read from the store. A record that the skill does not link
/// to, by its address and its version, is passed over.
pub fn authoritative_score(skill: &Skill, stored: Option<&StoredRecord>, now: i64) -> (trust_score:
    u16)
    ensures
        trust_score as nat == authoritative(
            skill@,
            match stored {
                Some(s) => Some((s.address, s.record@)),
                None => None,
            },
            now,
        ),
{
    match (stored, skill.consensus_record) {
        (Some(s), Some(link)) => {
            if link.record == s.address && link.version == s.record.version && now
                < s.record.expires_at {
                s.record.trust_score
            } else {
                calculate_trust_score(skill, now)
            }
        },
        _ => calculate_trust_score(skill, now),
    }
}

} // verus!
