//! The records that the registry keeps, with their mathematical views and
//! the invariants that every operation preserves.

use vstd::prelude::*;
use crate::identity::Identity;
use crate::tier::AuditorTier;

verus! {

/// Largest value a trust score can take.
pub const MAX_TRUST_SCORE: u16 = 1000;

/// Largest value a consensus confidence can take, in percent.
pub const MAX_CONFIDENCE: u8 = 100;

/// The lowest stake, in the smallest payment unit, with which an auditor is
/// active.
pub const MINIMUM_STAKE: u64 = 50_000_000;

/// How long a consensus record stays valid: 365 days, in seconds.
pub const CONSENSUS_VALIDITY: i64 = 31_536_000;

/// Value of `Auditor::locked_until` that marks a slashed auditor. It differs
/// from every unlock time, which is positive, and from 0, which says that no
/// unbonding is under way.
pub const PERMANENT_BAN: i64 = -1;

/// The registry itself: the admin identity and the global counters.
#[derive(Clone, Copy, Debug)]
pub struct SkillRegistry {
    /// The admin, who alone may record consensus and slash.
    pub authority: Identity,
    pub skill_count: u64,
    pub total_executions: u64,
    pub total_consensus_records: u64,
    pub bump: u8,
}

/// One auditor's attestation to a skill.
#[derive(Clone, Copy, Debug)]
pub struct AuditorSignature {
    pub auditor: Identity,
    /// Signature bytes, stored as given and never checked here.
    pub signature: [u8; 64],
    /// The auditor's tier at the time of signing.
    pub tier: AuditorTier,
    pub timestamp: i64,
}

/// Where a skill stands with respect to consensus; it mirrors the verdict
/// recorded last.
#[derive(Clone, Copy, Debug, PartialEq, Eq, Structural)]
pub enum ConsensusStatus {
    Pending,
    InReview,
    Approved,
    Rejected,
    Contested,
}

impl Default for ConsensusStatus {
    fn default() -> (status: ConsensusStatus)
        ensures
            status == ConsensusStatus::Pending,
    {
        ConsensusStatus::Pending
    }
}

/// The verdict of one consensus round.
#[derive(Clone, Copy, Debug, PartialEq, Eq, Structural)]
pub enum ConsensusVerdict {
    Pending,
    Approved,
    Rejected,
    Inconclusive,
}

impl Default for ConsensusVerdict {
    fn default() -> (verdict: ConsensusVerdict)
        ensures
            verdict == ConsensusVerdict::Pending,
    {
        ConsensusVerdict::Pending
    }
}

/// The status that a skill takes when a verdict is recorded for it.
pub open spec fn status_of(verdict: ConsensusVerdict) -> ConsensusStatus {
    match verdict {
        ConsensusVerdict::Approved => ConsensusStatus::Approved,
        ConsensusVerdict::Rejected => ConsensusStatus::Rejected,
        ConsensusVerdict::Inconclusive => ConsensusStatus::Contested,
        ConsensusVerdict::Pending => ConsensusStatus::InReview,
    }
}

impl ConsensusVerdict {
    /// The status that a skill takes when this verdict is recorded for it.
    pub fn status(&self) -> (status: ConsensusStatus)
        ensures
            status == status_of(*self),
    {
        match self {
            ConsensusVerdict::Approved => ConsensusStatus::Approved,
            ConsensusVerdict::Rejected => ConsensusStatus::Rejected,
            ConsensusVerdict::Inconclusive => ConsensusStatus::Contested,
            ConsensusVerdict::Pending => ConsensusStatus::InReview,
        }
    }
}

/// A skill's link to its current consensus record.
#[derive(Clone, Copy, Debug)]
pub struct ConsensusLink {
    /// Where the record is stored.
    pub record: Identity,
    /// The record's version: the round it was recorded in.
    pub version: u8,
}

/// A registered skill with its attestations, statistics and trust score.
#[derive(Clone, Debug)]
pub struct Skill {
    /// Fingerprint of the skill's code.
    pub skill_id: [u8; 32],
    pub creator: Identity,
    /// Signature bytes, stored as given and never checked here.
    pub creator_signature: [u8; 64],
    /// Price of one execution, in the smallest payment unit.
    pub price_usdc: u64,
    /// Handle of the skill's code in the content store.
    pub ipfs_hash: String,
    /// Handle of the latest audit report in the content store.
    pub audit_report_hash: String,
    pub auditor_count: u8,
    /// Attestations, oldest first.
    pub auditors: Vec<AuditorSignature>,
    pub consensus_status: ConsensusStatus,
    pub consensus_record: Option<ConsensusLink>,
    pub trust_score: u16,
    pub execution_count: u64,
    pub success_count: u64,
    pub total_earned: u64,
    pub last_used: i64,
    pub created_at: i64,
    pub bump: u8,
}

/// What a `Skill` holds, with sequences in place of its collections.
pub struct SkillView {
    pub skill_id: [u8; 32],
    pub creator: Identity,
    pub creator_signature: [u8; 64],
    pub price_usdc: u64,
    pub ipfs_hash: Seq<char>,
    pub audit_report_hash: Seq<char>,
    pub auditor_count: u8,
    pub auditors: Seq<AuditorSignature>,
    pub consensus_status: ConsensusStatus,
    pub consensus_record: Option<ConsensusLink>,
    pub trust_score: u16,
    pub execution_count: u64,
    pub success_count: u64,
    pub total_earned: u64,
    pub last_used: i64,
    pub created_at: i64,
    pub bump: u8,
}

impl View for Skill {
    type V = SkillView;

    open spec fn view(&self) -> SkillView {
        SkillView {
            skill_id: self.skill_id,
            creator: self.creator,
            creator_signature: self.creator_signature,
            price_usdc: self.price_usdc,
            ipfs_hash: self.ipfs_hash@,
            audit_report_hash: self.audit_report_hash@,
            auditor_count: self.auditor_count,
            auditors: self.auditors@,
            consensus_status: self.consensus_status,
            consensus_record: self.consensus_record,
            trust_score: self.trust_score,
            execution_count: self.execution_count,
            success_count: self.success_count,
            total_earned: self.total_earned,
            last_used: self.last_used,
            created_at: self.created_at,
            bump: self.bump,
        }
    }
}

/// Whether `auditor` has an attestation among `auditors`.
pub open spec fn has_signed(auditors: Seq<AuditorSignature>, auditor: Identity) -> bool {
    exists|i: int| 0 <= i < auditors.len() && (#[trigger] auditors[i]).auditor == auditor
}

/// Whether no two attestations among `auditors` come from one auditor.
pub open spec fn distinct_auditors(auditors: Seq<AuditorSignature>) -> bool {
    forall|i: int, j: int|
        0 <= i < j < auditors.len() ==> (#[trigger] auditors[i]).auditor != (
        #[trigger] auditors[j]).auditor
}

impl SkillView {
    /// The invariant of a skill.
    pub open spec fn wf(self) -> bool {
        &&& self.auditor_count == self.auditors.len()
        &&& distinct_auditors(self.auditors)
        &&& self.success_count <= self.execution_count
        &&& self.trust_score <= MAX_TRUST_SCORE
        &&& match self.consensus_record {
            Some(link) => link.version <= self.auditor_count,
            None => true,
        }
    }
}

/// Whether `auditor` has an attestation among the first `end` of
/// `auditors`.
pub(crate) fn signed_among(
    auditors: &Vec<AuditorSignature>,
    end: usize,
    auditor: &Identity,
) -> (found: bool)
    requires
        end <= auditors.len(),
    ensures
        found == has_signed(auditors@.take(end as int), *auditor),
{
    let mut i: usize = 0;
    while i < end
        invariant
            i <= end <= auditors.len(),
            forall|j: int| 0 <= j < i ==> (#[trigger] auditors@[j]).auditor != *auditor,
        decreases end - i,
    {
        if auditors[i].auditor == *auditor {
            assert(auditors@.take(end as int)[i as int].auditor == *auditor);
            return true;
        }
        i += 1;
    }
    assert forall|j: int| 0 <= j < end implies (#[trigger] auditors@.take(end as int)[j]).auditor
        != *auditor by {
        assert(auditors@[j].auditor != *auditor);
    }
    false
}

impl Skill {
    /// The invariant of a skill: the attestation count is the number of
    /// attestations, no auditor has attested twice, no more executions
    /// succeeded than took place, the trust score is in range, and the
    /// current consensus record is of no later round than the present one.
    pub open spec fn wf(&self) -> bool {
        self@.wf()
    }

    /// Whether the invariant holds of this skill.
    pub fn is_well_formed(&self) -> (ok: bool)
        ensures
            ok == self.wf(),
    {
        if self.auditors.len() != self.auditor_count as usize {
            return false;
        }
        if self.success_count > self.execution_count || self.trust_score > MAX_TRUST_SCORE {
            return false;
        }
        match self.consensus_record {
            Some(link) => {
                if link.version > self.auditor_count {
                    return false;
                }
            },
            None => {},
        }
        let mut j: usize = 0;
        while j < self.auditors.len()
            invariant
                j <= self.auditors.len(),
                distinct_auditors(self.auditors@.take(j as int)),
            decreases self.auditors.len() - j,
        {
            if signed_among(&self.auditors, j, &self.auditors[j].auditor) {
                let ghost i = choose|i: int|
                    0 <= i < j && (#[trigger] self.auditors@.take(j as int)[i]).auditor
                        == self.auditors@[j as int].auditor;
                assert(self.auditors@[i].auditor == self.auditors@[j as int].auditor);
                return false;
            }
            proof {
                let next = self.auditors@.take(j + 1);
                assert forall|a: int, b: int| 0 <= a < b < next.len() implies (
                #[trigger] next[a]).auditor != (#[trigger] next[b]).auditor by {
                    if b < j {
                        assert(self.auditors@.take(j as int)[a] == next[a]);
                        assert(self.auditors@.take(j as int)[b] == next[b]);
                    } else {
                        assert(self.auditors@.take(j as int)[a] == next[a]);
                    }
                }
            }
            j += 1;
        }
        assert(self.auditors@.take(j as int) =~= self.auditors@);
        true
    }
}

/// The certificate of one consensus round on one skill. Once made, a record
/// is never changed; a later round makes a new one.
#[derive(Clone, Debug)]
pub struct ConsensusRecord {
    /// Where the skill is stored.
    pub skill: Identity,
    /// The round of the skill's audit that this record closes.
    pub version: u8,
    pub verdict: ConsensusVerdict,
    /// In percent.
    pub confidence: u8,
    pub trust_score: u16,
    pub evaluator_count: u8,
    pub mean_score: u16,
    pub score_variance: u16,
    pub critical_overlap: u16,
    pub methodology_count: u8,
    /// Handle of the evaluation reports in the content store.
    pub reports_ipfs_hash: String,
    /// Handle of the consensus reasoning in the content store.
    pub reasoning_ipfs_hash: String,
    pub evaluated_at: i64,
    pub expires_at: i64,
    /// The admin who recorded the verdict.
    pub recorded_by: Identity,
    pub bump: u8,
}

/// What a `ConsensusRecord` holds, with sequences in place of its strings.
pub struct ConsensusRecordView {
    pub skill: Identity,
    pub version: u8,
    pub verdict: ConsensusVerdict,
    pub confidence: u8,
    pub trust_score: u16,
    pub evaluator_count: u8,
    pub mean_score: u16,
    pub score_variance: u16,
    pub critical_overlap: u16,
    pub methodology_count: u8,
    pub reports_ipfs_hash: Seq<char>,
    pub reasoning_ipfs_hash: Seq<char>,
    pub evaluated_at: i64,
    pub expires_at: i64,
    pub recorded_by: Identity,
    pub bump: u8,
}

impl View for ConsensusRecord {
    type V = ConsensusRecordView;

    open spec fn view(&self) -> ConsensusRecordView {
        ConsensusRecordView {
            skill: self.skill,
            version: self.version,
            verdict: self.verdict,
            confidence: self.confidence,
            trust_score: self.trust_score,
            evaluator_count: self.evaluator_count,
            mean_score: self.mean_score,
            score_variance: self.score_variance,
            critical_overlap: self.critical_overlap,
            methodology_count: self.methodology_count,
            reports_ipfs_hash: self.reports_ipfs_hash@,
            reasoning_ipfs_hash: self.reasoning_ipfs_hash@,
            evaluated_at: self.evaluated_at,
            expires_at: self.expires_at,
            recorded_by: self.recorded_by,
            bump: self.bump,
        }
    }
}

impl ConsensusRecordView {
    /// The invariant of a consensus record.
    pub open spec fn wf(self) -> bool {
        &&& self.confidence <= MAX_CONFIDENCE
        &&& self.trust_score <= MAX_TRUST_SCORE
        &&& self.expires_at - self.evaluated_at == CONSENSUS_VALIDITY
    }
}

impl ConsensusRecord {
    /// The invariant of a consensus record: the confidence is at most 100,
    /// the score at most 1000, and the record expires 365 days after its
    /// evaluation.
    pub open spec fn wf(&self) -> bool {
        self@.wf()
    }

    /// Whether the invariant holds of this record.
    pub fn is_well_formed(&self) -> (ok: bool)
        ensures
            ok == self.wf(),
    {
        let validity: i128 = self.expires_at as i128 - self.evaluated_at as i128;
        self.confidence <= MAX_CONFIDENCE && self.trust_score <= MAX_TRUST_SCORE && validity
            == 31_536_000
    }
}

/// A registered auditor and the stake behind their attestations.
#[derive(Clone, Copy, Debug)]
pub struct Auditor {
    pub pubkey: Identity,
    pub tier: AuditorTier,
    pub skills_audited: u64,
    pub reputation: u16,
    pub total_earned: u64,
    /// Collateral held in custody for this auditor.
    pub stake_amount: u64,
    /// Whether the auditor may attest.
    pub active: bool,
    /// 0 while no unbonding is under way, the time from which the stake can
    /// be withdrawn while one is, `PERMANENT_BAN` once slashed.
    pub locked_until: i64,
}

/// The stage of the stake lifecycle that an auditor is in.
#[derive(Clone, Copy, Debug, PartialEq, Eq, Structural)]
pub enum StakeState {
    /// No stake is locked and no unbonding is under way.
    Unstaked,
    /// The stake is locked and the auditor may attest.
    Staked,
    /// An unstake was requested; the stake can be withdrawn once the
    /// window has elapsed.
    Unbonding,
    /// The stake was forfeited.
    Slashed,
}

/// The stage that the fields of `auditor` encode.
pub open spec fn lifecycle_of(auditor: Auditor) -> StakeState {
    if auditor.locked_until < 0 {
        StakeState::Slashed
    } else if auditor.locked_until > 0 {
        StakeState::Unbonding
    } else if auditor.active {
        StakeState::Staked
    } else {
        StakeState::Unstaked
    }
}

impl Auditor {
    /// The invariant of an auditor: an active auditor holds at least the
    /// minimum stake and is not unbonding, and a slashed one holds nothing.
    pub open spec fn wf(&self) -> bool {
        &&& self.locked_until >= PERMANENT_BAN
        &&& self.active ==> self.locked_until == 0 && self.stake_amount >= MINIMUM_STAKE
        &&& self.locked_until == PERMANENT_BAN ==> self.stake_amount == 0 && self.reputation == 0
    }

    /// Whether the invariant holds of this auditor.
    pub fn is_well_formed(&self) -> (ok: bool)
        ensures
            ok == self.wf(),
    {
        self.locked_until >= PERMANENT_BAN && (!self.active || (self.locked_until == 0
            && self.stake_amount >= MINIMUM_STAKE)) && (self.locked_until != PERMANENT_BAN || (
        self.stake_amount == 0 && self.reputation == 0))
    }

    /// The stage of the stake lifecycle that this auditor is in.
    pub fn lifecycle(&self) -> (state: StakeState)
        ensures
            state == lifecycle_of(*self),
    {
        if self.locked_until < 0 {
            StakeState::Slashed
        } else if self.locked_until > 0 {
            StakeState::Unbonding
        } else if self.active {
            StakeState::Staked
        } else {
            StakeState::Unstaked
        }
    }
}

/// The log entry of one execution of a skill.
#[derive(Clone, Copy, Debug)]
pub struct ExecutionLog {
    /// Where the skill is stored.
    pub skill: Identity,
    pub executor: Identity,
    pub success: bool,
    pub latency_ms: u32,
    pub payment_amount: u64,
    pub timestamp: i64,
}

} // verus!
