//! The reasons for which an operation of the registry is refused.

use vstd::prelude::*;

verus! {

/// Why an operation was refused. A refused operation changes nothing.
#[derive(Clone, Copy, Debug, PartialEq, Eq, Structural)]
pub enum ErrorCode {
    /// An attestation was attempted by an auditor who is not active.
    AuditorNotActive,
    /// The auditor has already attested to this skill.
    AuditorAlreadySigned,
    /// A consensus submission carries a confidence or a score out of range.
    InvalidConsensusVerdict,
    /// The skill already has a consensus record for the current round.
    ConsensusAlreadyRecorded,
    /// The stake after the deposit would be below the minimum.
    InsufficientStake,
    /// The unbonding window has not elapsed yet.
    StillLocked,
    /// A withdrawal was attempted without a prior unstake request.
    UnstakeNotRequested,
    /// The auditor holds no stake that could be slashed.
    NothingToSlash,
    /// A payment destination is not the protocol treasury. Which account
    /// a payment goes to is settled by the caller, who moves the funds: no
    /// operation of this library gives this answer.
    InvalidProtocolTreasury,
    /// The caller is not the identity that the operation is reserved for.
    Unauthorized,
    /// The auditor was slashed: the identity may not stake again.
    AuditorSlashed,
    /// A counter, an amount or a time would pass the largest value that its
    /// record can hold.
    ArithmeticOverflow,
}

} // verus!
