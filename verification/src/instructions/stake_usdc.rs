//! Staking: an auditor locks collateral and, once it reaches the minimum,
//! may attest.

use vstd::prelude::*;
use crate::error::ErrorCode;
use crate::payment::{Transfer, Wallet};
use crate::state::{lifecycle_of, Auditor, StakeState, MINIMUM_STAKE};

verus! {

/// What staking reads and changes.
#[derive(Clone, Copy, Debug)]
pub struct StakeUsdc {
    pub auditor: Auditor,
}

/// Why a deposit of `amount` is refused, or `None` where it is accepted. A
/// slashed auditor may not stake again, whatever the amount; the stake
/// with the deposit must reach the minimum; and it must fit in the record.
pub open spec fn refusal(ctx: StakeUsdc, amount: u64) -> Option<ErrorCode> {
    if lifecycle_of(ctx.auditor) == StakeState::Slashed {
        Some(ErrorCode::AuditorSlashed)
    } else if ctx.auditor.stake_amount + amount < MINIMUM_STAKE {
        Some(ErrorCode::InsufficientStake)
    } else if ctx.auditor.stake_amount + amount > u64::MAX {
        Some(ErrorCode::ArithmeticOverflow)
    } else {
        None
    }
}

/// The auditor after `amount` more was staked: the stake has grown by
/// `amount`, the auditor is active, and any unbonding is called off.
pub open spec fn staked(auditor: Auditor, amount: u64) -> Auditor {
    Auditor {
        stake_amount: (auditor.stake_amount + amount) as u64,
        active: true,
        locked_until: 0,
        ..auditor
    }
}

/// Stakes `amount` for the auditor of `ctx`. Where the deposit is accepted,
/// the answer is the transfer that moves it into custody. A refused
/// deposit changes nothing and moves nothing.
pub fn handler(ctx: &mut StakeUsdc, amount: u64) -> (result: Result<Transfer, ErrorCode>)
    ensures
        match result {
            Ok(deposit) => {
                &&& refusal(*old(ctx), amount).is_none()
                &&& final(ctx).auditor == staked(old(ctx).auditor, amount)
                &&& final(ctx).auditor.stake_amount == old(ctx).auditor.stake_amount + amount
                &&& deposit == (Transfer { from: Wallet::Auditor, to: Wallet::Vault, amount })
            },
            Err(error) => {
                &&& refusal(*old(ctx), amount) == Some(error)
                &&& *final(ctx) == *old(ctx)
            },
        },
        old(ctx).auditor.wf() ==> final(ctx).auditor.wf(),
{
    if ctx.auditor.locked_until < 0 {
        return Err(ErrorCode::AuditorSlashed);
    }
    let total: u128 = ctx.auditor.stake_amount as u128 + amount as u128;
    if total < MINIMUM_STAKE as u128 {
        return Err(ErrorCode::InsufficientStake);
    }
    if total > u64::MAX as u128 {
        return Err(ErrorCode::ArithmeticOverflow);
    }
    ctx.auditor.stake_amount = ctx.auditor.stake_amount + amount;
    ctx.auditor.active = true;
    ctx.auditor.locked_until = 0;
    Ok(Transfer { from: Wallet::Auditor, to: Wallet::Vault, amount })
}

} // verus!
