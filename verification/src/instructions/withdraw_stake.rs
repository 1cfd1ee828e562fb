//! Withdrawing a stake once its unbonding window has elapsed.

use vstd::prelude::*;
use crate::error::ErrorCode;
use crate::identity::{is_vault_authority, vault_authority, Identity};
use crate::payment::{Transfer, VaultRelease, Wallet};
use crate::state::Auditor;

verus! {

/// What a withdrawal reads and changes.
#[derive(Clone, Copy, Debug)]
pub struct WithdrawStake {
    pub auditor: Auditor,
    /// The caller.
    pub authority: Identity,
    /// The program whose vault authority signs the release.
    pub program_id: Identity,
}

/// Why a withdrawal at time `now` is refused, or `None` where it is
/// accepted. An unstake must have been requested and its window must have
/// elapsed, whoever calls; and only the auditor may withdraw.
pub open spec fn refusal(ctx: WithdrawStake, now: i64) -> Option<ErrorCode> {
    if ctx.auditor.locked_until <= 0 {
        Some(ErrorCode::UnstakeNotRequested)
    } else if now < ctx.auditor.locked_until {
        Some(ErrorCode::StillLocked)
    } else if ctx.authority != ctx.auditor.pubkey {
        Some(ErrorCode::Unauthorized)
    } else {
        None
    }
}

/// The auditor after the stake was withdrawn: nothing is staked and no
/// unbonding is under way.
pub open spec fn withdrawn(auditor: Auditor) -> Auditor {
    Auditor { stake_amount: 0, locked_until: 0, ..auditor }
}

/// Withdraws the stake of the auditor of `ctx` at time `now`. The answer is
/// the release of the whole stake from custody to the auditor. A refused
/// withdrawal changes nothing.
pub fn handler(ctx: &mut WithdrawStake, now: i64) -> (result: Result<VaultRelease, ErrorCode>)
    ensures
        match result {
            Ok(release) => {
                &&& refusal(*old(ctx), now).is_none()
                &&& final(ctx).auditor == withdrawn(old(ctx).auditor)
                &&& final(ctx).authority == old(ctx).authority
                &&& final(ctx).program_id == old(ctx).program_id
                &&& release.transfer == (Transfer {
                    from: Wallet::Vault,
                    to: Wallet::Auditor,
                    amount: old(ctx).auditor.stake_amount,
                })
                &&& is_vault_authority(old(ctx).program_id, release.signer)
            },
            Err(error) => {
                &&& refusal(*old(ctx), now) == Some(error)
                &&& *final(ctx) == *old(ctx)
            },
        },
        old(ctx).auditor.wf() ==> final(ctx).auditor.wf(),
{
    if ctx.auditor.locked_until <= 0 {
        return Err(ErrorCode::UnstakeNotRequested);
    }
    if now < ctx.auditor.locked_until {
        return Err(ErrorCode::StillLocked);
    }
    if ctx.authority != ctx.auditor.pubkey {
        return Err(ErrorCode::Unauthorized);
    }
    let amount = ctx.auditor.stake_amount;
    let signer = vault_authority(&ctx.program_id);
    ctx.auditor.stake_amount = 0;
    ctx.auditor.locked_until = 0;
    let transfer = Transfer { from: Wallet::Vault, to: Wallet::Auditor, amount };
    Ok(VaultRelease { transfer, signer })
}

} // verus!
