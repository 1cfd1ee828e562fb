//! Slashing: the admin forfeits an auditor's whole stake to the reward
//! fund, without any unbonding wait.

use vstd::prelude::*;
use crate::error::ErrorCode;
use crate::identity::{is_vault_authority, vault_authority, Identity};
use crate::payment::{Transfer, VaultRelease, Wallet};
use crate::state::{Auditor, SkillRegistry, PERMANENT_BAN};

verus! {

/// What slashing reads and changes.
#[derive(Clone, Copy, Debug)]
pub struct SlashAuditor {
    pub registry: SkillRegistry,
    pub auditor: Auditor,
    /// The caller.
    pub authority: Identity,
    /// The program whose vault authority signs the release.
    pub program_id: Identity,
}

/// Why a slash is refused, or `None` where it is accepted. Only the
/// registry's admin may slash, and only an auditor who holds a stake.
pub open spec fn refusal(ctx: SlashAuditor) -> Option<ErrorCode> {
    if ctx.authority != ctx.registry.authority {
        Some(ErrorCode::Unauthorized)
    } else if ctx.auditor.stake_amount == 0 {
        Some(ErrorCode::NothingToSlash)
    } else {
        None
    }
}

/// The auditor after a slash: no stake, no reputation, inactive, and
/// marked as banned.
pub open spec fn slashed(auditor: Auditor) -> Auditor {
    Auditor {
        stake_amount: 0,
        reputation: 0,
        active: false,
        locked_until: PERMANENT_BAN,
        ..auditor
    }
}

/// Slashes the auditor of `ctx`. The answer is the release of the whole
/// stake from custody to the reward fund. A refused slash changes nothing.
pub fn handler(ctx: &mut SlashAuditor) -> (result: Result<VaultRelease, ErrorCode>)
    ensures
        match result {
            Ok(release) => {
                &&& refusal(*old(ctx)).is_none()
                &&& final(ctx).auditor == slashed(old(ctx).auditor)
                &&& final(ctx).registry == old(ctx).registry
                &&& final(ctx).authority == old(ctx).authority
                &&& final(ctx).program_id == old(ctx).program_id
                &&& release.transfer == (Transfer {
                    from: Wallet::Vault,
                    to: Wallet::RewardFund,
                    amount: old(ctx).auditor.stake_amount,
                })
                &&& is_vault_authority(old(ctx).program_id, release.signer)
            },
            Err(error) => {
                &&& refusal(*old(ctx)) == Some(error)
                &&& *final(ctx) == *old(ctx)
            },
        },
        old(ctx).auditor.wf() ==> final(ctx).auditor.wf(),
{
    if ctx.authority != ctx.registry.authority {
        return Err(ErrorCode::Unauthorized);
    }
    let amount_to_slash = ctx.auditor.stake_amount;
    if amount_to_slash == 0 {
        return Err(ErrorCode::NothingToSlash);
    }
    let signer = vault_authority(&ctx.program_id);
    ctx.auditor.stake_amount = 0;
    ctx.auditor.reputation = 0;
    ctx.auditor.active = false;
    ctx.auditor.locked_until = PERMANENT_BAN;
    let transfer = Transfer { from: Wallet::Vault, to: Wallet::RewardFund, amount: amount_to_slash };
    Ok(VaultRelease { transfer, signer })
}

} // verus!
