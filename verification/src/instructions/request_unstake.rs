//! Requesting the return of a stake: the auditor stops attesting at once,
//! and the stake can be withdrawn when the unbonding window has elapsed.

use vstd::prelude::*;
use crate::error::ErrorCode;
use crate::identity::Identity;
use crate::state::Auditor;

verus! {

/// The wait between an unstake request and the withdrawal: 7 days, in
/// seconds.
pub const UNBONDING_PERIOD: i64 = 604_800;

/// What an unstake request reads and changes.
#[derive(Clone, Copy, Debug)]
pub struct RequestUnstake {
    pub auditor: Auditor,
    /// The caller.
    pub authority: Identity,
}

/// Why an unstake request at time `now` is refused, or `None` where it is
/// accepted. Only the auditor may ask, and the unlock time must fit in the
/// record.
pub open spec fn refusal(ctx: RequestUnstake, now: i64) -> Option<ErrorCode> {
    if ctx.authority != ctx.auditor.pubkey {
        Some(ErrorCode::Unauthorized)
    } else if now + UNBONDING_PERIOD > i64::MAX {
        Some(ErrorCode::ArithmeticOverflow)
    } else {
        None
    }
}

/// The auditor after an unstake request at time `now`: inactive, with the
/// stake locked until the window has elapsed.
pub open spec fn unbonding(auditor: Auditor, now: i64) -> Auditor {
    Auditor { locked_until: (now + UNBONDING_PERIOD) as i64, active: false, ..auditor }
}

/// Starts the unbonding of the stake of the auditor of `ctx` at time `now`.
/// A refused request changes nothing.
pub fn handler(ctx: &mut RequestUnstake, now: i64) -> (result: Result<(), ErrorCode>)
    ensures
        match result {
            Ok(_) => {
                &&& refusal(*old(ctx), now).is_none()
                &&& final(ctx).auditor == unbonding(old(ctx).auditor, now)
                &&& final(ctx).auditor.locked_until == now + UNBONDING_PERIOD
                &&& final(ctx).authority == old(ctx).authority
            },
            Err(error) => {
                &&& refusal(*old(ctx), now) == Some(error)
                &&& *final(ctx) == *old(ctx)
            },
        },
        old(ctx).auditor.wf() && now + UNBONDING_PERIOD >= 0 ==> final(ctx).auditor.wf(),
{
    if ctx.authority != ctx.auditor.pubkey {
        return Err(ErrorCode::Unauthorized);
    }
    if now > i64::MAX - UNBONDING_PERIOD {
        return Err(ErrorCode::ArithmeticOverflow);
    }
    ctx.auditor.locked_until = now + UNBONDING_PERIOD;
    ctx.auditor.active = false;
    Ok(())
}

} // verus!
