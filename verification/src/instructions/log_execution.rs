//! Logging one execution of a skill: the payment split, the log entry and
//! the statistics that feed the trust score.

use vstd::prelude::*;
use crate::error::ErrorCode;
use crate::identity::Identity;
use crate::payment::{
    creator_share, creator_share_of, protocol_share, protocol_share_of, Transfer, Wallet,
};
use crate::state::{ExecutionLog, Skill, SkillView, MAX_TRUST_SCORE};
use crate::trust_score::{calculate_trust_score, score};

verus! {

/// What logging an execution reads and changes.
#[derive(Clone, Debug)]
pub struct LogExecution {
    /// Where the skill is stored.
    pub skill_address: Identity,
    pub skill: Skill,
    /// The caller, who pays for the execution.
    pub executor: Identity,
}

/// What an execution gives rise to: its log entry, and the two payments
/// that the executor makes. Either both payments are made or the execution
/// is not logged at all.
#[derive(Clone, Copy, Debug)]
pub struct Execution {
    pub log: ExecutionLog,
    pub creator_payment: Transfer,
    pub protocol_payment: Transfer,
}

/// Why an execution is not logged, or `None` where it is: the counters and
/// the earnings of the skill must have room for it.
pub open spec fn refusal(ctx: LogExecution, success: bool) -> Option<ErrorCode> {
    if ctx.skill.execution_count == u64::MAX || (success && ctx.skill.success_count == u64::MAX)
        || ctx.skill.total_earned + ctx.skill.price_usdc > u64::MAX {
        Some(ErrorCode::ArithmeticOverflow)
    } else {
        None
    }
}

/// What an execution takes out of the account `wallet`.
pub open spec fn debited(execution: Execution, wallet: Wallet) -> nat {
    let to_creator: nat = if execution.creator_payment.from == wallet {
        execution.creator_payment.amount as nat
    } else {
        0
    };
    let to_protocol: nat = if execution.protocol_payment.from == wallet {
        execution.protocol_payment.amount as nat
    } else {
        0
    };
    to_creator + to_protocol
}

/// The statistics of a skill after one more execution at time `now`, with
/// the trust score still as it was.
pub open spec fn tallied(skill: SkillView, success: bool, now: i64) -> SkillView {
    SkillView {
        execution_count: (skill.execution_count + 1) as u64,
        success_count: if success {
            (skill.success_count + 1) as u64
        } else {
            skill.success_count
        },
        total_earned: (skill.total_earned + skill.price_usdc) as u64,
        last_used: now,
        ..skill
    }
}

/// The skill after one more execution at time `now`: the statistics count
/// it, and the trust score is computed anew from them.
pub open spec fn executed(skill: SkillView, success: bool, now: i64) -> SkillView {
    SkillView {
        trust_score: score(tallied(skill, success, now), now) as u16,
        ..tallied(skill, success, now)
    }
}

/// What an execution puts into the account `wallet`.
pub open spec fn credited(execution: Execution, wallet: Wallet) -> nat {
    let to_creator: nat = if execution.creator_payment.to == wallet {
        execution.creator_payment.amount as nat
    } else {
        0
    };
    let to_protocol: nat = if execution.protocol_payment.to == wallet {
        execution.protocol_payment.amount as nat
    } else {
        0
    };
    to_creator + to_protocol
}

/// Logs one execution of the skill of `ctx` at time `now`. The executor
/// pays 70 percent of the price to the creator and 5 percent to the
/// protocol, each rounded down; the rest of the price moves nowhere. An
/// execution that is not logged changes nothing and asks for no payment.
pub fn handler(ctx: &mut LogExecution, success: bool, latency_ms: u32, now: i64) -> (result:
    Result<Execution, ErrorCode>)
    ensures
        match result {
            Ok(execution) => {
                &&& refusal(*old(ctx), success).is_none()
                &&& final(ctx).skill@ == executed(old(ctx).skill@, success, now)
                &&& final(ctx).skill.trust_score == score(final(ctx).skill@, now)
                &&& final(ctx).skill.trust_score <= MAX_TRUST_SCORE
                &&& final(ctx).skill_address == old(ctx).skill_address
                &&& final(ctx).executor == old(ctx).executor
                &&& execution.log == (ExecutionLog {
                    skill: old(ctx).skill_address,
                    executor: old(ctx).executor,
                    success,
                    latency_ms,
                    payment_amount: old(ctx).skill.price_usdc,
                    timestamp: now,
                })
                &&& execution.creator_payment == (Transfer {
                    from: Wallet::Executor,
                    to: Wallet::Creator,
                    amount: creator_share_of(old(ctx).skill.price_usdc) as u64,
                })
                &&& execution.protocol_payment == (Transfer {
                    from: Wallet::Executor,
                    to: Wallet::Protocol,
                    amount: protocol_share_of(old(ctx).skill.price_usdc) as u64,
                })
                &&& debited(execution, Wallet::Executor) == creator_share_of(
                    old(ctx).skill.price_usdc,
                ) + protocol_share_of(old(ctx).skill.price_usdc)
                &&& forall|wallet: Wallet|
                    wallet != Wallet::Executor ==> #[trigger] debited(execution, wallet) == 0
                &&& credited(execution, Wallet::Creator) == creator_share_of(
                    old(ctx).skill.price_usdc,
                )
                &&& credited(execution, Wallet::Protocol) == protocol_share_of(
                    old(ctx).skill.price_usdc,
                )
                &&& forall|wallet: Wallet|
                    wallet != Wallet::Creator && wallet != Wallet::Protocol ==> #[trigger] credited(
                        execution,
                        wallet,
                    ) == 0
            },
            Err(error) => {
                &&& refusal(*old(ctx), success) == Some(error)
                &&& *final(ctx) == *old(ctx)
            },
        },
        old(ctx).skill.wf() ==> final(ctx).skill.wf(),
{
    let total_payment = ctx.skill.price_usdc;
    if ctx.skill.execution_count == u64::MAX || (success && ctx.skill.success_count == u64::MAX)
        || total_payment > u64::MAX - ctx.skill.total_earned {
        return Err(ErrorCode::ArithmeticOverflow);
    }
    let creator_payment = Transfer {
        from: Wallet::Executor,
        to: Wallet::Creator,
        amount: creator_share(total_payment),
    };
    let protocol_payment = Transfer {
        from: Wallet::Executor,
        to: Wallet::Protocol,
        amount: protocol_share(total_payment),
    };
    ctx.skill.execution_count = ctx.skill.execution_count + 1;
    if success {
        ctx.skill.success_count = ctx.skill.success_count + 1;
    }
    ctx.skill.total_earned = ctx.skill.total_earned + total_payment;
    ctx.skill.last_used = now;
    let trust_score = calculate_trust_score(&ctx.skill, now);
    ctx.skill.trust_score = trust_score;
    let log = ExecutionLog {
        skill: ctx.skill_address,
        executor: ctx.executor,
        success,
        latency_ms,
        payment_amount: total_payment,
        timestamp: now,
    };
    Ok(Execution { log, creator_payment, protocol_payment })
}

} // verus!
