//! Amounts that the registry asks the payment rail to move. The registry
//! computes them; moving the funds is the caller's part.

use vstd::prelude::*;
use crate::identity::ProgramAddress;

verus! {

/// Percent of the price of an execution that goes to the skill's creator.
pub const CREATOR_SHARE_PERCENT: u64 = 70;

/// Percent of the price of an execution that goes to the protocol.
pub const PROTOCOL_SHARE_PERCENT: u64 = 5;

/// The accounts between which the registry moves funds, each named by the
/// part it plays in the operation at hand.
#[derive(Clone, Copy, Debug, PartialEq, Eq, Structural)]
pub enum Wallet {
    /// The payment account of the auditor who stakes or withdraws.
    Auditor,
    /// The custody account that holds an auditor's stake.
    Vault,
    /// The protocol's fund for slashed stakes.
    RewardFund,
    /// The payment account of whoever executes a skill.
    Executor,
    /// The payment account of the skill's creator.
    Creator,
    /// The protocol's treasury.
    Protocol,
}

/// A request to move `amount` from one account to another.
#[derive(Clone, Copy, Debug, PartialEq, Eq, Structural)]
pub struct Transfer {
    pub from: Wallet,
    pub to: Wallet,
    pub amount: u64,
}

/// A request to move funds out of custody. Such a transfer is signed by the
/// program's vault authority; `signer` is `None` where the program has none.
#[derive(Clone, Copy, Debug)]
pub struct VaultRelease {
    pub transfer: Transfer,
    pub signer: Option<ProgramAddress>,
}

/// The creator's share of `price`: 70 percent, rounded down.
pub open spec fn creator_share_of(price: u64) -> nat {
    (price * CREATOR_SHARE_PERCENT / 100) as nat
}

/// The protocol's share of `price`: 5 percent, rounded down.
pub open spec fn protocol_share_of(price: u64) -> nat {
    (price * PROTOCOL_SHARE_PERCENT / 100) as nat
}

/// The creator's share of `price`.
pub fn creator_share(price: u64) -> (share: u64)
    ensures
        share as nat == creator_share_of(price),
        share <= price,
{
    (price as u128 * 70 / 100) as u64
}

/// The protocol's share of `price`.
pub fn protocol_share(price: u64) -> (share: u64)
    ensures
        share as nat == protocol_share_of(price),
        share <= price,
{
    (price as u128 * 5 / 100) as u64
}

} // verus!
