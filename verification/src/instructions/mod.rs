//! The operations of the registry, one module each. Every module holds the
//! records that its operation reads and changes, and the operation itself
//! under the name `handler`.

pub mod add_signature;
pub mod initialize_auditor;
pub mod initialize_registry;
pub mod log_execution;
pub mod mint_skill;
pub mod record_consensus;
pub mod request_unstake;
pub mod slash_auditor;
pub mod stake_usdc;
pub mod withdraw_stake;

pub use add_signature::AddAuditorSignature;
pub use initialize_auditor::InitializeAuditor;
pub use initialize_registry::InitializeRegistry;
pub use log_execution::LogExecution;
pub use mint_skill::MintSkill;
pub use record_consensus::RecordConsensus;
pub use request_unstake::RequestUnstake;
pub use slash_auditor::SlashAuditor;
pub use stake_usdc::StakeUsdc;
pub use withdraw_stake::WithdrawStake;
