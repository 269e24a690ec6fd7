//! A custody ledger for one fungible asset: users stake whole units into a
//! program-owned vault and later destake their principal together with a
//! reward that accrues at a flat rate per unit of ledger time.
mod address;
mod amount;
mod destake;
mod error;
mod initialize;
mod ledger;
mod stake;
mod state;

pub use address::{
    derived_from, find_stake_account_address, find_stake_info_address, find_vault_address,
    program_address, seeds_view, stake_account_seeds, stake_account_signer_seeds, stake_info_seed,
    stake_info_seed_bytes, stake_info_seeds, token_seed, token_seed_bytes, vault_seed,
    vault_seed_bytes, vault_seeds, vault_signer_seeds, ProgramAddress,
};
pub use amount::{pow10, scale, scaled};
pub use destake::{
    destake, destake_error, destake_payout, destaked, lemma_reward_is_flat_rate, reward_for,
    withdrawn_units, DeStake, Payout,
};
pub use error::ErrorCode;
pub use initialize::{initialize, initialize_outcome, lemma_initialize_idempotent, Initialize};
pub use ledger::{
    after_destake, after_stake, destake_records, stake_records, Ledger, UserRecords,
};
pub use stake::{stake, stake_error, staked, Stake};
pub use state::{Policy, StakeInfo, Withdrawal};
