//! A reward token with a staking vault, as transitions on the records that
//! one transaction names.
//!
//! The token registry, the minting of rewards and the deposit of a stake are
//! each one atomic step: a step either applies all of its changes or returns
//! an error and leaves every record as it found it.

mod clock;
pub mod error;
pub mod laws;
pub mod program;
pub mod state;
pub mod token;

pub use error::{ErrorCode, TxError};
pub use program::{
    initialize, mint_reward, stake_tokens, stake_tokens_with_clock, Initialize, MintReward,
    StakeTokens,
};
pub use state::{StakeInfo, TokenInfo};
pub use token::{Mint, TokenAccount};
