//! What holds of the three instructions, for all records and arguments.

use vstd::prelude::*;
use solana_program::program_error::ProgramError;
use crate::error::{ErrorCode, TxError};
use crate::program::{
    initialize_outcome, mint_reward_outcome, stake_outcome, Initialize, MintReward, StakeTokens,
};
use crate::state::{StakeInfo, TokenInfo};
use crate::token::{deposit_fits, funds_suffice, mint_fits};

verus! {

/// A reward of zero units is refused with `InvalidAmount`, and neither the
/// supply nor the balance changes.
pub proof fn lemma_zero_reward_refused(pre: MintReward)
    ensures
        mint_reward_outcome(pre, 0) == (
            pre,
            Err::<(), TxError>(TxError::Program(ErrorCode::InvalidAmount)),
        ),
{
}

/// A deposit of zero units is refused with `InvalidAmount`, whatever the
/// clock answers, and neither a balance nor the record changes.
pub proof fn lemma_zero_stake_refused(pre: StakeTokens, clock: Result<i64, ProgramError>)
    ensures
        stake_outcome(pre, 0, clock) == (
            pre,
            Err::<(), TxError>(TxError::Program(ErrorCode::InvalidAmount)),
        ),
{
}

/// A reward of `amount > 0` units that fits the supply and the balance
/// succeeds, adds exactly `amount` to the destination balance and to the
/// supply, and changes nothing else.
pub proof fn lemma_reward_adds_exactly(pre: MintReward, amount: u64)
    requires
        amount > 0,
        mint_fits(pre.mint, pre.user_token, amount),
    ensures
        mint_reward_outcome(pre, amount).1 is Ok,
        mint_reward_outcome(pre, amount).0.user_token.amount == pre.user_token.amount + amount,
        mint_reward_outcome(pre, amount).0.mint.supply == pre.mint.supply + amount,
        mint_reward_outcome(pre, amount).0.authority == pre.authority,
{
}

/// A reward either succeeds or leaves supply and balance as they were; it
/// fails exactly on a zero amount and on one that does not fit.
pub proof fn lemma_reward_all_or_nothing(pre: MintReward, amount: u64)
    ensures
        mint_reward_outcome(pre, amount).1 is Ok <==> amount > 0 && mint_fits(
            pre.mint,
            pre.user_token,
            amount,
        ),
        mint_reward_outcome(pre, amount).1 is Err ==> mint_reward_outcome(pre, amount).0 == pre,
{
}

/// A deposit of `amount > 0` units into a free place, at the time `now`, by
/// a depositor who holds the amount, into a vault that has room for it,
/// succeeds: it creates the one record with the depositor, `amount` and
/// `now`, takes `amount` from the depositor's balance and adds it to the
/// vault.
pub proof fn lemma_stake_moves_exactly(pre: StakeTokens, amount: u64, now: i64)
    requires
        amount > 0,
        pre.stake_info is None,
        funds_suffice(pre.user_token, amount),
        deposit_fits(pre.stake_vault, amount),
    ensures
        stake_outcome(pre, amount, Ok(now)).1 is Ok,
        stake_outcome(pre, amount, Ok(now)).0.stake_info == Some(
            (StakeInfo { user: pre.user, amount, timestamp: now }),
        ),
        stake_outcome(pre, amount, Ok(now)).0.user_token.amount == pre.user_token.amount - amount,
        stake_outcome(pre, amount, Ok(now)).0.stake_vault.amount == pre.stake_vault.amount
            + amount,
        stake_outcome(pre, amount, Ok(now)).0.user == pre.user,
{
}

/// The three changes of a deposit come together or not at all: after a
/// success the record stands and both balances have moved, after a failure
/// the place and both balances are as before. A deposit succeeds exactly
/// when the amount is positive, the place is free, the clock answered, the
/// depositor holds the amount and the vault has room.
pub proof fn lemma_stake_all_or_nothing(
    pre: StakeTokens,
    amount: u64,
    clock: Result<i64, ProgramError>,
)
    ensures
        stake_outcome(pre, amount, clock).1 is Ok <==> amount > 0 && pre.stake_info is None
            && clock is Ok && funds_suffice(pre.user_token, amount) && deposit_fits(
            pre.stake_vault,
            amount,
        ),
        stake_outcome(pre, amount, clock).1 is Ok ==> {
            let post = stake_outcome(pre, amount, clock).0;
            &&& post.stake_info is Some
            &&& post.stake_info->Some_0.well_formed()
            &&& post.user_token.amount == pre.user_token.amount - amount
            &&& post.stake_vault.amount == pre.stake_vault.amount + amount
        },
        stake_outcome(pre, amount, clock).1 is Err ==> stake_outcome(pre, amount, clock).0 == pre,
{
}

/// A deposit creates no unit and destroys none: the depositor's balance and
/// the vault hold together what they held before.
pub proof fn lemma_stake_conserves_units(
    pre: StakeTokens,
    amount: u64,
    clock: Result<i64, ProgramError>,
)
    ensures
        stake_outcome(pre, amount, clock).0.user_token.amount + stake_outcome(
            pre,
            amount,
            clock,
        ).0.stake_vault.amount == pre.user_token.amount + pre.stake_vault.amount,
{
}

/// The registry record is written at most once. Of two initializations of
/// the same place, one after the other, the second fails with
/// `AccountInUse` and leaves every record as the first left it; where the
/// first succeeded, the record still holds what the first wrote.
pub proof fn lemma_initialize_at_most_once(pre: Initialize, first: TokenInfo, second: TokenInfo)
    ensures
        ({
            let (mid, _) = initialize_outcome(pre, first);
            initialize_outcome(mid, second) == (mid, Err::<(), TxError>(TxError::AccountInUse))
        }),
        initialize_outcome(pre, first).1 is Ok ==> ({
            let (mid, _) = initialize_outcome(pre, first);
            initialize_outcome(mid, second).0.token_info == Some(first)
        }),
{
}

/// An initialization moves no value and keeps the signer: only the place of
/// the registry record can change.
pub proof fn lemma_initialize_moves_nothing(pre: Initialize, info: TokenInfo)
    ensures
        initialize_outcome(pre, info).0.mint == pre.mint,
        initialize_outcome(pre, info).0.authority == pre.authority,
        initialize_outcome(pre, info).1 is Err ==> initialize_outcome(pre, info).0 == pre,
{
}

} // verus!
