//! The program's three instructions.
//!
//! Each takes the records that its transaction names, as one value, and is
//! one atomic step on them: it returns `Ok` with all of its changes made, or
//! an error with none.

use vstd::prelude::*;
use solana_program::program_error::ProgramError;
use solana_program::pubkey::Pubkey;
use crate::clock::unix_timestamp;
use crate::error::{ErrorCode, TxError};
use crate::state::{StakeInfo, TokenInfo, TokenInfoView};
use crate::token::{deposit_fits, funds_suffice, mint_fits, mint_to, transfer, Mint, TokenAccount};

verus! {

/// The records of the registry's initialization.
#[derive(Debug, PartialEq, Eq)]
pub struct Initialize {
    /// The place of the registry record: `None` while it holds no data.
    pub token_info: Option<TokenInfo>,
    /// The descriptor of the token that the registry describes.
    pub mint: Mint,
    /// The signer, who becomes the token's authority.
    pub authority: Pubkey,
}

impl Clone for Initialize {
    fn clone(&self) -> (copy: Self)
        ensures
            copy == *self,
    {
        let token_info = match &self.token_info {
            Some(info) => Some(info.clone()),
            None => None,
        };
        Initialize { token_info, mint: self.mint, authority: self.authority }
    }
}

/// The records of a reward.
#[derive(Clone, Copy, Debug, PartialEq, Eq)]
pub struct MintReward {
    /// The descriptor of the token.
    pub mint: Mint,
    /// The balance that receives the reward.
    pub user_token: TokenAccount,
    /// The signer who approves the minting.
    pub authority: Pubkey,
}

/// The records of a deposit into the vault.
#[derive(Clone, Copy, Debug, PartialEq, Eq)]
pub struct StakeTokens {
    /// The place of the record to create: `None` while it holds no data.
    pub stake_info: Option<StakeInfo>,
    /// The depositor's balance.
    pub user_token: TokenAccount,
    /// The vault's pooled balance.
    pub stake_vault: TokenAccount,
    /// The depositor, who signs.
    pub user: Pubkey,
}

/// What writing `info` into the registry does to `pre`: the records after
/// it, and its result.
///
/// A place that already holds a record is not written again.
pub open spec fn initialize_outcome(pre: Initialize, info: TokenInfo) -> (
    Initialize,
    Result<(), TxError>,
) {
    if pre.token_info is Some {
        (pre, Err(TxError::AccountInUse))
    } else {
        (Initialize { token_info: Some(info), mint: pre.mint, authority: pre.authority }, Ok(()))
    }
}

/// What a reward of `amount` does to `pre`: the records after it, and its
/// result.
pub open spec fn mint_reward_outcome(pre: MintReward, amount: u64) -> (
    MintReward,
    Result<(), TxError>,
) {
    if amount == 0 {
        (pre, Err(TxError::Program(ErrorCode::InvalidAmount)))
    } else if !mint_fits(pre.mint, pre.user_token, amount) {
        (pre, Err(TxError::Overflow))
    } else {
        (
            MintReward {
                mint: Mint { supply: (pre.mint.supply + amount) as u64 },
                user_token: TokenAccount { amount: (pre.user_token.amount + amount) as u64 },
                authority: pre.authority,
            },
            Ok(()),
        )
    }
}

/// What a deposit of `amount` does to `pre` when the ledger's clock answers
/// `clock`: the records after it, and its result.
///
/// The checks come in this order: the amount, the place for the record, the
/// clock, the depositor's funds, the room in the vault. The first that fails
/// names the error, and the records stay as they were.
pub open spec fn stake_outcome(
    pre: StakeTokens,
    amount: u64,
    clock: Result<i64, ProgramError>,
) -> (StakeTokens, Result<(), TxError>) {
    if amount == 0 {
        (pre, Err(TxError::Program(ErrorCode::InvalidAmount)))
    } else if pre.stake_info is Some {
        (pre, Err(TxError::AccountInUse))
    } else {
        match clock {
            Err(e) => (pre, Err(TxError::Runtime(e))),
            Ok(now) => if !funds_suffice(pre.user_token, amount) {
                (pre, Err(TxError::InsufficientFunds))
            } else if !deposit_fits(pre.stake_vault, amount) {
                (pre, Err(TxError::Overflow))
            } else {
                (
                    StakeTokens {
                        stake_info: Some(StakeInfo { user: pre.user, amount, timestamp: now }),
                        user_token: TokenAccount {
                            amount: (pre.user_token.amount - amount) as u64,
                        },
                        stake_vault: TokenAccount {
                            amount: (pre.stake_vault.amount + amount) as u64,
                        },
                        user: pre.user,
                    },
                    Ok(()),
                )
            },
        }
    }
}

/// Fills the registry record with the token's name, symbol and decimals and
/// with the signer as its authority.
///
/// The record is written once: where the place already holds one, the call
/// fails with `AccountInUse` and the record stays as it is. No value moves.
pub fn initialize(ctx: &mut Initialize, name: String, symbol: String, decimals: u8) -> (r:
    Result<(), TxError>)
    ensures
        (*final(ctx), r) == initialize_outcome(
            *old(ctx),
            (TokenInfo { name, symbol, decimals, authority: old(ctx).authority }),
        ),
        r is Ok <==> old(ctx).token_info is None,
        r is Ok ==> final(ctx).token_info is Some,
        r is Ok ==> final(ctx).token_info->Some_0@ == (TokenInfoView {
            name: name@,
            symbol: symbol@,
            decimals,
            authority: old(ctx).authority,
        }),
        r is Err ==> r == Err::<(), TxError>(TxError::AccountInUse),
        r is Err ==> *final(ctx) == *old(ctx),
        final(ctx).mint == old(ctx).mint,
        final(ctx).authority == old(ctx).authority,
{
    if ctx.token_info.is_some() {
        return Err(TxError::AccountInUse);
    }
    ctx.token_info = Some(TokenInfo { name, symbol, decimals, authority: ctx.authority });
    Ok(())
}

/// Mints `amount` new units to the destination balance, on the signer's
/// approval.
///
/// A zero amount is refused with `InvalidAmount`. The signer is not held
/// against the registry's authority. Where supply or balance would pass the
/// largest 64-bit quantity the minting fails with `Overflow`. A failed call
/// changes nothing.
pub fn mint_reward(ctx: &mut MintReward, amount: u64) -> (r: Result<(), TxError>)
    ensures
        (*final(ctx), r) == mint_reward_outcome(*old(ctx), amount),
        amount == 0 ==> r == Err::<(), TxError>(TxError::Program(ErrorCode::InvalidAmount)),
        r is Ok <==> amount > 0 && mint_fits(old(ctx).mint, old(ctx).user_token, amount),
        r is Ok ==> final(ctx).user_token.amount == old(ctx).user_token.amount + amount,
        r is Ok ==> final(ctx).mint.supply == old(ctx).mint.supply + amount,
        r is Err ==> *final(ctx) == *old(ctx),
        final(ctx).authority == old(ctx).authority,
{
    if amount == 0 {
        return Err(TxError::Program(ErrorCode::InvalidAmount));
    }
    mint_to(&mut ctx.mint, &mut ctx.user_token, amount)
}

/// Locks `amount` units of the depositor in the vault and records the
/// deposit, with `clock` as the answer of the ledger's clock.
///
/// A zero amount is refused with `InvalidAmount`. Otherwise the record is
/// filled with the depositor, the amount and the clock's time, and the
/// amount moves from the depositor's balance to the vault. If the move
/// fails the record is taken back, so that no record stands without its
/// deposit.
pub fn stake_tokens_with_clock(
    ctx: &mut StakeTokens,
    amount: u64,
    clock: Result<i64, ProgramError>,
) -> (r: Result<(), TxError>)
    ensures
        (*final(ctx), r) == stake_outcome(*old(ctx), amount, clock),
        amount == 0 ==> r == Err::<(), TxError>(TxError::Program(ErrorCode::InvalidAmount)),
        r is Err ==> *final(ctx) == *old(ctx),
        r is Ok ==> clock is Ok,
        r is Ok ==> final(ctx).stake_info == Some(
            (StakeInfo { user: old(ctx).user, amount, timestamp: clock->Ok_0 }),
        ),
        r is Ok ==> final(ctx).stake_info->Some_0.well_formed(),
        r is Ok ==> final(ctx).user_token.amount == old(ctx).user_token.amount - amount,
        r is Ok ==> final(ctx).stake_vault.amount == old(ctx).stake_vault.amount + amount,
        final(ctx).user == old(ctx).user,
{
    if amount == 0 {
        return Err(TxError::Program(ErrorCode::InvalidAmount));
    }
    if ctx.stake_info.is_some() {
        return Err(TxError::AccountInUse);
    }
    let now = match clock {
        Ok(now) => now,
        Err(e) => {
            return Err(TxError::Runtime(e));
        },
    };
    ctx.stake_info = Some(StakeInfo { user: ctx.user, amount, timestamp: now });
    match transfer(&mut ctx.user_token, &mut ctx.stake_vault, amount) {
        Ok(()) => Ok(()),
        Err(e) => {
            ctx.stake_info = None;
            Err(e)
        },
    }
}

/// Locks `amount` units of the depositor in the vault and records the
/// deposit at the ledger's present time.
///
/// A zero amount is refused before the clock is asked. Otherwise the time
/// is read from the runtime, and the result is that of
/// `stake_tokens_with_clock` for the answer the clock gave, whatever it was.
pub fn stake_tokens(ctx: &mut StakeTokens, amount: u64) -> (r: Result<(), TxError>)
    ensures
        exists|clock: Result<i64, ProgramError>|
            (*final(ctx), r) == #[trigger] stake_outcome(*old(ctx), amount, clock),
        amount == 0 ==> r == Err::<(), TxError>(TxError::Program(ErrorCode::InvalidAmount)),
        amount > 0 && old(ctx).stake_info is Some ==> r == Err::<(), TxError>(
            TxError::AccountInUse,
        ),
        r is Ok ==> funds_suffice(old(ctx).user_token, amount),
        r is Ok ==> deposit_fits(old(ctx).stake_vault, amount),
        r is Err ==> *final(ctx) == *old(ctx),
        r is Ok ==> final(ctx).stake_info is Some,
        r is Ok ==> final(ctx).stake_info->Some_0.user == old(ctx).user,
        r is Ok ==> final(ctx).stake_info->Some_0.amount == amount,
        r is Ok ==> final(ctx).user_token.amount == old(ctx).user_token.amount - amount,
        r is Ok ==> final(ctx).stake_vault.amount == old(ctx).stake_vault.amount + amount,
        final(ctx).user == old(ctx).user,
{
    if amount == 0 {
        proof {
            // A zero amount ends the same way whatever the clock would have said.
            let unasked: Result<i64, ProgramError> = Ok(0);
            assert(stake_outcome(*old(ctx), amount, unasked).0 == *old(ctx));
        }
        return Err(TxError::Program(ErrorCode::InvalidAmount));
    }
    let clock = unix_timestamp();
    stake_tokens_with_clock(ctx, amount, clock)
}

} // verus!
