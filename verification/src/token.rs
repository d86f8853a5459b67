//! The token ledger as far as the program moves value on it: the supply of
//! the token and the balances of its holders, with the two primitives that
//! change them.
//!
//! On the ledger these primitives belong to the token program. They are kept
//! here on plain quantities so that every transition of this library says
//! what it does to supply and balances. Who may sign for a mint or a balance
//! is decided by the runtime and is no part of this model.

use vstd::prelude::*;
use crate::error::TxError;

verus! {

/// The descriptor of the token: how many units exist.
#[derive(Clone, Copy, Debug, PartialEq, Eq, Structural)]
pub struct Mint {
    pub supply: u64,
}

/// The balance of one holder.
#[derive(Clone, Copy, Debug, PartialEq, Eq, Structural)]
pub struct TokenAccount {
    pub amount: u64,
}

/// `amount` new units fit into the supply and into the balance of `to`.
pub open spec fn mint_fits(mint: Mint, to: TokenAccount, amount: u64) -> bool {
    &&& mint.supply + amount <= u64::MAX
    &&& to.amount + amount <= u64::MAX
}

/// `from` holds `amount` units.
pub open spec fn funds_suffice(from: TokenAccount, amount: u64) -> bool {
    amount <= from.amount
}

/// `amount` more units fit into the balance of `to`.
pub open spec fn deposit_fits(to: TokenAccount, amount: u64) -> bool {
    to.amount + amount <= u64::MAX
}

/// Creates `amount` units and credits them to `to`.
///
/// Fails with `Overflow`, changing nothing, when the supply or the balance
/// would pass the largest 64-bit quantity.
pub fn mint_to(mint: &mut Mint, to: &mut TokenAccount, amount: u64) -> (r: Result<(), TxError>)
    ensures
        r == (if mint_fits(*old(mint), *old(to), amount) {
            Ok::<(), TxError>(())
        } else {
            Err(TxError::Overflow)
        }),
        r is Ok ==> final(mint).supply == old(mint).supply + amount,
        r is Ok ==> final(to).amount == old(to).amount + amount,
        r is Err ==> *final(mint) == *old(mint) && *final(to) == *old(to),
{
    let supply = mint.supply.checked_add(amount);
    let balance = to.amount.checked_add(amount);
    match (supply, balance) {
        (Some(supply), Some(balance)) => {
            mint.supply = supply;
            to.amount = balance;
            Ok(())
        },
        _ => Err(TxError::Overflow),
    }
}

/// Moves `amount` units from `from` to `to`.
///
/// Fails with `InsufficientFunds` when `from` holds less than `amount`, else
/// with `Overflow` when the balance of `to` would pass the largest 64-bit
/// quantity. A failed transfer changes nothing.
pub fn transfer(from: &mut TokenAccount, to: &mut TokenAccount, amount: u64) -> (r: Result<
    (),
    TxError,
>)
    ensures
        r == (if !funds_suffice(*old(from), amount) {
            Err::<(), TxError>(TxError::InsufficientFunds)
        } else if !deposit_fits(*old(to), amount) {
            Err(TxError::Overflow)
        } else {
            Ok(())
        }),
        r is Ok ==> final(from).amount == old(from).amount - amount,
        r is Ok ==> final(to).amount == old(to).amount + amount,
        r is Err ==> *final(from) == *old(from) && *final(to) == *old(to),
{
    if from.amount < amount {
        return Err(TxError::InsufficientFunds);
    }
    match to.amount.checked_add(amount) {
        Some(balance) => {
            from.amount = from.amount - amount;
            to.amount = balance;
            Ok(())
        },
        None => Err(TxError::Overflow),
    }
}

} // verus!
