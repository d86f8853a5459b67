use fit_token::token::{mint_to, transfer};
use fit_token::{Mint, TokenAccount, TxError};

#[test]
fn mint_to_credits_supply_and_balance() {
    let mut mint = Mint { supply: 1_000 };
    let mut to = TokenAccount { amount: 50 };
    assert_eq!(mint_to(&mut mint, &mut to, 100), Ok(()));
    assert_eq!(mint, Mint { supply: 1_100 });
    assert_eq!(to, TokenAccount { amount: 150 });
}

#[test]
fn mint_to_of_zero_is_no_change() {
    let mut mint = Mint { supply: u64::MAX };
    let mut to = TokenAccount { amount: u64::MAX };
    assert_eq!(mint_to(&mut mint, &mut to, 0), Ok(()));
    assert_eq!(mint.supply, u64::MAX);
    assert_eq!(to.amount, u64::MAX);
}

#[test]
fn mint_to_overflows_on_the_supply() {
    let mut mint = Mint { supply: u64::MAX - 9 };
    let mut to = TokenAccount { amount: 0 };
    assert_eq!(mint_to(&mut mint, &mut to, 10), Err(TxError::Overflow));
    assert_eq!(mint.supply, u64::MAX - 9);
    assert_eq!(to.amount, 0);
    assert_eq!(mint_to(&mut mint, &mut to, 9), Ok(()));
    assert_eq!(mint.supply, u64::MAX);
    assert_eq!(to.amount, 9);
}

#[test]
fn mint_to_overflows_on_the_balance() {
    let mut mint = Mint { supply: 0 };
    let mut to = TokenAccount { amount: u64::MAX };
    assert_eq!(mint_to(&mut mint, &mut to, 1), Err(TxError::Overflow));
    assert_eq!(mint.supply, 0);
    assert_eq!(to.amount, u64::MAX);
}

#[test]
fn transfer_moves_the_amount() {
    let mut from = TokenAccount { amount: 150 };
    let mut to = TokenAccount { amount: 0 };
    assert_eq!(transfer(&mut from, &mut to, 30), Ok(()));
    assert_eq!(from.amount, 120);
    assert_eq!(to.amount, 30);
}

#[test]
fn transfer_of_everything_empties_the_source() {
    let mut from = TokenAccount { amount: 77 };
    let mut to = TokenAccount { amount: 3 };
    assert_eq!(transfer(&mut from, &mut to, 77), Ok(()));
    assert_eq!(from.amount, 0);
    assert_eq!(to.amount, 80);
}

#[test]
fn transfer_needs_the_funds() {
    let mut from = TokenAccount { amount: 5 };
    let mut to = TokenAccount { amount: 1 };
    assert_eq!(transfer(&mut from, &mut to, 6), Err(TxError::InsufficientFunds));
    assert_eq!(from.amount, 5);
    assert_eq!(to.amount, 1);
}

#[test]
fn transfer_needs_room_at_the_destination() {
    let mut from = TokenAccount { amount: 5 };
    let mut to = TokenAccount { amount: u64::MAX - 4 };
    assert_eq!(transfer(&mut from, &mut to, 5), Err(TxError::Overflow));
    assert_eq!(from.amount, 5);
    assert_eq!(to.amount, u64::MAX - 4);
    assert_eq!(transfer(&mut from, &mut to, 4), Ok(()));
    assert_eq!(from.amount, 1);
    assert_eq!(to.amount, u64::MAX);
}
