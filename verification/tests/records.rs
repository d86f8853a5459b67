use fit_token::{ErrorCode, StakeInfo, TokenInfo};
use solana_program::pubkey::Pubkey;

#[test]
fn token_info_reserves_81_bytes() {
    assert_eq!(TokenInfo::LEN, 81);
}

#[test]
fn stake_info_reserves_56_bytes() {
    assert_eq!(StakeInfo::LEN, 56);
}

#[test]
fn invalid_amount_has_its_message() {
    assert_eq!(ErrorCode::InvalidAmount.message(), "Invalid amount");
}

#[test]
fn token_info_clones_field_by_field() {
    let info = TokenInfo {
        name: String::from("RewardCoin"),
        symbol: String::from("RWD"),
        decimals: 6,
        authority: Pubkey::new_from_array([3; 32]),
    };
    let copy = info.clone();
    assert_eq!(copy, info);
    assert_eq!(copy.name, "RewardCoin");
    assert_eq!(copy.symbol, "RWD");
    assert_eq!(copy.decimals, 6);
    assert_eq!(copy.authority, Pubkey::new_from_array([3; 32]));
}
