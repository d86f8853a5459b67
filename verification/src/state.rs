//! The two kinds of record that the program keeps on the ledger.

use vstd::prelude::*;
use solana_program::pubkey::Pubkey;

verus! {

/// `solana_program`'s identity key: 32 bytes that name an account or a
/// signer. It is carried through and compared as a whole; nothing here looks
/// inside.
#[verifier::external_type_specification]
#[verifier::external_body]
pub struct ExPubkey(solana_program::pubkey::Pubkey);

/// What the registry says of the token. Written once, never changed.
#[derive(Debug, PartialEq, Eq)]
pub struct TokenInfo {
    pub name: String,
    pub symbol: String,
    /// How many decimal places one unit is divided into.
    pub decimals: u8,
    /// The identity that approves minting.
    pub authority: Pubkey,
}

/// A `TokenInfo` with its texts as sequences of characters.
pub struct TokenInfoView {
    pub name: Seq<char>,
    pub symbol: Seq<char>,
    pub decimals: u8,
    pub authority: Pubkey,
}

impl View for TokenInfo {
    type V = TokenInfoView;

    open spec fn view(&self) -> TokenInfoView {
        TokenInfoView {
            name: self.name@,
            symbol: self.symbol@,
            decimals: self.decimals,
            authority: self.authority,
        }
    }
}

impl Clone for TokenInfo {
    fn clone(&self) -> (copy: Self)
        ensures
            copy == *self,
    {
        TokenInfo {
            name: self.name.clone(),
            symbol: self.symbol.clone(),
            decimals: self.decimals,
            authority: self.authority,
        }
    }
}

impl TokenInfo {
    /// Bytes set aside for one record: the 8-byte tag in front, then 32 for
    /// the name, 8 for the symbol, 1 for the decimals and 32 for the
    /// authority.
    pub const LEN: usize = 8 + 32 + 8 + 1 + 32;
}

/// One deposit into the vault.
#[derive(Clone, Copy, Debug, PartialEq, Eq)]
pub struct StakeInfo {
    /// Who made the deposit.
    pub user: Pubkey,
    /// How many units were locked.
    pub amount: u64,
    /// The ledger's time at the deposit, in seconds.
    pub timestamp: i64,
}

impl StakeInfo {
    /// Bytes set aside for one record: the 8-byte tag in front, then 32 for
    /// the user, 8 for the amount and 8 for the timestamp.
    pub const LEN: usize = 8 + 32 + 8 + 8;

    /// A deposit locks at least one unit.
    pub open spec fn well_formed(&self) -> bool {
        self.amount > 0
    }
}

} // verus!
