//! The records that the ledger keeps, and the accounts that a purchase names.

use crate::address::Address;
use crate::store::Key;
use vstd::prelude::*;

verus! {

/// The number of decimals of every rewards mint.
pub const REWARD_DECIMALS: u8 = 6;

/// Who holds tokens, and of which mint: the key of a token balance.
#[derive(Clone, Copy, Debug, PartialEq, Eq)]
pub struct Holder {
    pub owner: Address,
    pub mint: Address,
}

impl Key for Holder {
    fn same(&self, other: &Holder) -> (r: bool) {
        self.owner.same(&other.owner) && self.mint.same(&other.mint)
    }
}

/// A token: who may issue it, how it is divided, and how much of it exists.
#[derive(Clone, Copy, Debug, PartialEq, Eq)]
pub struct Mint {
    pub authority: Address,
    pub decimals: u8,
    pub supply: u64,
}

/// A named marketplace: its fee rate, its admin, and where its fees and its
/// rewards live.
#[derive(Debug, PartialEq, Eq)]
pub struct Marketplace {
    pub name: String,
    pub fee_bps: u16,
    pub admin: Address,
    pub treasury_address: Address,
    pub rewards_mint_address: Address,
    pub bump: u8,
    pub treasury_bump: u8,
    pub rewards_bump: u8,
}

impl Clone for Marketplace {
    fn clone(&self) -> (copy: Marketplace)
        ensures
            copy == *self,
    {
        Marketplace {
            name: self.name.clone(),
            fee_bps: self.fee_bps,
            admin: self.admin,
            treasury_address: self.treasury_address,
            rewards_mint_address: self.rewards_mint_address,
            bump: self.bump,
            treasury_bump: self.treasury_bump,
            rewards_bump: self.rewards_bump,
        }
    }
}

/// An item offered for sale: who sells it, on which marketplace, and for how
/// much. `deposit` is what the seller paid to keep the record.
#[derive(Clone, Copy, Debug, PartialEq, Eq)]
pub struct Listing {
    pub seller: Address,
    pub marketplace: Address,
    pub item_mint: Address,
    pub price: u64,
    pub bump: u8,
    pub deposit: u64,
}

/// The custody of a listed item: the tokens that left the seller and wait for a
/// buyer. Its authority is the listing it belongs to. `deposit` is what the
/// seller paid to keep the vault.
#[derive(Clone, Copy, Debug, PartialEq, Eq)]
pub struct EscrowVault {
    pub authority: Address,
    pub mint: Address,
    pub amount: u64,
    pub deposit: u64,
}

/// A listing with its vault. The two are made together and end together.
#[derive(Clone, Copy, Debug, PartialEq, Eq)]
pub struct Escrow {
    pub listing: Listing,
    pub vault: EscrowVault,
}

/// The accounts that a purchase names. The ledger holds each of them against
/// its records before anything moves.
#[derive(Clone, Copy, Debug, PartialEq, Eq)]
pub struct Purchase {
    /// The buyer.
    pub taker: Address,
    /// The seller.
    pub maker: Address,
    pub marketplace: Address,
    /// The mint of the item for sale.
    pub maker_mint: Address,
    pub rewards_mint: Address,
    pub listing: Address,
    pub treasury: Address,
}

/// What a purchase did.
#[derive(Clone, Copy, Debug, PartialEq, Eq)]
pub struct ReceiptInfo {
    pub listing: Address,
    pub buyer: Address,
    pub seller: Address,
    pub item_mint: Address,
    /// How many tokens of the item went to the buyer.
    pub amount: u64,
    pub price: u64,
    pub fee: u64,
    pub seller_proceeds: u64,
    /// The reward tokens issued to the buyer.
    pub reward: u64,
    /// The deposits of the listing and its vault, paid back to the seller.
    pub refund: u64,
}

} // verus!
