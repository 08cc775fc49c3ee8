//! The operations of the marketplace.
//!
//! Every operation checks all it has to check before it changes anything, so an
//! operation that is turned down leaves the ledger as it was. What an operation
//! does is stated against the step functions of `model`.

use crate::address::{
    listing_address, marketplace_address, rewards_address, treasury_address, Address, Derived,
};
use crate::error::MarketError;
use crate::fees::{lemma_portion_bounded, portion_of, RewardPolicy};
use crate::ledger::Ledger;
use crate::model::{marketplace_addresses, marketplace_record, purchase_error, purchase_receipt};
use crate::records::{Escrow, EscrowVault, Listing, Marketplace, Mint, Purchase, ReceiptInfo};
use vstd::prelude::*;

verus! {

/// What the purchase that `accounts` names would pay, move and earn, or why it
/// is turned down, given the listing and its vault, the marketplace, what was
/// derived for the listing, the buyer's funds and the supply of the rewards
/// mint. Nothing is changed: this is the decision that a purchase rests on.
pub fn quote_purchase(
    accounts: &Purchase,
    escrow: &Escrow,
    market: &Marketplace,
    expected: Option<Derived>,
    funds: u64,
    rewards_supply: u64,
    policy: &RewardPolicy,
) -> (r: Result<ReceiptInfo, MarketError>)
    ensures
        match purchase_error(
            *accounts,
            *escrow,
            *market,
            expected,
            funds as nat,
            rewards_supply as nat,
            *policy,
        ) {
            Some(error) => r == Err::<ReceiptInfo, MarketError>(error),
            None => r == Ok::<ReceiptInfo, MarketError>(
                purchase_receipt(*accounts, *escrow, *market, *policy),
            ),
        },
        r matches Ok(receipt) ==> receipt.seller_proceeds + receipt.fee == receipt.price,
{
    let derived: Derived = match expected {
        Some(derived) => derived,
        None => {
            return Err(MarketError::AddressMismatch);
        },
    };
    if escrow.listing.marketplace != accounts.marketplace || derived.address != accounts.listing
        || derived.bump != escrow.listing.bump || escrow.listing.seller != accounts.maker
        || market.treasury_address != accounts.treasury || market.rewards_mint_address
        != accounts.rewards_mint {
        return Err(MarketError::AddressMismatch);
    }
    if market.fee_bps > 10_000 || !policy.is_valid() {
        return Err(MarketError::InvalidFee);
    }
    let price: u64 = escrow.listing.price;
    if funds < price {
        return Err(MarketError::InsufficientFunds);
    }
    if escrow.vault.mint != accounts.maker_mint {
        return Err(MarketError::MintMismatch);
    }
    let reward: u64 = policy.reward(price);
    if reward > u64::MAX - rewards_supply || escrow.listing.deposit > u64::MAX
        - escrow.vault.deposit {
        return Err(MarketError::Overflow);
    }
    let fee: u64 = portion_of(price, market.fee_bps);
    Ok(
        ReceiptInfo {
            listing: accounts.listing,
            buyer: accounts.taker,
            seller: escrow.listing.seller,
            item_mint: escrow.vault.mint,
            amount: escrow.vault.amount,
            price,
            fee,
            seller_proceeds: price - fee,
            reward,
            refund: escrow.listing.deposit + escrow.vault.deposit,
        },
    )
}

impl Ledger {
    /// Lets `amount` of native currency into the ledger, at `to`.
    pub fn fund(&mut self, to: &Address, amount: u64) -> (r: Result<(), MarketError>)
        requires
            old(self).wf(),
        ensures
            final(self).wf(),
            match old(self)@.fund_step(*to, amount) {
                Ok(next) => r == Ok::<(), MarketError>(()) && final(self)@ == next,
                Err(error) => r == Err::<(), MarketError>(error) && *final(self) == *old(self),
            },
    {
        if amount > u64::MAX - self.native_supply() {
            return Err(MarketError::Overflow);
        }
        self.add_native(to, amount);
        Ok(())
    }

    /// Creates a mint at `mint`, of which nothing exists yet.
    pub fn create_mint(&mut self, mint: &Address, authority: &Address, decimals: u8) -> (r: Result<
        (),
        MarketError,
    >)
        requires
            old(self).wf(),
        ensures
            final(self).wf(),
            match old(self)@.create_mint_step(*mint, *authority, decimals) {
                Ok(next) => r == Ok::<(), MarketError>(()) && final(self)@ == next,
                Err(error) => r == Err::<(), MarketError>(error) && *final(self) == *old(self),
            },
            final(self)@.native_supply == old(self)@.native_supply,
    {
        if self.mint(mint).is_some() {
            return Err(MarketError::AlreadyExists);
        }
        self.add_mint(mint, *authority, decimals);
        Ok(())
    }

    /// Issues `amount` new tokens of `mint` to `destination`, on the word of
    /// `authority`.
    pub fn mint_to(
        &mut self,
        mint: &Address,
        authority: &Address,
        destination: &Address,
        amount: u64,
    ) -> (r: Result<(), MarketError>)
        requires
            old(self).wf(),
        ensures
            final(self).wf(),
            match old(self)@.mint_to_step(*mint, *authority, *destination, amount) {
                Ok(next) => r == Ok::<(), MarketError>(()) && final(self)@ == next,
                Err(error) => r == Err::<(), MarketError>(error) && *final(self) == *old(self),
            },
            final(self)@.native_supply == old(self)@.native_supply,
    {
        let record: Mint = match self.mint(mint) {
            Some(record) => record,
            None => {
                return Err(MarketError::NotFound);
            },
        };
        if record.authority != *authority {
            return Err(MarketError::Unauthorized);
        }
        if amount > u64::MAX - record.supply {
            return Err(MarketError::Overflow);
        }
        self.issue_tokens(mint, destination, amount);
        Ok(())
    }

    /// Registers the marketplace called `name` under the three addresses that
    /// were derived for it.
    pub fn register(
        &mut self,
        name: String,
        fee_bps: u16,
        admin: Address,
        market: Derived,
        treasury: Derived,
        rewards: Derived,
    ) -> (r: Result<Marketplace, MarketError>)
        requires
            old(self).wf(),
        ensures
            final(self).wf(),
            match old(self)@.register_step(name, fee_bps, admin, market, treasury, rewards) {
                Ok(next) => r == Ok::<Marketplace, MarketError>(
                    marketplace_record(name, fee_bps, admin, market, treasury, rewards),
                ) && final(self)@ == next,
                Err(error) => r == Err::<Marketplace, MarketError>(error) && *final(self) == *old(
                    self,
                ),
            },
            final(self)@.native_supply == old(self)@.native_supply,
    {
        if self.marketplace(&market.address).is_some() || self.mint(&rewards.address).is_some() {
            return Err(MarketError::AlreadyExists);
        }
        if fee_bps > 10_000 {
            return Err(MarketError::InvalidFee);
        }
        let record = Marketplace {
            name,
            fee_bps,
            admin,
            treasury_address: treasury.address,
            rewards_mint_address: rewards.address,
            bump: market.bump,
            treasury_bump: treasury.bump,
            rewards_bump: rewards.bump,
        };
        let copy: Marketplace = record.clone();
        self.add_marketplace(&market.address, record);
        Ok(copy)
    }

    /// Initializes the marketplace called `name`, with its fee rate and its
    /// admin. Its treasury starts with whatever balance its address has, its
    /// rewards mint with a supply of nothing and the marketplace as authority.
    pub fn initialize(&mut self, name: String, fee_bps: u16, admin: Address) -> (r: Result<
        Marketplace,
        MarketError,
    >)
        requires
            old(self).wf(),
        ensures
            final(self).wf(),
            match old(self)@.initialize_step(name, fee_bps, admin) {
                Ok(next) => final(self)@ == next && (r matches Ok(record)
                    && marketplace_addresses(name@, old(self)@.program) matches Some(found)
                    && record == marketplace_record(
                    name,
                    fee_bps,
                    admin,
                    found.0,
                    found.1,
                    found.2,
                )),
                Err(error) => r == Err::<Marketplace, MarketError>(error) && *final(self) == *old(
                    self,
                ),
            },
            final(self)@.native_supply == old(self)@.native_supply,
    {
        let program: Address = self.program();
        let market: Derived = match marketplace_address(name.as_str(), &program) {
            Some(found) => found,
            None => {
                return Err(MarketError::NotFound);
            },
        };
        let treasury: Derived = match treasury_address(&market.address, &program) {
            Some(found) => found,
            None => {
                return Err(MarketError::NotFound);
            },
        };
        let rewards: Derived = match rewards_address(&market.address, &program) {
            Some(found) => found,
            None => {
                return Err(MarketError::NotFound);
            },
        };
        self.register(name, fee_bps, admin, market, treasury, rewards)
    }

    /// Opens a listing at the address `at`: `amount` tokens of `item_mint` and
    /// both deposits leave the seller, and listing and vault come to be.
    pub fn open_listing(
        &mut self,
        seller: &Address,
        marketplace: &Address,
        item_mint: &Address,
        price: u64,
        amount: u64,
        at: Derived,
    ) -> (r: Result<(Address, Listing), MarketError>)
        requires
            old(self).wf(),
            price > 0,
        ensures
            final(self).wf(),
            match old(self)@.open_listing_step(*seller, *marketplace, *item_mint, price, amount, at) {
                Ok(next) => r == Ok::<(Address, Listing), MarketError>(
                    (
                        at.address,
                        old(self)@.escrow_record(
                            *seller,
                            *marketplace,
                            *item_mint,
                            price,
                            amount,
                            at,
                        ).listing,
                    ),
                ) && final(self)@ == next,
                Err(error) => r == Err::<(Address, Listing), MarketError>(error) && *final(self)
                    == *old(self),
            },
            final(self)@.native_supply == old(self)@.native_supply,
    {
        if self.marketplace(marketplace).is_none() {
            return Err(MarketError::NotFound);
        }
        if self.listing(&at.address).is_some() {
            return Err(MarketError::AlreadyExists);
        }
        let coins: u64 = self.balance(seller);
        let listing_deposit: u64 = self.listing_deposit();
        let vault_deposit: u64 = self.vault_deposit();
        if self.token_balance(seller, item_mint) < amount || coins < listing_deposit || coins
            - listing_deposit < vault_deposit {
            return Err(MarketError::InsufficientFunds);
        }
        let listing = Listing {
            seller: *seller,
            marketplace: *marketplace,
            item_mint: *item_mint,
            price,
            bump: at.bump,
            deposit: listing_deposit,
        };
        let vault = EscrowVault {
            authority: at.address,
            mint: *item_mint,
            amount,
            deposit: vault_deposit,
        };
        self.open_escrow(&at.address, Escrow { listing, vault });
        Ok((at.address, listing))
    }

    /// Lists `amount` tokens of `item_mint` for sale at `price` on the
    /// marketplace at `marketplace`. Gives the listing's address and record.
    pub fn list(
        &mut self,
        seller: &Address,
        marketplace: &Address,
        item_mint: &Address,
        price: u64,
        amount: u64,
    ) -> (r: Result<(Address, Listing), MarketError>)
        requires
            old(self).wf(),
            price > 0,
        ensures
            final(self).wf(),
            match old(self)@.list_step(*seller, *marketplace, *item_mint, price, amount) {
                Ok(next) => final(self)@ == next && (r matches Ok(listed)
                    && crate::address::listing_at(*marketplace, *item_mint, old(self)@.program)
                    matches Some(at) && listed == (
                    at.address,
                    old(self)@.escrow_record(
                        *seller,
                        *marketplace,
                        *item_mint,
                        price,
                        amount,
                        at,
                    ).listing,
                )),
                Err(error) => r == Err::<(Address, Listing), MarketError>(error) && *final(self)
                    == *old(self),
            },
            final(self)@.native_supply == old(self)@.native_supply,
    {
        let program: Address = self.program();
        match listing_address(marketplace, item_mint, &program) {
            Some(at) => self.open_listing(seller, marketplace, item_mint, price, amount, at),
            None => Err(MarketError::NotFound),
        }
    }

    /// Takes the listing at `listing` down for `caller`, who must be its
    /// seller: the items and both deposits go back to the seller.
    pub fn delist(&mut self, caller: &Address, listing: &Address) -> (r: Result<(), MarketError>)
        requires
            old(self).wf(),
        ensures
            final(self).wf(),
            match old(self)@.delist_step(*caller, *listing) {
                Ok(next) => r == Ok::<(), MarketError>(()) && final(self)@ == next,
                Err(error) => r == Err::<(), MarketError>(error) && *final(self) == *old(self),
            },
            final(self)@.native_supply == old(self)@.native_supply,
    {
        let record: Listing = match self.listing(listing) {
            Some(record) => record,
            None => {
                return Err(MarketError::NotFound);
            },
        };
        if record.seller != *caller {
            return Err(MarketError::Unauthorized);
        }
        self.close_escrow(listing, caller);
        Ok(())
    }

    /// The accounts of the purchase of the listing at `listing` by `buyer`, as
    /// the records give them.
    pub fn resolve(&self, buyer: &Address, listing: &Address) -> (r: Option<Purchase>)
        requires
            self.wf(),
        ensures
            r == self@.resolved(*buyer, *listing),
    {
        let escrow: Escrow = match self.escrow(listing) {
            Some(escrow) => escrow,
            None => {
                return None;
            },
        };
        match self.marketplace(&escrow.listing.marketplace) {
            Some(market) => Some(
                Purchase {
                    taker: *buyer,
                    maker: escrow.listing.seller,
                    marketplace: escrow.listing.marketplace,
                    maker_mint: escrow.vault.mint,
                    rewards_mint: market.rewards_mint_address,
                    listing: *listing,
                    treasury: market.treasury_address,
                },
            ),
            None => None,
        }
    }

    /// Settles the purchase that `accounts` names, given the address and bump
    /// `expected` that were derived for its listing.
    pub fn settle(&mut self, accounts: &Purchase, expected: Option<Derived>) -> (r: Result<
        ReceiptInfo,
        MarketError,
    >)
        requires
            old(self).wf(),
        ensures
            final(self).wf(),
            match old(self)@.settle_step(*accounts, expected) {
                Ok(next) => r == Ok::<ReceiptInfo, MarketError>(old(self)@.receipt_of(*accounts))
                    && final(self)@ == next,
                Err(error) => r == Err::<ReceiptInfo, MarketError>(error) && *final(self) == *old(
                    self,
                ),
            },
            r matches Ok(receipt) ==> receipt.seller_proceeds + receipt.fee == receipt.price,
            final(self)@.native_supply == old(self)@.native_supply,
    {
        let escrow: Escrow = match self.escrow(&accounts.listing) {
            Some(escrow) => escrow,
            None => {
                return Err(MarketError::NotFound);
            },
        };
        let market: Marketplace = match self.marketplace(&accounts.marketplace) {
            Some(market) => market,
            None => {
                return Err(MarketError::NotFound);
            },
        };
        let policy: RewardPolicy = self.rewards();
        let funds: u64 = self.balance(&accounts.taker);
        let rewards_supply: u64 = match self.mint(&accounts.rewards_mint) {
            Some(record) => record.supply,
            None => 0,
        };
        proof {
            self.lemma_native_bounded(accounts.listing);
        }
        let receipt: ReceiptInfo = match quote_purchase(
            accounts,
            &escrow,
            &market,
            expected,
            funds,
            rewards_supply,
            &policy,
        ) {
            Ok(receipt) => receipt,
            Err(error) => {
                return Err(error);
            },
        };
        proof {
            lemma_portion_bounded(receipt.price, market.fee_bps);
        }
        self.move_native(&accounts.taker, &receipt.seller, receipt.seller_proceeds);
        self.move_native(&accounts.taker, &accounts.treasury, receipt.fee);
        self.close_escrow(&accounts.listing, &accounts.taker);
        self.issue_tokens(&accounts.rewards_mint, &accounts.taker, receipt.reward);
        Ok(receipt)
    }

    /// The purchase that `accounts` names: the buyer pays the price, which is
    /// split between the seller and the marketplace's treasury; the escrowed
    /// item goes to the buyer; the buyer is issued the reward; and listing and
    /// vault are closed, their deposits paid back to the seller.
    pub fn purchase(&mut self, accounts: &Purchase) -> (r: Result<ReceiptInfo, MarketError>)
        requires
            old(self).wf(),
        ensures
            final(self).wf(),
            match old(self)@.purchase_step(*accounts) {
                Ok(next) => r == Ok::<ReceiptInfo, MarketError>(old(self)@.receipt_of(*accounts))
                    && final(self)@ == next,
                Err(error) => r == Err::<ReceiptInfo, MarketError>(error) && *final(self) == *old(
                    self,
                ),
            },
            r matches Ok(receipt) ==> receipt.seller_proceeds + receipt.fee == receipt.price,
            final(self)@.native_supply == old(self)@.native_supply,
    {
        let program: Address = self.program();
        let expected: Option<Derived> = match self.listing(&accounts.listing) {
            Some(record) => listing_address(&accounts.marketplace, &record.item_mint, &program),
            None => None,
        };
        self.settle(accounts, expected)
    }

    /// Pays `amount` out of the treasury of the marketplace at `marketplace`
    /// to `caller`, who must be its admin.
    pub fn withdraw(&mut self, caller: &Address, marketplace: &Address, amount: u64) -> (r: Result<
        (),
        MarketError,
    >)
        requires
            old(self).wf(),
        ensures
            final(self).wf(),
            match old(self)@.withdraw_step(*caller, *marketplace, amount) {
                Ok(next) => r == Ok::<(), MarketError>(()) && final(self)@ == next,
                Err(error) => r == Err::<(), MarketError>(error) && *final(self) == *old(self),
            },
            final(self)@.native_supply == old(self)@.native_supply,
    {
        let market: Marketplace = match self.marketplace(marketplace) {
            Some(market) => market,
            None => {
                return Err(MarketError::NotFound);
            },
        };
        if market.admin != *caller {
            return Err(MarketError::Unauthorized);
        }
        if self.balance(&market.treasury_address) < amount {
            return Err(MarketError::InsufficientFunds);
        }
        self.move_native(&market.treasury_address, caller, amount);
        Ok(())
    }
}

} // verus!
