//! The ledger as mathematics: what it holds, and what each operation makes of it.
//!
//! A `LedgerView` is the state of a ledger as maps. Each operation of the
//! ledger has a step function here that says, for every state and every
//! argument, whether the operation is turned down and with which error, or which
//! state follows. The executable ledger is proved to do exactly that.

use crate::address::{listing_at, marketplace_at, rewards_at, treasury_at, Address, Derived};
use crate::error::MarketError;
use crate::fees::{split_of, RewardPolicy};
use crate::records::{
    Escrow, EscrowVault, Holder, Listing, Marketplace, Mint, Purchase, ReceiptInfo, REWARD_DECIMALS,
};
use vstd::prelude::*;

verus! {

/// The state of a ledger.
pub struct LedgerView {
    /// The program in whose name record addresses are derived.
    pub program: Address,
    /// What a purchase earns the buyer.
    pub rewards: RewardPolicy,
    /// What a seller deposits to keep a listing record.
    pub listing_deposit: u64,
    /// What a seller deposits to keep a vault.
    pub vault_deposit: u64,
    /// All native currency that was ever let into the ledger.
    pub native_supply: nat,
    /// The native balance of every address.
    pub native: Map<Address, nat>,
    /// The token balance of every holder.
    pub tokens: Map<Holder, nat>,
    pub mints: Map<Address, Mint>,
    pub marketplaces: Map<Address, Marketplace>,
    /// The listings that are open, each with its vault.
    pub listings: Map<Address, Escrow>,
}

/// The record of a marketplace that is registered under the given addresses.
pub open spec fn marketplace_record(
    name: String,
    fee_bps: u16,
    admin: Address,
    market: Derived,
    treasury: Derived,
    rewards: Derived,
) -> Marketplace {
    Marketplace {
        name,
        fee_bps,
        admin,
        treasury_address: treasury.address,
        rewards_mint_address: rewards.address,
        bump: market.bump,
        treasury_bump: treasury.bump,
        rewards_bump: rewards.bump,
    }
}

/// The three addresses of the marketplace called `name`: its own, its
/// treasury's and its rewards mint's. Nothing where one of them cannot be
/// derived.
pub open spec fn marketplace_addresses(name: Seq<char>, program: Address) -> Option<
    (Derived, Derived, Derived),
> {
    match marketplace_at(name, program) {
        Some(market) => match (
            treasury_at(market.address, program),
            rewards_at(market.address, program),
        ) {
            (Some(treasury), Some(rewards)) => Some((market, treasury, rewards)),
            _ => None,
        },
        None => None,
    }
}

/// What a purchase pays, moves and earns: the price is split at the
/// marketplace's fee rate, the whole escrowed balance goes to the buyer, the
/// policy gives the reward, and both deposits go back to the seller.
pub open spec fn purchase_receipt(
    accounts: Purchase,
    escrow: Escrow,
    market: Marketplace,
    policy: RewardPolicy,
) -> ReceiptInfo {
    let split = split_of(escrow.listing.price, market.fee_bps);
    ReceiptInfo {
        listing: accounts.listing,
        buyer: accounts.taker,
        seller: escrow.listing.seller,
        item_mint: escrow.vault.mint,
        amount: escrow.vault.amount,
        price: escrow.listing.price,
        fee: split.fee,
        seller_proceeds: split.seller_proceeds,
        reward: policy.spec_reward(escrow.listing.price) as u64,
        refund: (escrow.listing.deposit + escrow.vault.deposit) as u64,
    }
}

/// The first thing that is wrong with a purchase, if any, in the order in
/// which a purchase proceeds. The accounts are held against the records and
/// against `expected`, which is what was derived for the listing from its
/// marketplace and its item's mint: the listing must be at that address and
/// hold that bump. Then the rates must be rates, the buyer must have the price
/// in `funds`, the vault must hold the named mint, and the reward must fit on
/// top of `rewards_supply`, as the deposits must fit together.
pub open spec fn purchase_error(
    accounts: Purchase,
    escrow: Escrow,
    market: Marketplace,
    expected: Option<Derived>,
    funds: nat,
    rewards_supply: nat,
    policy: RewardPolicy,
) -> Option<MarketError> {
    if escrow.listing.marketplace != accounts.marketplace || expected != Some(
        Derived { address: accounts.listing, bump: escrow.listing.bump },
    ) || escrow.listing.seller != accounts.maker || market.treasury_address != accounts.treasury
        || market.rewards_mint_address != accounts.rewards_mint {
        Some(MarketError::AddressMismatch)
    } else if market.fee_bps > 10_000 || !policy.valid() {
        Some(MarketError::InvalidFee)
    } else if funds < escrow.listing.price {
        Some(MarketError::InsufficientFunds)
    } else if escrow.vault.mint != accounts.maker_mint {
        Some(MarketError::MintMismatch)
    } else if rewards_supply + policy.spec_reward(escrow.listing.price) > u64::MAX
        || escrow.listing.deposit + escrow.vault.deposit > u64::MAX {
        Some(MarketError::Overflow)
    } else {
        None
    }
}

impl LedgerView {
    /// What holds of every state that a ledger reaches.
    pub open spec fn sound(self) -> bool {
        &&& self.rewards.valid()
        &&& forall|a: Address| self.native.contains_key(a)
        &&& forall|h: Holder| self.tokens.contains_key(h)
        &&& forall|a: Address| #[trigger]
            self.listings.contains_key(a) ==> {
                let escrow = self.listings[a];
                &&& escrow.listing.price > 0
                &&& escrow.listing.deposit + escrow.vault.deposit <= u64::MAX
                &&& escrow.vault.mint == escrow.listing.item_mint
                &&& escrow.vault.authority == a
                &&& self.marketplaces.contains_key(escrow.listing.marketplace)
            }
        &&& forall|a: Address| #[trigger]
            self.marketplaces.contains_key(a) ==> {
                let market = self.marketplaces[a];
                &&& market.fee_bps <= 10_000
                &&& self.mints.contains_key(market.rewards_mint_address)
            }
    }

    /// How much of `mint` exists; nothing of a mint that was never created.
    pub open spec fn supply(self, mint: Address) -> nat {
        if self.mints.contains_key(mint) {
            self.mints[mint].supply as nat
        } else {
            0
        }
    }

    /// The token balance of `owner` in `mint`.
    pub open spec fn holding(self, owner: Address, mint: Address) -> nat {
        self.tokens[Holder { owner, mint }]
    }

    /// The state after `amount` was added to the native balance at `to`.
    pub open spec fn credit(self, to: Address, amount: nat) -> LedgerView {
        LedgerView { native: self.native.insert(to, self.native[to] + amount), ..self }
    }

    /// The state after `amount` was taken from the native balance at `from`.
    pub open spec fn debit(self, from: Address, amount: nat) -> LedgerView {
        LedgerView {
            native: self.native.insert(from, (self.native[from] - amount) as nat),
            ..self
        }
    }

    /// The state after `amount` moved from `from` to `to`.
    pub open spec fn pay(self, from: Address, to: Address, amount: nat) -> LedgerView {
        self.debit(from, amount).credit(to, amount)
    }

    /// The state after `holder` received `amount` tokens.
    pub open spec fn grant(self, holder: Holder, amount: nat) -> LedgerView {
        LedgerView { tokens: self.tokens.insert(holder, self.tokens[holder] + amount), ..self }
    }

    /// The state after `holder` gave up `amount` tokens.
    pub open spec fn seize(self, holder: Holder, amount: nat) -> LedgerView {
        LedgerView {
            tokens: self.tokens.insert(holder, (self.tokens[holder] - amount) as nat),
            ..self
        }
    }

    /// The state after `amount` new tokens of `mint` were issued to `to`.
    pub open spec fn issue(self, mint: Address, to: Address, amount: nat) -> LedgerView {
        let before = self.mints[mint];
        LedgerView {
            mints: self.mints.insert(
                mint,
                Mint { supply: (before.supply + amount) as u64, ..before },
            ),
            ..self.grant(Holder { owner: to, mint }, amount)
        }
    }

    /// The state after the seller put `escrow` in place at `at`: the items and
    /// both deposits have left the seller.
    pub open spec fn open_escrow(self, at: Address, escrow: Escrow) -> LedgerView {
        let seller = escrow.listing.seller;
        let paid = self.debit(seller, (escrow.listing.deposit + escrow.vault.deposit) as nat).seize(
            Holder { owner: seller, mint: escrow.vault.mint },
            escrow.vault.amount as nat,
        );
        LedgerView { listings: self.listings.insert(at, escrow), ..paid }
    }

    /// The state after the listing at `at` was closed in favour of `to`: the
    /// items are with `to`, both deposits are back with the seller, and neither
    /// listing nor vault is left.
    pub open spec fn close_escrow(self, at: Address, to: Address) -> LedgerView {
        let escrow = self.listings[at];
        let moved = self.grant(
            Holder { owner: to, mint: escrow.vault.mint },
            escrow.vault.amount as nat,
        ).credit(escrow.listing.seller, (escrow.listing.deposit + escrow.vault.deposit) as nat);
        LedgerView { listings: self.listings.remove(at), ..moved }
    }

    /// The state after `amount` of new native currency arrived at `to`.
    pub open spec fn fund(self, to: Address, amount: nat) -> LedgerView {
        LedgerView { native_supply: self.native_supply + amount, ..self.credit(to, amount) }
    }

    /// Letting `amount` of native currency into the ledger, at `to`: refused
    /// where all native currency would no longer fit in 64 bits.
    pub open spec fn fund_step(self, to: Address, amount: u64) -> Result<LedgerView, MarketError> {
        if self.native_supply + amount > u64::MAX {
            Err(MarketError::Overflow)
        } else {
            Ok(self.fund(to, amount as nat))
        }
    }

    /// Creating a mint: refused where one exists at the address.
    pub open spec fn create_mint_step(self, mint: Address, authority: Address, decimals: u8) -> Result<
        LedgerView,
        MarketError,
    > {
        if self.mints.contains_key(mint) {
            Err(MarketError::AlreadyExists)
        } else {
            Ok(
                LedgerView {
                    mints: self.mints.insert(mint, Mint { authority, decimals, supply: 0 }),
                    ..self
                },
            )
        }
    }

    /// Issuing tokens: only the mint's authority may, and only as far as the
    /// supply fits in 64 bits.
    pub open spec fn mint_to_step(
        self,
        mint: Address,
        authority: Address,
        destination: Address,
        amount: u64,
    ) -> Result<LedgerView, MarketError> {
        if !self.mints.contains_key(mint) {
            Err(MarketError::NotFound)
        } else if self.mints[mint].authority != authority {
            Err(MarketError::Unauthorized)
        } else if self.mints[mint].supply + amount > u64::MAX {
            Err(MarketError::Overflow)
        } else {
            Ok(self.issue(mint, destination, amount as nat))
        }
    }

    /// Registering a marketplace under its three derived addresses.
    pub open spec fn register_step(
        self,
        name: String,
        fee_bps: u16,
        admin: Address,
        market: Derived,
        treasury: Derived,
        rewards: Derived,
    ) -> Result<LedgerView, MarketError> {
        if self.marketplaces.contains_key(market.address) || self.mints.contains_key(
            rewards.address,
        ) {
            Err(MarketError::AlreadyExists)
        } else if fee_bps > 10_000 {
            Err(MarketError::InvalidFee)
        } else {
            Ok(
                LedgerView {
                    marketplaces: self.marketplaces.insert(
                        market.address,
                        marketplace_record(name, fee_bps, admin, market, treasury, rewards),
                    ),
                    mints: self.mints.insert(
                        rewards.address,
                        Mint { authority: market.address, decimals: REWARD_DECIMALS, supply: 0 },
                    ),
                    ..self
                },
            )
        }
    }

    /// Initializing the marketplace called `name`: its addresses are derived,
    /// then it is registered under them.
    pub open spec fn initialize_step(self, name: String, fee_bps: u16, admin: Address) -> Result<
        LedgerView,
        MarketError,
    > {
        match marketplace_addresses(name@, self.program) {
            Some((market, treasury, rewards)) => self.register_step(
                name,
                fee_bps,
                admin,
                market,
                treasury,
                rewards,
            ),
            None => Err(MarketError::NotFound),
        }
    }

    /// The listing and vault that `seller` opens at `at`.
    pub open spec fn escrow_record(
        self,
        seller: Address,
        marketplace: Address,
        item_mint: Address,
        price: u64,
        amount: u64,
        at: Derived,
    ) -> Escrow {
        Escrow {
            listing: Listing {
                seller,
                marketplace,
                item_mint,
                price,
                bump: at.bump,
                deposit: self.listing_deposit,
            },
            vault: EscrowVault {
                authority: at.address,
                mint: item_mint,
                amount,
                deposit: self.vault_deposit,
            },
        }
    }

    /// Opening a listing at the address `at`.
    pub open spec fn open_listing_step(
        self,
        seller: Address,
        marketplace: Address,
        item_mint: Address,
        price: u64,
        amount: u64,
        at: Derived,
    ) -> Result<LedgerView, MarketError> {
        if !self.marketplaces.contains_key(marketplace) {
            Err(MarketError::NotFound)
        } else if self.listings.contains_key(at.address) {
            Err(MarketError::AlreadyExists)
        } else if self.holding(seller, item_mint) < amount || self.native[seller]
            < self.listing_deposit + self.vault_deposit {
            Err(MarketError::InsufficientFunds)
        } else {
            Ok(
                self.open_escrow(
                    at.address,
                    self.escrow_record(seller, marketplace, item_mint, price, amount, at),
                ),
            )
        }
    }

    /// Listing an item: the listing's address is derived from the marketplace
    /// and the item's mint, then the listing is opened there.
    pub open spec fn list_step(
        self,
        seller: Address,
        marketplace: Address,
        item_mint: Address,
        price: u64,
        amount: u64,
    ) -> Result<LedgerView, MarketError> {
        match listing_at(marketplace, item_mint, self.program) {
            Some(at) => self.open_listing_step(seller, marketplace, item_mint, price, amount, at),
            None => Err(MarketError::NotFound),
        }
    }

    /// Taking a listing down: only its seller may.
    pub open spec fn delist_step(self, caller: Address, listing: Address) -> Result<
        LedgerView,
        MarketError,
    > {
        if !self.listings.contains_key(listing) {
            Err(MarketError::NotFound)
        } else if self.listings[listing].listing.seller != caller {
            Err(MarketError::Unauthorized)
        } else {
            Ok(self.close_escrow(listing, caller))
        }
    }

    /// The accounts of the purchase of the listing at `listing` by `buyer`, as
    /// the records give them. Nothing where no such listing is open.
    pub open spec fn resolved(self, buyer: Address, listing: Address) -> Option<Purchase> {
        if self.listings.contains_key(listing) {
            let escrow = self.listings[listing];
            let market = self.marketplaces[escrow.listing.marketplace];
            Some(
                Purchase {
                    taker: buyer,
                    maker: escrow.listing.seller,
                    marketplace: escrow.listing.marketplace,
                    maker_mint: escrow.vault.mint,
                    rewards_mint: market.rewards_mint_address,
                    listing,
                    treasury: market.treasury_address,
                },
            )
        } else {
            None
        }
    }

    /// What the purchase that `accounts` names pays, moves and earns.
    pub open spec fn receipt_of(self, accounts: Purchase) -> ReceiptInfo {
        purchase_receipt(
            accounts,
            self.listings[accounts.listing],
            self.marketplaces[accounts.marketplace],
            self.rewards,
        )
    }

    /// The first thing that is wrong with a purchase, if any: no listing or no
    /// marketplace at the named address, or what is wrong with the accounts,
    /// the buyer's funds or the reward. `expected` is what was derived for the
    /// listing from its marketplace and its item's mint.
    pub open spec fn settle_error(self, accounts: Purchase, expected: Option<Derived>) -> Option<
        MarketError,
    > {
        if !self.listings.contains_key(accounts.listing) || !self.marketplaces.contains_key(
            accounts.marketplace,
        ) {
            Some(MarketError::NotFound)
        } else {
            purchase_error(
                accounts,
                self.listings[accounts.listing],
                self.marketplaces[accounts.marketplace],
                expected,
                self.native[accounts.taker],
                self.supply(accounts.rewards_mint),
                self.rewards,
            )
        }
    }

    /// The state after the purchase that `accounts` names went through: the
    /// buyer paid the price, of which the seller has the proceeds and the
    /// treasury the fee; the listing is closed in the buyer's favour; and the
    /// buyer has the reward.
    pub open spec fn settled(self, accounts: Purchase) -> LedgerView {
        let receipt = self.receipt_of(accounts);
        self.pay(accounts.taker, receipt.seller, receipt.seller_proceeds as nat).pay(
            accounts.taker,
            accounts.treasury,
            receipt.fee as nat,
        ).close_escrow(accounts.listing, accounts.taker).issue(
            accounts.rewards_mint,
            accounts.taker,
            receipt.reward as nat,
        )
    }

    /// Settling a purchase, given the address `expected` for its listing.
    pub open spec fn settle_step(self, accounts: Purchase, expected: Option<Derived>) -> Result<
        LedgerView,
        MarketError,
    > {
        match self.settle_error(accounts, expected) {
            Some(error) => Err(error),
            None => Ok(self.settled(accounts)),
        }
    }

    /// The address that the listing named by `accounts` should have: the one
    /// derived from the marketplace and from the mint of the listed item.
    pub open spec fn expected_listing(self, accounts: Purchase) -> Option<Derived> {
        if self.listings.contains_key(accounts.listing) {
            listing_at(
                accounts.marketplace,
                self.listings[accounts.listing].listing.item_mint,
                self.program,
            )
        } else {
            None
        }
    }

    /// A purchase: the listing's address is derived anew and held against the
    /// one that the accounts name, then the purchase is settled.
    pub open spec fn purchase_step(self, accounts: Purchase) -> Result<LedgerView, MarketError> {
        self.settle_step(accounts, self.expected_listing(accounts))
    }

    /// Withdrawing from a marketplace's treasury: only its admin may, and no
    /// more than the treasury holds.
    pub open spec fn withdraw_step(self, caller: Address, marketplace: Address, amount: u64) -> Result<
        LedgerView,
        MarketError,
    > {
        if !self.marketplaces.contains_key(marketplace) {
            Err(MarketError::NotFound)
        } else if self.marketplaces[marketplace].admin != caller {
            Err(MarketError::Unauthorized)
        } else if self.native[self.marketplaces[marketplace].treasury_address] < amount {
            Err(MarketError::InsufficientFunds)
        } else {
            Ok(
                self.pay(
                    self.marketplaces[marketplace].treasury_address,
                    caller,
                    amount as nat,
                ),
            )
        }
    }
}

} // verus!
