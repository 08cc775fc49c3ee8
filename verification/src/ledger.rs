//! The ledger: balances, mints, marketplaces and open listings, and the
//! bookkeeping that every operation on them is made of.

use crate::address::Address;
use crate::error::MarketError;
use crate::fees::RewardPolicy;
use crate::model::LedgerView;
use crate::records::{Escrow, EscrowVault, Holder, Listing, Marketplace, Mint, REWARD_DECIMALS};
use crate::store::Store;
use vstd::prelude::*;

verus! {

/// The weight of a native balance: the balance.
spec fn coin_weight() -> spec_fn(Address, u64) -> nat {
    |at: Address, amount: u64| amount as nat
}

/// The weight of an open listing in native currency: its two deposits.
spec fn deposit_weight() -> spec_fn(Address, Escrow) -> nat {
    |at: Address, escrow: Escrow| (escrow.listing.deposit + escrow.vault.deposit) as nat
}

/// The weight of a token balance in `mint`: the balance, where it is of that
/// mint.
spec fn token_weight(mint: Address) -> spec_fn(Holder, u64) -> nat {
    |holder: Holder, amount: u64|
        if holder.mint == mint {
            amount as nat
        } else {
            0
        }
}

/// The weight of an open listing in `mint`: what its vault holds, where that
/// is of that mint.
spec fn vault_weight(mint: Address) -> spec_fn(Address, Escrow) -> nat {
    |at: Address, escrow: Escrow|
        if escrow.vault.mint == mint {
            escrow.vault.amount as nat
        } else {
            0
        }
}

/// The balance under every key: what the map holds, and nothing under a key
/// that it lacks.
spec fn balances<K>(held: Map<K, u64>) -> Map<K, nat> {
    Map::total(
        |key: K|
            if held.contains_key(key) {
                held[key] as nat
            } else {
                0
            },
    )
}

/// The ledger.
#[derive(Clone, Debug, PartialEq, Eq)]
pub struct Ledger {
    program: Address,
    rewards: RewardPolicy,
    listing_deposit: u64,
    vault_deposit: u64,
    native_supply: u64,
    wallets: Store<Address, u64>,
    tokens: Store<Holder, u64>,
    mints: Store<Address, Mint>,
    marketplaces: Store<Address, Marketplace>,
    listings: Store<Address, Escrow>,
}

impl View for Ledger {
    type V = LedgerView;

    closed spec fn view(&self) -> LedgerView {
        LedgerView {
            program: self.program,
            rewards: self.rewards,
            listing_deposit: self.listing_deposit,
            vault_deposit: self.vault_deposit,
            native_supply: self.native_supply as nat,
            native: balances(self.wallets@),
            tokens: balances(self.tokens@),
            mints: self.mints@,
            marketplaces: self.marketplaces@,
            listings: self.listings@,
        }
    }
}

impl Ledger {
    /// All native currency in the ledger: every balance and every deposit.
    pub closed spec fn native_held(&self) -> nat {
        self.wallets.total(coin_weight()) + self.listings.total(deposit_weight())
    }

    /// All tokens of `mint` in the ledger: every balance and every vault.
    pub closed spec fn circulating(&self, mint: Address) -> nat {
        self.tokens.total(token_weight(mint)) + self.listings.total(vault_weight(mint))
    }

    /// The books balance: no record is kept twice, the native supply is what
    /// all balances and deposits add up to, and of every mint exactly its supply
    /// is in balances and vaults.
    pub closed spec fn balanced(&self) -> bool {
        &&& self.wallets.wf()
        &&& self.tokens.wf()
        &&& self.mints.wf()
        &&& self.marketplaces.wf()
        &&& self.listings.wf()
        &&& self.native_held() == self.native_supply
        &&& forall|mint: Address| #[trigger] self.circulating(mint) == self@.supply(mint)
    }

    /// The ledger is in a state that its operations keep.
    pub open spec fn wf(&self) -> bool {
        self.balanced() && self@.sound()
    }

    /// The native supply is what all balances and deposits add up to, so no
    /// balance and no pair of deposits exceeds it, and it fits in 64 bits.
    pub proof fn lemma_native_bounded(&self, at: Address)
        requires
            self.wf(),
        ensures
            self.native_held() == self@.native_supply,
            self@.native[at] <= self@.native_supply <= u64::MAX,
            self@.listings.contains_key(at) ==> self@.listings[at].listing.deposit
                + self@.listings[at].vault.deposit <= self@.native_supply,
    {
        self.wallets.lemma_share_bounded(coin_weight(), at);
        self.listings.lemma_share_bounded(deposit_weight(), at);
    }

    /// No balance and no vault holds more of a mint than its supply.
    pub proof fn lemma_tokens_bounded(&self, holder: Holder, listing: Address)
        requires
            self.wf(),
        ensures
            self@.tokens[holder] <= self@.supply(holder.mint) <= u64::MAX,
            self@.listings.contains_key(listing) ==> self@.listings[listing].vault.amount
                <= self@.supply(self@.listings[listing].vault.mint),
    {
        self.tokens.lemma_share_bounded(token_weight(holder.mint), holder);
        assert(self.circulating(holder.mint) == self@.supply(holder.mint));
        if self@.listings.contains_key(listing) {
            let mint = self@.listings[listing].vault.mint;
            self.listings.lemma_share_bounded(vault_weight(mint), listing);
            assert(self.circulating(mint) == self@.supply(mint));
        }
    }

    /// An empty ledger for the records of `program`. A reward policy that would
    /// pay more than the whole price is refused.
    pub fn new(program: Address, rewards: RewardPolicy, listing_deposit: u64, vault_deposit: u64) -> (r:
        Result<Ledger, MarketError>)
        ensures
            match r {
                Ok(ledger) => {
                    &&& rewards.valid()
                    &&& ledger.wf()
                    &&& ledger@.native_supply == 0
                    &&& ledger@.program == program
                    &&& ledger@.rewards == rewards
                    &&& ledger@.listing_deposit == listing_deposit
                    &&& ledger@.vault_deposit == vault_deposit
                    &&& forall|a: Address| ledger@.native[a] == 0
                    &&& forall|h: Holder| ledger@.tokens[h] == 0
                    &&& ledger@.mints == Map::<Address, Mint>::empty()
                    &&& ledger@.marketplaces == Map::<Address, Marketplace>::empty()
                    &&& ledger@.listings == Map::<Address, Escrow>::empty()
                },
                Err(error) => error == MarketError::InvalidFee && !rewards.valid(),
            },
    {
        if !rewards.is_valid() {
            return Err(MarketError::InvalidFee);
        }
        let ledger = Ledger {
            program,
            rewards,
            listing_deposit,
            vault_deposit,
            native_supply: 0,
            wallets: Store::new(),
            tokens: Store::new(),
            mints: Store::new(),
            marketplaces: Store::new(),
            listings: Store::new(),
        };
        proof {
            assert forall|mint: Address| #[trigger]
                ledger.circulating(mint) == ledger@.supply(mint) by {
                assert(ledger.tokens.total(token_weight(mint)) == 0);
                assert(ledger.listings.total(vault_weight(mint)) == 0);
            }
            assert(ledger.wallets.total(coin_weight()) == 0);
            assert(ledger.listings.total(deposit_weight()) == 0);
        }
        Ok(ledger)
    }

    /// Moves `amount` of native currency from `from` to `to`.
    pub(crate) fn move_native(&mut self, from: &Address, to: &Address, amount: u64)
        requires
            old(self).wf(),
            old(self)@.native[*from] >= amount,
        ensures
            final(self).wf(),
            final(self)@ == old(self)@.pay(*from, *to, amount as nat),
    {
        let have: u64 = self.balance(from);
        self.wallets.put(*from, have - amount);
        let there: u64 = match self.wallets.get(to) {
            Some(held) => *held,
            None => 0,
        };
        proof {
            self.wallets.lemma_share_bounded(coin_weight(), *to);
        }
        self.wallets.put(*to, there + amount);
        proof {
            assert(self@.native =~= old(self)@.pay(*from, *to, amount as nat).native);
            assert forall|mint: Address| #[trigger]
                self.circulating(mint) == self@.supply(mint) by {
                assert(old(self).circulating(mint) == old(self)@.supply(mint));
            }
        }
    }

    /// Adds `amount` of native currency at `to`, from outside the ledger.
    pub(crate) fn add_native(&mut self, to: &Address, amount: u64)
        requires
            old(self).wf(),
            old(self)@.native_supply + amount <= u64::MAX,
        ensures
            final(self).wf(),
            final(self)@ == old(self)@.fund(*to, amount as nat),
    {
        let there: u64 = self.balance(to);
        proof {
            self.wallets.lemma_share_bounded(coin_weight(), *to);
        }
        self.wallets.put(*to, there + amount);
        self.native_supply = self.native_supply + amount;
        proof {
            assert(self@.native =~= old(self)@.fund(*to, amount as nat).native);
            assert forall|mint: Address| #[trigger]
                self.circulating(mint) == self@.supply(mint) by {
                assert(old(self).circulating(mint) == old(self)@.supply(mint));
            }
        }
    }

    /// Keeps a new mint, of which nothing exists yet, at `at`.
    pub(crate) fn add_mint(&mut self, at: &Address, authority: Address, decimals: u8)
        requires
            old(self).wf(),
            !old(self)@.mints.contains_key(*at),
        ensures
            final(self).wf(),
            final(self)@ == (LedgerView {
                mints: old(self)@.mints.insert(*at, Mint { authority, decimals, supply: 0 }),
                ..old(self)@
            }),
    {
        self.mints.put(*at, Mint { authority, decimals, supply: 0 });
        proof {
            assert forall|mint: Address| #[trigger]
                self.circulating(mint) == self@.supply(mint) by {
                assert(old(self).circulating(mint) == old(self)@.supply(mint));
            }
        }
    }

    /// Issues `amount` new tokens of `mint` to `to`.
    pub(crate) fn issue_tokens(&mut self, mint: &Address, to: &Address, amount: u64)
        requires
            old(self).wf(),
            old(self)@.mints.contains_key(*mint),
            old(self)@.mints[*mint].supply + amount <= u64::MAX,
        ensures
            final(self).wf(),
            final(self)@ == old(self)@.issue(*mint, *to, amount as nat),
    {
        let holder = Holder { owner: *to, mint: *mint };
        let have: u64 = self.token_balance(to, mint);
        let before: Mint = match self.mints.get(mint) {
            Some(record) => *record,
            None => Mint { authority: *mint, decimals: 0, supply: 0 },
        };
        proof {
            self.tokens.lemma_share_bounded(token_weight(*mint), holder);
            assert(self.circulating(*mint) == self@.supply(*mint));
        }
        self.tokens.put(holder, have + amount);
        self.mints.put(
            *mint,
            Mint { authority: before.authority, decimals: before.decimals, supply: before.supply + amount },
        );
        proof {
            assert(self@.tokens =~= old(self)@.issue(*mint, *to, amount as nat).tokens);
            assert forall|other: Address| #[trigger]
                self.circulating(other) == self@.supply(other) by {
                assert(old(self).circulating(other) == old(self)@.supply(other));
                assert(self.tokens.total(token_weight(other)) + old(self).tokens.share(
                    token_weight(other),
                    holder,
                ) == old(self).tokens.total(token_weight(other)) + token_weight(other)(
                    holder,
                    (have + amount) as u64,
                ));
            }
        }
    }

    /// Keeps a new marketplace at `at`, and its rewards mint, of which nothing
    /// exists yet, at the address that the record names.
    pub(crate) fn add_marketplace(&mut self, at: &Address, record: Marketplace)
        requires
            old(self).wf(),
            !old(self)@.marketplaces.contains_key(*at),
            !old(self)@.mints.contains_key(record.rewards_mint_address),
            record.fee_bps <= 10_000,
        ensures
            final(self).wf(),
            final(self)@ == (LedgerView {
                marketplaces: old(self)@.marketplaces.insert(*at, record),
                mints: old(self)@.mints.insert(
                    record.rewards_mint_address,
                    Mint { authority: *at, decimals: REWARD_DECIMALS, supply: 0 },
                ),
                ..old(self)@
            }),
    {
        let rewards_mint: Address = record.rewards_mint_address;
        self.mints.put(rewards_mint, Mint { authority: *at, decimals: REWARD_DECIMALS, supply: 0 });
        self.marketplaces.put(*at, record);
        proof {
            assert forall|mint: Address| #[trigger]
                self.circulating(mint) == self@.supply(mint) by {
                assert(old(self).circulating(mint) == old(self)@.supply(mint));
            }
        }
    }

    /// Puts `escrow` in place at `at`: the items and both deposits leave the
    /// seller.
    pub(crate) fn open_escrow(&mut self, at: &Address, escrow: Escrow)
        requires
            old(self).wf(),
            !old(self)@.listings.contains_key(*at),
            escrow.listing.price > 0,
            escrow.vault.mint == escrow.listing.item_mint,
            escrow.vault.authority == *at,
            old(self)@.marketplaces.contains_key(escrow.listing.marketplace),
            old(self)@.native[escrow.listing.seller] >= escrow.listing.deposit
                + escrow.vault.deposit,
            old(self)@.holding(escrow.listing.seller, escrow.vault.mint) >= escrow.vault.amount,
        ensures
            final(self).wf(),
            final(self)@ == old(self)@.open_escrow(*at, escrow),
    {
        let seller: Address = escrow.listing.seller;
        let holder = Holder { owner: seller, mint: escrow.vault.mint };
        let coins: u64 = self.balance(&seller);
        let items: u64 = self.token_balance(&seller, &escrow.vault.mint);
        let deposits: u64 = escrow.listing.deposit + escrow.vault.deposit;
        self.wallets.put(seller, coins - deposits);
        self.tokens.put(holder, items - escrow.vault.amount);
        self.listings.put(*at, escrow);
        proof {
            let next = old(self)@.open_escrow(*at, escrow);
            assert(self@.native =~= next.native);
            assert(self@.tokens =~= next.tokens);
            assert(self.listings.total(deposit_weight()) + old(self).listings.share(
                deposit_weight(),
                *at,
            ) == old(self).listings.total(deposit_weight()) + deposit_weight()(*at, escrow));
            assert forall|mint: Address| #[trigger]
                self.circulating(mint) == self@.supply(mint) by {
                assert(old(self).circulating(mint) == old(self)@.supply(mint));
                assert(self.tokens.total(token_weight(mint)) + old(self).tokens.share(
                    token_weight(mint),
                    holder,
                ) == old(self).tokens.total(token_weight(mint)) + token_weight(mint)(
                    holder,
                    (items - escrow.vault.amount) as u64,
                ));
                assert(self.listings.total(vault_weight(mint)) + old(self).listings.share(
                    vault_weight(mint),
                    *at,
                ) == old(self).listings.total(vault_weight(mint)) + vault_weight(mint)(
                    *at,
                    escrow,
                ));
            }
        }
    }

    /// Closes the listing at `at` in favour of `to`: the items go to `to`, both
    /// deposits go back to the seller, and listing and vault are gone.
    pub(crate) fn close_escrow(&mut self, at: &Address, to: &Address)
        requires
            old(self).wf(),
            old(self)@.listings.contains_key(*at),
        ensures
            final(self).wf(),
            final(self)@ == old(self)@.close_escrow(*at, *to),
    {
        let escrow: Escrow = match self.listings.take(at) {
            Some(escrow) => escrow,
            None => {
                return ;
            },
        };
        let seller: Address = escrow.listing.seller;
        let mint: Address = escrow.vault.mint;
        let holder = Holder { owner: *to, mint };
        proof {
            assert(self.listings.total(deposit_weight()) + old(self).listings.share(
                deposit_weight(),
                *at,
            ) == old(self).listings.total(deposit_weight()));
            assert(self.listings.total(vault_weight(mint)) + old(self).listings.share(
                vault_weight(mint),
                *at,
            ) == old(self).listings.total(vault_weight(mint)));
            assert(old(self).circulating(mint) == old(self)@.supply(mint));
            self.tokens.lemma_share_bounded(token_weight(mint), holder);
            self.wallets.lemma_share_bounded(coin_weight(), seller);
        }
        let items: u64 = match self.tokens.get(&holder) {
            Some(held) => *held,
            None => 0,
        };
        self.tokens.put(holder, items + escrow.vault.amount);
        let coins: u64 = match self.wallets.get(&seller) {
            Some(held) => *held,
            None => 0,
        };
        let deposits: u64 = escrow.listing.deposit + escrow.vault.deposit;
        self.wallets.put(seller, coins + deposits);
        proof {
            let next = old(self)@.close_escrow(*at, *to);
            assert(self@.native =~= next.native);
            assert(self@.tokens =~= next.tokens);
            assert forall|other: Address| #[trigger]
                self.circulating(other) == self@.supply(other) by {
                assert(old(self).circulating(other) == old(self)@.supply(other));
                assert(self.tokens.total(token_weight(other)) + old(self).tokens.share(
                    token_weight(other),
                    holder,
                ) == old(self).tokens.total(token_weight(other)) + token_weight(other)(
                    holder,
                    (items + escrow.vault.amount) as u64,
                ));
                assert(self.listings.total(vault_weight(other)) + old(self).listings.share(
                    vault_weight(other),
                    *at,
                ) == old(self).listings.total(vault_weight(other)));
            }
        }
    }

    /// The program in whose name record addresses are derived.
    pub fn program(&self) -> (r: Address)
        ensures
            r == self@.program,
    {
        self.program
    }

    /// What a purchase earns the buyer.
    pub fn rewards(&self) -> (r: RewardPolicy)
        requires
            self.wf(),
        ensures
            r == self@.rewards,
            r.valid(),
    {
        self.rewards
    }

    /// What a seller deposits to keep a listing record.
    pub fn listing_deposit(&self) -> (r: u64)
        ensures
            r == self@.listing_deposit,
    {
        self.listing_deposit
    }

    /// What a seller deposits to keep a vault.
    pub fn vault_deposit(&self) -> (r: u64)
        ensures
            r == self@.vault_deposit,
    {
        self.vault_deposit
    }

    /// All native currency that was ever let into the ledger.
    pub fn native_supply(&self) -> (r: u64)
        ensures
            r == self@.native_supply,
    {
        self.native_supply
    }

    /// The listing at `at` with its vault, while the listing is open.
    pub fn escrow(&self, at: &Address) -> (r: Option<Escrow>)
        requires
            self.wf(),
        ensures
            r == if self@.listings.contains_key(*at) {
                Some(self@.listings[*at])
            } else {
                None
            },
    {
        match self.listings.get(at) {
            Some(escrow) => Some(*escrow),
            None => None,
        }
    }

    /// The native balance at `at`.
    pub fn balance(&self, at: &Address) -> (r: u64)
        requires
            self.wf(),
        ensures
            r == self@.native[*at],
    {
        match self.wallets.get(at) {
            Some(amount) => *amount,
            None => 0,
        }
    }

    /// The token balance of `owner` in `mint`.
    pub fn token_balance(&self, owner: &Address, mint: &Address) -> (r: u64)
        requires
            self.wf(),
        ensures
            r == self@.holding(*owner, *mint),
    {
        let holder = Holder { owner: *owner, mint: *mint };
        match self.tokens.get(&holder) {
            Some(amount) => *amount,
            None => 0,
        }
    }

    /// The mint at `at`.
    pub fn mint(&self, at: &Address) -> (r: Option<Mint>)
        requires
            self.wf(),
        ensures
            r == if self@.mints.contains_key(*at) {
                Some(self@.mints[*at])
            } else {
                None
            },
    {
        match self.mints.get(at) {
            Some(mint) => Some(*mint),
            None => None,
        }
    }

    /// The marketplace at `at`.
    pub fn marketplace(&self, at: &Address) -> (r: Option<Marketplace>)
        requires
            self.wf(),
        ensures
            r == if self@.marketplaces.contains_key(*at) {
                Some(self@.marketplaces[*at])
            } else {
                None
            },
    {
        match self.marketplaces.get(at) {
            Some(market) => Some(market.clone()),
            None => None,
        }
    }

    /// The listing at `at`, while it is open.
    pub fn listing(&self, at: &Address) -> (r: Option<Listing>)
        requires
            self.wf(),
        ensures
            r == if self@.listings.contains_key(*at) {
                Some(self@.listings[*at].listing)
            } else {
                None
            },
    {
        match self.listings.get(at) {
            Some(escrow) => Some(escrow.listing),
            None => None,
        }
    }

    /// The vault of the listing at `at`, while the listing is open.
    pub fn vault(&self, at: &Address) -> (r: Option<EscrowVault>)
        requires
            self.wf(),
        ensures
            r == if self@.listings.contains_key(*at) {
                Some(self@.listings[*at].vault)
            } else {
                None
            },
    {
        match self.listings.get(at) {
            Some(escrow) => Some(escrow.vault),
            None => None,
        }
    }
}

} // verus!
