//! What holds of the marketplace whatever its state: laws that relate the
//! operations to each other, proved of the step functions that the ledger
//! carries out.

use crate::address::{joined, listing_at, Address, Derived, RecordKey};
use crate::error::MarketError;
use crate::fees::{lemma_portion_bounded, lemma_reward_bounded, portion};
use crate::model::LedgerView;
use crate::records::{Holder, Purchase};
use vstd::prelude::*;
use vstd::utf8::{encode_utf8, encode_utf8_decode_utf8, is_ascii_chars, is_ascii_chars_encode_utf8};

verus! {

/// The first byte of each namespace tag, as it is written in the seeds.
proof fn lemma_tag_initials()
    ensures
        encode_utf8("marketplace"@).len() == 11,
        encode_utf8("marketplace"@)[0] == 109,
        encode_utf8("treasury"@).len() == 8,
        encode_utf8("treasury"@)[0] == 116,
        encode_utf8("rewards"@).len() == 7,
        encode_utf8("rewards"@)[0] == 114,
        encode_utf8("listing"@).len() == 7,
        encode_utf8("listing"@)[0] == 108,
{
    reveal_strlit("marketplace");
    reveal_strlit("treasury");
    reveal_strlit("rewards");
    reveal_strlit("listing");
    assert(is_ascii_chars("marketplace"@));
    assert(is_ascii_chars("treasury"@));
    assert(is_ascii_chars("rewards"@));
    assert(is_ascii_chars("listing"@));
    is_ascii_chars_encode_utf8("marketplace"@);
    is_ascii_chars_encode_utf8("treasury"@);
    is_ascii_chars_encode_utf8("rewards"@);
    is_ascii_chars_encode_utf8("listing"@);
    assert("marketplace"@[0] == 'm');
    assert("treasury"@[0] == 't');
    assert("rewards"@[0] == 'r');
    assert("listing"@[0] == 'l');
}

/// The seeds of a record, written one after the other: the tag, then the keys.
proof fn lemma_joined_seeds(key: RecordKey)
    ensures
        joined(key.seeds()) == match key {
            RecordKey::Marketplace { name } => encode_utf8("marketplace"@) + encode_utf8(name),
            RecordKey::Treasury { market } => encode_utf8("treasury"@) + market@,
            RecordKey::Rewards { market } => encode_utf8("rewards"@) + market@,
            RecordKey::Listing { market, item_mint } => encode_utf8("listing"@) + market@
                + item_mint@,
        },
{
    let seeds = key.seeds();
    let tag = encode_utf8(key.namespace());
    assert(seeds[0] == tag);
    let one = seeds.take(1);
    assert(one.drop_last() =~= Seq::<Seq<u8>>::empty());
    assert(joined(one.drop_last()) =~= Seq::<u8>::empty());
    assert(joined(one) =~= tag);
    let two = seeds.take(2);
    assert(two.drop_last() =~= one);
    assert(joined(two) =~= tag + seeds[1]);
    match key {
        RecordKey::Listing { market, item_mint } => {
            assert(seeds.len() == 3);
            assert(seeds.drop_last() =~= two);
            assert(joined(seeds) =~= tag + market@ + item_mint@);
        },
        _ => {
            assert(seeds.len() == 2);
            assert(seeds =~= two);
        },
    }
}

/// No two records are derived from the same bytes: whatever the bumps, the
/// seeds of two different records, written out and followed by the bump, differ.
/// Each kind of record has a tag of its own, and within a kind the keys tell
/// the records apart.
pub proof fn lemma_record_seeds_separate(
    first: RecordKey,
    first_bump: u8,
    second: RecordKey,
    second_bump: u8,
)
    requires
        first != second,
    ensures
        joined(first.seeds()).push(first_bump) != joined(second.seeds()).push(second_bump),
{
    lemma_tag_initials();
    lemma_joined_seeds(first);
    lemma_joined_seeds(second);
    let a = joined(first.seeds()).push(first_bump);
    let b = joined(second.seeds()).push(second_bump);
    if a == b {
        assert(a[0] == b[0]);
        assert(a.len() == b.len());
        match (first, second) {
            (RecordKey::Marketplace { name: n1 }, RecordKey::Marketplace { name: n2 }) => {
                let e1 = encode_utf8(n1);
                let e2 = encode_utf8(n2);
                assert(e1.len() == e2.len());
                assert forall|i: int| 0 <= i < e1.len() implies e1[i] == e2[i] by {
                    assert(a[11 + i] == e1[i]);
                    assert(b[11 + i] == e2[i]);
                }
                assert(e1 =~= e2);
                encode_utf8_decode_utf8(n1);
                encode_utf8_decode_utf8(n2);
                assert(n1 == n2);
            },
            (RecordKey::Treasury { market: m1 }, RecordKey::Treasury { market: m2 }) => {
                assert forall|i: int| 0 <= i < 32 implies m1@[i] == m2@[i] by {
                    assert(a[8 + i] == m1@[i]);
                    assert(b[8 + i] == m2@[i]);
                }
                assert(m1@ =~= m2@);
                Address::lemma_view_injective(m1, m2);
            },
            (RecordKey::Rewards { market: m1 }, RecordKey::Rewards { market: m2 }) => {
                assert forall|i: int| 0 <= i < 32 implies m1@[i] == m2@[i] by {
                    assert(a[7 + i] == m1@[i]);
                    assert(b[7 + i] == m2@[i]);
                }
                assert(m1@ =~= m2@);
                Address::lemma_view_injective(m1, m2);
            },
            (
                RecordKey::Listing { market: m1, item_mint: t1 },
                RecordKey::Listing { market: m2, item_mint: t2 },
            ) => {
                assert forall|i: int| 0 <= i < 32 implies m1@[i] == m2@[i] by {
                    assert(a[7 + i] == m1@[i]);
                    assert(b[7 + i] == m2@[i]);
                }
                assert forall|i: int| 0 <= i < 32 implies t1@[i] == t2@[i] by {
                    assert(a[39 + i] == t1@[i]);
                    assert(b[39 + i] == t2@[i]);
                }
                assert(m1@ =~= m2@);
                assert(t1@ =~= t2@);
                Address::lemma_view_injective(m1, m2);
                Address::lemma_view_injective(t1, t2);
            },
            _ => {},
        }
        assert(false);
    }
}

/// A purchase splits the price exactly: what the seller gets and what the
/// treasury gets add up to the price, the fee being the marketplace's rate of
/// the price, rounded down. No native currency comes to be or is lost.
pub proof fn lemma_purchase_conserves(
    before: LedgerView,
    accounts: Purchase,
    expected: Option<Derived>,
)
    requires
        before.sound(),
        before.settle_step(accounts, expected) is Ok,
    ensures
        ({
            let receipt = before.receipt_of(accounts);
            let market = before.marketplaces[accounts.marketplace];
            &&& receipt.price == before.listings[accounts.listing].listing.price
            &&& receipt.fee == portion(receipt.price, market.fee_bps)
            &&& receipt.price == receipt.seller_proceeds + receipt.fee
            &&& before.settle_step(accounts, expected)->Ok_0.native_supply == before.native_supply
        }),
{
    let market = before.marketplaces[accounts.marketplace];
    let price = before.listings[accounts.listing].listing.price;
    lemma_portion_bounded(price, market.fee_bps);
}

/// What a purchase leaves behind, where buyer, seller and treasury are three
/// different addresses: the buyer has paid the price and holds the item and
/// the reward; the seller has the proceeds and both deposits; the treasury has
/// the fee; listing and vault are gone; and nothing else has changed hands.
pub proof fn lemma_purchase_effects(
    before: LedgerView,
    accounts: Purchase,
    expected: Option<Derived>,
)
    requires
        before.sound(),
        before.settle_step(accounts, expected) is Ok,
        accounts.taker != accounts.maker,
        accounts.taker != accounts.treasury,
        accounts.maker != accounts.treasury,
        accounts.maker_mint != accounts.rewards_mint,
    ensures
        ({
            let after = before.settle_step(accounts, expected)->Ok_0;
            let receipt = before.receipt_of(accounts);
            &&& !after.listings.contains_key(accounts.listing)
            &&& after.listings == before.listings.remove(accounts.listing)
            &&& after.native[accounts.taker] == before.native[accounts.taker] - receipt.price
            &&& after.native[accounts.maker] == before.native[accounts.maker]
                + receipt.seller_proceeds + receipt.refund
            &&& after.native[accounts.treasury] == before.native[accounts.treasury] + receipt.fee
            &&& forall|other: Address|
                other != accounts.taker && other != accounts.maker && other != accounts.treasury
                    ==> after.native[other] == before.native[other]
            &&& after.holding(accounts.taker, accounts.maker_mint) == before.holding(
                accounts.taker,
                accounts.maker_mint,
            ) + receipt.amount
            &&& after.holding(accounts.taker, accounts.rewards_mint) == before.holding(
                accounts.taker,
                accounts.rewards_mint,
            ) + receipt.reward
            &&& after.supply(accounts.rewards_mint) == before.supply(accounts.rewards_mint)
                + receipt.reward
            &&& forall|other: Holder|
                other.owner != accounts.taker ==> after.tokens[other] == before.tokens[other]
            &&& after.marketplaces == before.marketplaces
        }),
{
    let market = before.marketplaces[accounts.marketplace];
    let price = before.listings[accounts.listing].listing.price;
    lemma_portion_bounded(price, market.fee_bps);
    lemma_reward_bounded(before.rewards, price);
}

/// The accounts that the records give for a listing are accepted: a purchase
/// with them, held against the listing's own address and bump, is turned
/// down only where the buyer cannot pay or the reward cannot be issued.
pub proof fn lemma_resolved_accounts_match(before: LedgerView, buyer: Address, listing: Address)
    requires
        before.sound(),
        before.listings.contains_key(listing),
    ensures
        ({
            let accounts = before.resolved(buyer, listing)->0;
            let bump = before.listings[listing].listing.bump;
            let outcome = before.settle_step(accounts, Some(Derived { address: listing, bump }));
            &&& accounts.taker == buyer
            &&& accounts.listing == listing
            &&& outcome is Err ==> outcome == Err::<LedgerView, MarketError>(
                MarketError::InsufficientFunds,
            ) || outcome == Err::<LedgerView, MarketError>(MarketError::Overflow)
            &&& outcome is Err <==> before.native[buyer]
                < before.listings[listing].listing.price || before.supply(accounts.rewards_mint)
                + before.rewards.spec_reward(before.listings[listing].listing.price) > u64::MAX
        }),
{
}

/// Of two purchases of the same listing, whichever comes second finds no
/// listing: once a purchase went through, every further purchase of that
/// listing is turned down with `NotFound`, whoever the buyer is.
pub proof fn lemma_purchase_excludes_purchase(
    before: LedgerView,
    first: Purchase,
    first_expected: Option<Derived>,
    second: Purchase,
    second_expected: Option<Derived>,
)
    requires
        before.settle_step(first, first_expected) is Ok,
        second.listing == first.listing,
    ensures
        before.settle_step(first, first_expected)->Ok_0.settle_step(second, second_expected) == Err::<
            LedgerView,
            MarketError,
        >(MarketError::NotFound),
        before.purchase_step(first) matches Ok(after) ==> after.purchase_step(second) == Err::<
            LedgerView,
            MarketError,
        >(MarketError::NotFound),
{
}

/// A listing that was bought cannot be taken down, and one that was taken down
/// cannot be bought: either finds no listing.
pub proof fn lemma_purchase_excludes_delist(
    before: LedgerView,
    accounts: Purchase,
    expected: Option<Derived>,
    caller: Address,
)
    ensures
        before.settle_step(accounts, expected) matches Ok(after) ==> after.delist_step(
            caller,
            accounts.listing,
        ) == Err::<LedgerView, MarketError>(MarketError::NotFound),
        before.delist_step(caller, accounts.listing) matches Ok(after) ==> after.settle_step(
            accounts,
            expected,
        ) == Err::<LedgerView, MarketError>(MarketError::NotFound),
{
}

/// Listing an item and taking the listing down again, by the same seller,
/// undoes itself: the seller's items and deposits are back, no listing and no
/// vault is left, and the whole ledger is as it was before.
pub proof fn lemma_list_then_delist(
    before: LedgerView,
    seller: Address,
    marketplace: Address,
    item_mint: Address,
    price: u64,
    amount: u64,
    at: Derived,
)
    requires
        before.sound(),
        before.open_listing_step(seller, marketplace, item_mint, price, amount, at) is Ok,
    ensures
        ({
            let listed = before.open_listing_step(
                seller,
                marketplace,
                item_mint,
                price,
                amount,
                at,
            )->Ok_0;
            &&& listed.listings.contains_key(at.address)
            &&& listed.holding(seller, item_mint) == before.holding(seller, item_mint) - amount
            &&& listed.delist_step(seller, at.address) == Ok::<LedgerView, MarketError>(before)
            &&& !before.listings.contains_key(at.address)
        }),
{
    let listed = before.open_listing_step(seller, marketplace, item_mint, price, amount, at)->Ok_0;
    let after = listed.close_escrow(at.address, seller);
    assert(after.native =~= before.native);
    assert(after.tokens =~= before.tokens);
    assert(after.listings =~= before.listings);
}

/// The same of `list`, which derives the listing's address itself.
pub proof fn lemma_list_round_trip(
    before: LedgerView,
    seller: Address,
    marketplace: Address,
    item_mint: Address,
    price: u64,
    amount: u64,
)
    requires
        before.sound(),
        before.list_step(seller, marketplace, item_mint, price, amount) is Ok,
    ensures
        listing_at(marketplace, item_mint, before.program) matches Some(at) && before.list_step(
            seller,
            marketplace,
            item_mint,
            price,
            amount,
        )->Ok_0.delist_step(seller, at.address) == Ok::<LedgerView, MarketError>(before),
{
    let at = listing_at(marketplace, item_mint, before.program)->0;
    lemma_list_then_delist(before, seller, marketplace, item_mint, price, amount, at);
}

/// Nobody but the seller takes a listing down: for every other caller the
/// attempt is turned down with `Unauthorized`.
pub proof fn lemma_delist_needs_seller(before: LedgerView, caller: Address, listing: Address)
    requires
        before.listings.contains_key(listing),
        caller != before.listings[listing].listing.seller,
    ensures
        before.delist_step(caller, listing) == Err::<LedgerView, MarketError>(
            MarketError::Unauthorized,
        ),
{
}

/// Nobody but the admin withdraws from a treasury: for every other caller the
/// attempt is turned down with `Unauthorized`, whatever the amount.
pub proof fn lemma_withdraw_needs_admin(
    before: LedgerView,
    caller: Address,
    marketplace: Address,
    amount: u64,
)
    requires
        before.marketplaces.contains_key(marketplace),
        caller != before.marketplaces[marketplace].admin,
    ensures
        before.withdraw_step(caller, marketplace, amount) == Err::<LedgerView, MarketError>(
            MarketError::Unauthorized,
        ),
{
}

/// A name is taken once: after a marketplace was initialized, initializing one
/// of the same name is turned down with `AlreadyExists`, whatever its fee rate
/// and its admin.
pub proof fn lemma_initialize_once(
    before: LedgerView,
    name: String,
    fee_bps: u16,
    admin: Address,
    again: String,
    other_fee_bps: u16,
    other_admin: Address,
)
    requires
        again@ == name@,
        before.initialize_step(name, fee_bps, admin) is Ok,
    ensures
        before.initialize_step(name, fee_bps, admin)->Ok_0.initialize_step(
            again,
            other_fee_bps,
            other_admin,
        ) == Err::<LedgerView, MarketError>(MarketError::AlreadyExists),
{
}

/// A withdrawal moves the amount from the treasury to the admin and nothing
/// else.
pub proof fn lemma_withdraw_effects(
    before: LedgerView,
    caller: Address,
    marketplace: Address,
    amount: u64,
)
    requires
        before.sound(),
        before.withdraw_step(caller, marketplace, amount) is Ok,
    ensures
        ({
            let after = before.withdraw_step(caller, marketplace, amount)->Ok_0;
            let treasury = before.marketplaces[marketplace].treasury_address;
            &&& after.native_supply == before.native_supply
            &&& treasury != caller ==> after.native[treasury] == before.native[treasury] - amount
                && after.native[caller] == before.native[caller] + amount
            &&& treasury == caller ==> after.native[caller] == before.native[caller]
            &&& forall|other: Address|
                other != treasury && other != caller ==> after.native[other]
                    == before.native[other]
            &&& after.tokens == before.tokens
            &&& after.listings == before.listings
            &&& after.marketplaces == before.marketplaces
            &&& after.mints == before.mints
        }),
{
}

} // verus!
