//! How a price is split between the seller and the marketplace, and what
//! reward a purchase earns.

use crate::error::MarketError;
use vstd::prelude::*;

verus! {

/// The number of basis points in the whole of an amount.
pub const BPS_DENOMINATOR: u16 = 10_000;

/// The part of `amount` that `bps` basis points stand for, rounded down.
pub open spec fn portion(amount: u64, bps: u16) -> nat {
    (amount as nat * bps as nat) / 10_000
}

/// Rounding down, no rate up to the whole takes more than the amount.
pub proof fn lemma_portion_bounded(amount: u64, bps: u16)
    requires
        bps <= 10_000,
    ensures
        portion(amount, bps) <= amount,
{
    let a = amount as nat;
    let b = bps as nat;
    assert(a * b <= a * 10_000) by (nonlinear_arith)
        requires
            b <= 10_000,
    ;
    assert((a * b) / 10_000 <= a) by (nonlinear_arith)
        requires
            a * b <= a * 10_000,
    ;
}

/// Computes `portion(amount, bps)`.
pub fn portion_of(amount: u64, bps: u16) -> (part: u64)
    requires
        bps <= 10_000,
    ensures
        part == portion(amount, bps),
        part <= amount,
{
    proof {
        lemma_portion_bounded(amount, bps);
        assert(amount as nat * bps as nat <= u64::MAX as nat * 10_000) by (nonlinear_arith)
            requires
                amount <= u64::MAX,
                bps <= 10_000,
        ;
    }
    let wide: u128 = (amount as u128) * (bps as u128) / 10_000u128;
    wide as u64
}

/// A price split in two: what the marketplace keeps and what the seller gets.
#[derive(Clone, Copy, Debug, PartialEq, Eq, Structural)]
pub struct Split {
    pub fee: u64,
    pub seller_proceeds: u64,
}

/// The split of `price` at a fee rate of `fee_bps`.
pub open spec fn split_of(price: u64, fee_bps: u16) -> Split {
    Split {
        fee: portion(price, fee_bps) as u64,
        seller_proceeds: (price - portion(price, fee_bps)) as u64,
    }
}

/// The two parts of a split add up to the price: a sale neither makes nor loses
/// money.
pub proof fn lemma_split_conserves(price: u64, fee_bps: u16)
    requires
        fee_bps <= 10_000,
    ensures
        split_of(price, fee_bps).fee + split_of(price, fee_bps).seller_proceeds == price,
        split_of(price, fee_bps).fee == portion(price, fee_bps),
{
    lemma_portion_bounded(price, fee_bps);
}

/// Splits `price` at a fee rate of `fee_bps`. A rate above the whole is refused.
pub fn split_payment(price: u64, fee_bps: u16) -> (r: Result<Split, MarketError>)
    ensures
        fee_bps > 10_000 ==> r == Err::<Split, MarketError>(MarketError::InvalidFee),
        fee_bps <= 10_000 ==> r == Ok::<Split, MarketError>(split_of(price, fee_bps)),
        r matches Ok(split) ==> split.fee + split.seller_proceeds == price,
{
    if fee_bps > BPS_DENOMINATOR {
        return Err(MarketError::InvalidFee);
    }
    let fee = portion_of(price, fee_bps);
    Ok(Split { fee, seller_proceeds: price - fee })
}

/// What a buyer earns in reward tokens for a purchase.
#[derive(Clone, Copy, Debug, PartialEq, Eq, Structural)]
pub enum RewardPolicy {
    /// The same amount for every purchase.
    Flat(u64),
    /// So many basis points of the price, rounded down.
    Share(u16),
}

/// A reward fits in 64 bits.
pub proof fn lemma_reward_bounded(policy: RewardPolicy, price: u64)
    requires
        policy.valid(),
    ensures
        policy.spec_reward(price) <= u64::MAX,
{
    match policy {
        RewardPolicy::Flat(_) => {},
        RewardPolicy::Share(bps) => {
            lemma_portion_bounded(price, bps);
        },
    }
}

impl RewardPolicy {
    /// A share is at most the whole price.
    pub open spec fn valid(&self) -> bool {
        match self {
            RewardPolicy::Flat(_) => true,
            RewardPolicy::Share(bps) => *bps <= 10_000,
        }
    }

    /// The reward for a purchase at `price`.
    pub open spec fn spec_reward(&self, price: u64) -> nat {
        match self {
            RewardPolicy::Flat(amount) => *amount as nat,
            RewardPolicy::Share(bps) => portion(price, *bps),
        }
    }

    /// Whether the policy is one that a ledger accepts.
    pub fn is_valid(&self) -> (r: bool)
        ensures
            r == self.valid(),
    {
        match self {
            RewardPolicy::Flat(_) => true,
            RewardPolicy::Share(bps) => *bps <= BPS_DENOMINATOR,
        }
    }

    /// Computes the reward for a purchase at `price`.
    pub fn reward(&self, price: u64) -> (amount: u64)
        requires
            self.valid(),
        ensures
            amount == self.spec_reward(price),
    {
        match self {
            RewardPolicy::Flat(amount) => *amount,
            RewardPolicy::Share(bps) => portion_of(price, *bps),
        }
    }
}

} // verus!
