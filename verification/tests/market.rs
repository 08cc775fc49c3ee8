use tickr::address::{
    listing_address, marketplace_address, rewards_address, treasury_address, Address, Derived,
};
use tickr::error::MarketError;
use tickr::fees::RewardPolicy;
use tickr::ledger::Ledger;
use tickr::market::quote_purchase;
use tickr::records::{
    Escrow, EscrowVault, Listing, Marketplace, Mint, Purchase, ReceiptInfo,
};

const LISTING_DEPOSIT: u64 = 7;
const VAULT_DEPOSIT: u64 = 11;

fn addr(n: u8) -> Address {
    Address::new([n; 32])
}

fn program() -> Address {
    addr(200)
}

fn admin() -> Address {
    addr(1)
}

fn seller() -> Address {
    addr(2)
}

fn buyer() -> Address {
    addr(3)
}

fn organizer() -> Address {
    addr(4)
}

fn ticket() -> Address {
    addr(50)
}

struct Market {
    ledger: Ledger,
    address: Address,
    treasury: Address,
    rewards_mint: Address,
}

/// A marketplace "main" with a fee of 250 basis points; the seller holds 3
/// tickets and 100 in native currency, the buyer 5000.
fn market(policy: RewardPolicy) -> Market {
    let mut ledger = Ledger::new(program(), policy, LISTING_DEPOSIT, VAULT_DEPOSIT).unwrap();
    let record = ledger.initialize("main".to_string(), 250, admin()).unwrap();
    let address = marketplace_address("main", &program()).unwrap().address;
    ledger.create_mint(&ticket(), &organizer(), 0).unwrap();
    ledger.mint_to(&ticket(), &organizer(), &seller(), 3).unwrap();
    ledger.fund(&seller(), 100).unwrap();
    ledger.fund(&buyer(), 5000).unwrap();
    Market {
        ledger,
        address,
        treasury: record.treasury_address,
        rewards_mint: record.rewards_mint_address,
    }
}

fn accounts(m: &Market, listing: Address) -> Purchase {
    Purchase {
        taker: buyer(),
        maker: seller(),
        marketplace: m.address,
        maker_mint: ticket(),
        rewards_mint: m.rewards_mint,
        listing,
        treasury: m.treasury,
    }
}

#[test]
fn new_ledger_is_empty() {
    let ledger = Ledger::new(program(), RewardPolicy::Flat(1), 7, 11).unwrap();
    assert_eq!(ledger.program(), program());
    assert_eq!(ledger.rewards(), RewardPolicy::Flat(1));
    assert_eq!(ledger.listing_deposit(), 7);
    assert_eq!(ledger.vault_deposit(), 11);
    assert_eq!(ledger.native_supply(), 0);
    assert_eq!(ledger.balance(&seller()), 0);
    assert_eq!(ledger.token_balance(&seller(), &ticket()), 0);
    assert_eq!(ledger.mint(&ticket()), None);
    assert_eq!(ledger.marketplace(&addr(9)), None);
    assert_eq!(ledger.listing(&addr(9)), None);
    assert_eq!(ledger.vault(&addr(9)), None);
    assert_eq!(ledger.escrow(&addr(9)), None);
}

#[test]
fn new_ledger_refuses_a_reward_share_above_the_whole() {
    assert_eq!(
        Ledger::new(program(), RewardPolicy::Share(10_001), 0, 0).err(),
        Some(MarketError::InvalidFee)
    );
    assert!(Ledger::new(program(), RewardPolicy::Share(10_000), 0, 0).is_ok());
}

#[test]
fn fund_adds_to_balance_and_supply() {
    let mut ledger = Ledger::new(program(), RewardPolicy::Flat(1), 0, 0).unwrap();
    assert_eq!(ledger.fund(&buyer(), 40), Ok(()));
    assert_eq!(ledger.fund(&buyer(), 2), Ok(()));
    assert_eq!(ledger.fund(&seller(), 0), Ok(()));
    assert_eq!(ledger.balance(&buyer()), 42);
    assert_eq!(ledger.balance(&seller()), 0);
    assert_eq!(ledger.native_supply(), 42);
}

#[test]
fn fund_refuses_what_64_bits_cannot_hold() {
    let mut ledger = Ledger::new(program(), RewardPolicy::Flat(1), 0, 0).unwrap();
    ledger.fund(&buyer(), u64::MAX - 1).unwrap();
    let before = ledger.clone();
    assert_eq!(ledger.fund(&seller(), 2), Err(MarketError::Overflow));
    assert_eq!(ledger, before);
    assert_eq!(ledger.fund(&seller(), 1), Ok(()));
    assert_eq!(ledger.native_supply(), u64::MAX);
    assert_eq!(ledger.fund(&seller(), 1), Err(MarketError::Overflow));
}

#[test]
fn create_mint_starts_with_no_supply() {
    let mut ledger = Ledger::new(program(), RewardPolicy::Flat(1), 0, 0).unwrap();
    assert_eq!(ledger.create_mint(&ticket(), &organizer(), 2), Ok(()));
    assert_eq!(
        ledger.mint(&ticket()),
        Some(Mint { authority: organizer(), decimals: 2, supply: 0 })
    );
    let before = ledger.clone();
    assert_eq!(ledger.create_mint(&ticket(), &seller(), 0), Err(MarketError::AlreadyExists));
    assert_eq!(ledger, before);
}

#[test]
fn mint_to_issues_on_the_word_of_the_authority() {
    let mut ledger = Ledger::new(program(), RewardPolicy::Flat(1), 0, 0).unwrap();
    ledger.create_mint(&ticket(), &organizer(), 0).unwrap();
    assert_eq!(ledger.mint_to(&ticket(), &organizer(), &seller(), 5), Ok(()));
    assert_eq!(ledger.mint_to(&ticket(), &organizer(), &buyer(), 2), Ok(()));
    assert_eq!(ledger.token_balance(&seller(), &ticket()), 5);
    assert_eq!(ledger.token_balance(&buyer(), &ticket()), 2);
    assert_eq!(ledger.token_balance(&seller(), &addr(51)), 0);
    assert_eq!(ledger.mint(&ticket()).unwrap().supply, 7);
}

#[test]
fn mint_to_is_turned_down() {
    let mut ledger = Ledger::new(program(), RewardPolicy::Flat(1), 0, 0).unwrap();
    ledger.create_mint(&ticket(), &organizer(), 0).unwrap();
    ledger.mint_to(&ticket(), &organizer(), &seller(), u64::MAX - 1).unwrap();
    let before = ledger.clone();
    assert_eq!(
        ledger.mint_to(&addr(51), &organizer(), &seller(), 1),
        Err(MarketError::NotFound)
    );
    assert_eq!(
        ledger.mint_to(&ticket(), &seller(), &seller(), 1),
        Err(MarketError::Unauthorized)
    );
    assert_eq!(
        ledger.mint_to(&ticket(), &organizer(), &buyer(), 2),
        Err(MarketError::Overflow)
    );
    assert_eq!(ledger, before);
    assert_eq!(ledger.mint_to(&ticket(), &organizer(), &buyer(), 1), Ok(()));
    assert_eq!(ledger.mint(&ticket()).unwrap().supply, u64::MAX);
}

#[test]
fn initialize_creates_the_marketplace_and_its_rewards_mint() {
    let mut ledger = Ledger::new(program(), RewardPolicy::Flat(1), 0, 0).unwrap();
    let market: Derived = marketplace_address("main", &program()).unwrap();
    let treasury: Derived = treasury_address(&market.address, &program()).unwrap();
    let rewards: Derived = rewards_address(&market.address, &program()).unwrap();
    let record = ledger.initialize("main".to_string(), 250, admin()).unwrap();
    assert_eq!(
        record,
        Marketplace {
            name: "main".to_string(),
            fee_bps: 250,
            admin: admin(),
            treasury_address: treasury.address,
            rewards_mint_address: rewards.address,
            bump: market.bump,
            treasury_bump: treasury.bump,
            rewards_bump: rewards.bump,
        }
    );
    assert_eq!(ledger.marketplace(&market.address), Some(record));
    assert_eq!(
        ledger.mint(&rewards.address),
        Some(Mint { authority: market.address, decimals: 6, supply: 0 })
    );
    assert_eq!(ledger.balance(&treasury.address), 0);
    assert_eq!(ledger.native_supply(), 0);
}

#[test]
fn initialize_twice_with_the_same_name() {
    let mut ledger = Ledger::new(program(), RewardPolicy::Flat(1), 0, 0).unwrap();
    ledger.initialize("main".to_string(), 250, admin()).unwrap();
    let after_first = ledger.clone();
    assert_eq!(
        ledger.initialize("main".to_string(), 250, admin()),
        Err(MarketError::AlreadyExists)
    );
    assert_eq!(ledger, after_first);
    assert_eq!(
        ledger.initialize("main".to_string(), 10_001, seller()),
        Err(MarketError::AlreadyExists)
    );
    assert_eq!(ledger, after_first);
    assert!(ledger.initialize("side".to_string(), 0, seller()).is_ok());
}

#[test]
fn initialize_refuses_a_fee_above_the_whole() {
    let mut ledger = Ledger::new(program(), RewardPolicy::Flat(1), 0, 0).unwrap();
    let before = ledger.clone();
    assert_eq!(
        ledger.initialize("main".to_string(), 10_001, admin()),
        Err(MarketError::InvalidFee)
    );
    assert_eq!(ledger, before);
    assert!(ledger.initialize("main".to_string(), 10_000, admin()).is_ok());
}

#[test]
fn initialize_finds_no_address_for_a_name_of_33_bytes() {
    let mut ledger = Ledger::new(program(), RewardPolicy::Flat(1), 0, 0).unwrap();
    let before = ledger.clone();
    assert_eq!(ledger.initialize("n".repeat(33), 250, admin()), Err(MarketError::NotFound));
    assert_eq!(ledger, before);
    assert!(ledger.initialize("n".repeat(32), 250, admin()).is_ok());
}

#[test]
fn register_refuses_an_address_whose_rewards_mint_is_taken() {
    let mut ledger = Ledger::new(program(), RewardPolicy::Flat(1), 0, 0).unwrap();
    let market = Derived { address: addr(10), bump: 255 };
    let treasury = Derived { address: addr(11), bump: 254 };
    let rewards = Derived { address: addr(12), bump: 253 };
    ledger.create_mint(&addr(12), &organizer(), 0).unwrap();
    let before = ledger.clone();
    assert_eq!(
        ledger.register("main".to_string(), 250, admin(), market, treasury, rewards),
        Err(MarketError::AlreadyExists)
    );
    assert_eq!(ledger, before);
    let free = Derived { address: addr(13), bump: 253 };
    let record = ledger.register("main".to_string(), 250, admin(), market, treasury, free).unwrap();
    assert_eq!(record.rewards_mint_address, addr(13));
    assert_eq!(record.treasury_address, addr(11));
    assert_eq!((record.bump, record.treasury_bump, record.rewards_bump), (255, 254, 253));
    assert_eq!(ledger.marketplace(&addr(10)), Some(record));
}

#[test]
fn list_moves_item_and_deposits_into_escrow() {
    let mut m = market(RewardPolicy::Flat(1));
    let at: Derived = listing_address(&m.address, &ticket(), &program()).unwrap();
    let (address, listing) = m.ledger.list(&seller(), &m.address, &ticket(), 1000, 2).unwrap();
    assert_eq!(address, at.address);
    assert_eq!(
        listing,
        Listing {
            seller: seller(),
            marketplace: m.address,
            item_mint: ticket(),
            price: 1000,
            bump: at.bump,
            deposit: LISTING_DEPOSIT,
        }
    );
    assert_eq!(m.ledger.listing(&address), Some(listing));
    assert_eq!(
        m.ledger.vault(&address),
        Some(EscrowVault {
            authority: address,
            mint: ticket(),
            amount: 2,
            deposit: VAULT_DEPOSIT,
        })
    );
    assert_eq!(m.ledger.token_balance(&seller(), &ticket()), 1);
    assert_eq!(m.ledger.balance(&seller()), 100 - LISTING_DEPOSIT - VAULT_DEPOSIT);
    assert_eq!(m.ledger.native_supply(), 5100);
    assert_eq!(m.ledger.mint(&ticket()).unwrap().supply, 3);
}

#[test]
fn list_is_turned_down() {
    let mut m = market(RewardPolicy::Flat(1));
    let before = m.ledger.clone();
    assert_eq!(
        m.ledger.list(&seller(), &addr(99), &ticket(), 1000, 1),
        Err(MarketError::NotFound)
    );
    assert_eq!(
        m.ledger.list(&seller(), &m.address, &ticket(), 1000, 4),
        Err(MarketError::InsufficientFunds)
    );
    assert_eq!(
        m.ledger.list(&buyer(), &m.address, &ticket(), 1000, 1),
        Err(MarketError::InsufficientFunds)
    );
    assert_eq!(m.ledger, before);
    m.ledger.list(&seller(), &m.address, &ticket(), 1000, 1).unwrap();
    let listed = m.ledger.clone();
    assert_eq!(
        m.ledger.list(&seller(), &m.address, &ticket(), 500, 1),
        Err(MarketError::AlreadyExists)
    );
    assert_eq!(m.ledger, listed);
}

#[test]
fn list_needs_both_deposits() {
    let mut ledger = Ledger::new(program(), RewardPolicy::Flat(1), u64::MAX, u64::MAX).unwrap();
    let record = ledger.initialize("main".to_string(), 250, admin()).unwrap();
    let market = marketplace_address("main", &program()).unwrap().address;
    assert_eq!(record.fee_bps, 250);
    ledger.create_mint(&ticket(), &organizer(), 0).unwrap();
    ledger.mint_to(&ticket(), &organizer(), &seller(), 1).unwrap();
    ledger.fund(&seller(), u64::MAX).unwrap();
    let before = ledger.clone();
    assert_eq!(
        ledger.list(&seller(), &market, &ticket(), 1, 1),
        Err(MarketError::InsufficientFunds)
    );
    assert_eq!(ledger, before);

    let mut m = market_with_seller_funds(LISTING_DEPOSIT + VAULT_DEPOSIT - 1);
    assert_eq!(
        m.ledger.list(&seller(), &m.address, &ticket(), 1, 1),
        Err(MarketError::InsufficientFunds)
    );
    m.ledger.fund(&seller(), 1).unwrap();
    assert!(m.ledger.list(&seller(), &m.address, &ticket(), 1, 1).is_ok());
    assert_eq!(m.ledger.balance(&seller()), 0);
}

fn market_with_seller_funds(funds: u64) -> Market {
    let mut ledger =
        Ledger::new(program(), RewardPolicy::Flat(1), LISTING_DEPOSIT, VAULT_DEPOSIT).unwrap();
    let record = ledger.initialize("main".to_string(), 250, admin()).unwrap();
    let address = marketplace_address("main", &program()).unwrap().address;
    ledger.create_mint(&ticket(), &organizer(), 0).unwrap();
    ledger.mint_to(&ticket(), &organizer(), &seller(), 3).unwrap();
    ledger.fund(&seller(), funds).unwrap();
    Market {
        ledger,
        address,
        treasury: record.treasury_address,
        rewards_mint: record.rewards_mint_address,
    }
}

#[test]
fn list_then_delist_restores_the_ledger() {
    let mut m = market(RewardPolicy::Flat(1));
    let before = m.ledger.clone();
    let (address, _) = m.ledger.list(&seller(), &m.address, &ticket(), 1000, 3).unwrap();
    assert_eq!(m.ledger.token_balance(&seller(), &ticket()), 0);
    assert_eq!(m.ledger.delist(&seller(), &address), Ok(()));
    assert_eq!(m.ledger.token_balance(&seller(), &ticket()), 3);
    assert_eq!(m.ledger.balance(&seller()), 100);
    assert_eq!(m.ledger.listing(&address), None);
    assert_eq!(m.ledger.vault(&address), None);
    assert_eq!(m.ledger.native_supply(), before.native_supply());
    assert_eq!(m.ledger.mint(&ticket()), before.mint(&ticket()));
    assert!(m.ledger.list(&seller(), &m.address, &ticket(), 2000, 1).is_ok());
}

#[test]
fn delist_by_anyone_but_the_seller_is_unauthorized() {
    let mut m = market(RewardPolicy::Flat(1));
    let (address, _) = m.ledger.list(&seller(), &m.address, &ticket(), 1000, 1).unwrap();
    let before = m.ledger.clone();
    assert_eq!(m.ledger.delist(&buyer(), &address), Err(MarketError::Unauthorized));
    assert_eq!(m.ledger.delist(&admin(), &address), Err(MarketError::Unauthorized));
    assert_eq!(m.ledger.delist(&address, &address), Err(MarketError::Unauthorized));
    assert_eq!(m.ledger, before);
}

#[test]
fn delist_of_no_listing_is_not_found() {
    let mut m = market(RewardPolicy::Flat(1));
    let before = m.ledger.clone();
    assert_eq!(m.ledger.delist(&seller(), &addr(77)), Err(MarketError::NotFound));
    assert_eq!(m.ledger, before);
    let (address, _) = m.ledger.list(&seller(), &m.address, &ticket(), 1000, 1).unwrap();
    m.ledger.delist(&seller(), &address).unwrap();
    assert_eq!(m.ledger.delist(&seller(), &address), Err(MarketError::NotFound));
}

#[test]
fn purchase_of_1000_at_250_bps() {
    let mut m = market(RewardPolicy::Share(5_000));
    let (listing, _) = m.ledger.list(&seller(), &m.address, &ticket(), 1000, 1).unwrap();
    let seller_before = m.ledger.balance(&seller());
    let receipt = m.ledger.purchase(&accounts(&m, listing)).unwrap();
    assert_eq!(
        receipt,
        ReceiptInfo {
            listing,
            buyer: buyer(),
            seller: seller(),
            item_mint: ticket(),
            amount: 1,
            price: 1000,
            fee: 25,
            seller_proceeds: 975,
            reward: 500,
            refund: LISTING_DEPOSIT + VAULT_DEPOSIT,
        }
    );
    assert_eq!(m.ledger.balance(&m.treasury), 25);
    assert_eq!(m.ledger.balance(&buyer()), 4000);
    assert_eq!(m.ledger.balance(&seller()), seller_before + 975 + LISTING_DEPOSIT + VAULT_DEPOSIT);
    assert_eq!(m.ledger.balance(&seller()), 1075);
    assert_eq!(m.ledger.token_balance(&buyer(), &ticket()), 1);
    assert_eq!(m.ledger.token_balance(&seller(), &ticket()), 2);
    assert_eq!(m.ledger.token_balance(&buyer(), &m.rewards_mint), 500);
    assert!(m.ledger.token_balance(&buyer(), &m.rewards_mint) > 0);
    assert_eq!(m.ledger.mint(&m.rewards_mint).unwrap().supply, 500);
    assert_eq!(m.ledger.listing(&listing), None);
    assert_eq!(m.ledger.vault(&listing), None);
    assert_eq!(m.ledger.native_supply(), 5100);
}

#[test]
fn purchase_moves_the_whole_escrowed_balance() {
    let mut m = market(RewardPolicy::Flat(9));
    let (listing, _) = m.ledger.list(&seller(), &m.address, &ticket(), 40, 3).unwrap();
    let receipt = m.ledger.purchase(&accounts(&m, listing)).unwrap();
    assert_eq!((receipt.amount, receipt.fee, receipt.seller_proceeds, receipt.reward), (3, 1, 39, 9));
    assert_eq!(m.ledger.token_balance(&buyer(), &ticket()), 3);
    assert_eq!(m.ledger.token_balance(&seller(), &ticket()), 0);
    assert_eq!(m.ledger.mint(&ticket()).unwrap().supply, 3);
}

#[test]
fn purchase_without_funds_changes_nothing() {
    let mut m = market(RewardPolicy::Flat(1));
    let (listing, _) = m.ledger.list(&seller(), &m.address, &ticket(), 5001, 1).unwrap();
    let before = m.ledger.clone();
    assert_eq!(
        m.ledger.purchase(&accounts(&m, listing)),
        Err(MarketError::InsufficientFunds)
    );
    assert_eq!(m.ledger, before);
    assert!(m.ledger.listing(&listing).is_some());
    assert_eq!(m.ledger.vault(&listing).unwrap().amount, 1);
    m.ledger.fund(&buyer(), 1).unwrap();
    assert!(m.ledger.purchase(&accounts(&m, listing)).is_ok());
    assert_eq!(m.ledger.balance(&buyer()), 0);
}

#[test]
fn second_purchase_of_a_listing_finds_nothing() {
    let mut m = market(RewardPolicy::Flat(1));
    let (listing, _) = m.ledger.list(&seller(), &m.address, &ticket(), 1000, 1).unwrap();
    assert!(m.ledger.purchase(&accounts(&m, listing)).is_ok());
    let after_first = m.ledger.clone();
    assert_eq!(m.ledger.purchase(&accounts(&m, listing)), Err(MarketError::NotFound));
    let mut other = accounts(&m, listing);
    other.taker = admin();
    assert_eq!(m.ledger.purchase(&other), Err(MarketError::NotFound));
    assert_eq!(m.ledger.delist(&seller(), &listing), Err(MarketError::NotFound));
    assert_eq!(m.ledger, after_first);
}

#[test]
fn purchase_after_delist_finds_nothing() {
    let mut m = market(RewardPolicy::Flat(1));
    let (listing, _) = m.ledger.list(&seller(), &m.address, &ticket(), 1000, 1).unwrap();
    m.ledger.delist(&seller(), &listing).unwrap();
    let before = m.ledger.clone();
    assert_eq!(m.ledger.purchase(&accounts(&m, listing)), Err(MarketError::NotFound));
    assert_eq!(m.ledger, before);
}

#[test]
fn purchase_with_accounts_that_do_not_match() {
    let mut m = market(RewardPolicy::Flat(1));
    m.ledger.initialize("side".to_string(), 100, admin()).unwrap();
    let side = marketplace_address("side", &program()).unwrap().address;
    let (listing, _) = m.ledger.list(&seller(), &m.address, &ticket(), 1000, 1).unwrap();
    let before = m.ledger.clone();
    let good = accounts(&m, listing);

    let mut wrong = good;
    wrong.marketplace = side;
    assert_eq!(m.ledger.purchase(&wrong), Err(MarketError::AddressMismatch));
    wrong = good;
    wrong.maker = admin();
    assert_eq!(m.ledger.purchase(&wrong), Err(MarketError::AddressMismatch));
    wrong = good;
    wrong.treasury = buyer();
    assert_eq!(m.ledger.purchase(&wrong), Err(MarketError::AddressMismatch));
    wrong = good;
    wrong.rewards_mint = ticket();
    assert_eq!(m.ledger.purchase(&wrong), Err(MarketError::AddressMismatch));
    wrong = good;
    wrong.marketplace = addr(99);
    assert_eq!(m.ledger.purchase(&wrong), Err(MarketError::NotFound));
    wrong = good;
    wrong.listing = addr(98);
    assert_eq!(m.ledger.purchase(&wrong), Err(MarketError::NotFound));
    wrong = good;
    wrong.maker_mint = addr(51);
    assert_eq!(m.ledger.purchase(&wrong), Err(MarketError::MintMismatch));
    assert_eq!(m.ledger, before);
    assert!(m.ledger.purchase(&good).is_ok());
}

#[test]
fn settle_holds_the_listing_against_the_derived_address() {
    let mut m = market(RewardPolicy::Flat(1));
    let (listing, record) = m.ledger.list(&seller(), &m.address, &ticket(), 1000, 1).unwrap();
    let before = m.ledger.clone();
    let good = accounts(&m, listing);
    assert_eq!(m.ledger.settle(&good, None), Err(MarketError::AddressMismatch));
    assert_eq!(
        m.ledger.settle(&good, Some(Derived { address: addr(97), bump: record.bump })),
        Err(MarketError::AddressMismatch)
    );
    assert_eq!(
        m.ledger.settle(
            &good,
            Some(Derived { address: listing, bump: record.bump.wrapping_sub(1) })
        ),
        Err(MarketError::AddressMismatch)
    );
    assert_eq!(m.ledger, before);
    let receipt =
        m.ledger.settle(&good, Some(Derived { address: listing, bump: record.bump })).unwrap();
    assert_eq!((receipt.fee, receipt.seller_proceeds), (25, 975));
}

#[test]
fn open_listing_at_a_given_address() {
    let mut m = market(RewardPolicy::Flat(1));
    let at = Derived { address: addr(60), bump: 9 };
    let (address, listing) =
        m.ledger.open_listing(&seller(), &m.address, &ticket(), 10, 1, at).unwrap();
    assert_eq!(address, addr(60));
    assert_eq!(listing.bump, 9);
    assert_eq!(m.ledger.vault(&addr(60)).unwrap().authority, addr(60));
    let mut named = accounts(&m, addr(60));
    assert_eq!(m.ledger.purchase(&named), Err(MarketError::AddressMismatch));
    named.taker = seller();
    assert_eq!(m.ledger.settle(&named, Some(at)).map(|r| r.amount), Ok(1));
}

#[test]
fn purchase_by_the_seller_pays_only_the_fee() {
    let mut m = market(RewardPolicy::Flat(4));
    let (listing, _) = m.ledger.list(&seller(), &m.address, &ticket(), 80, 1).unwrap();
    let mut own = accounts(&m, listing);
    own.taker = seller();
    let receipt = m.ledger.purchase(&own).unwrap();
    assert_eq!((receipt.fee, receipt.seller_proceeds), (2, 78));
    assert_eq!(m.ledger.balance(&seller()), 98);
    assert_eq!(m.ledger.balance(&m.treasury), 2);
    assert_eq!(m.ledger.token_balance(&seller(), &ticket()), 3);
    assert_eq!(m.ledger.token_balance(&seller(), &m.rewards_mint), 4);
}

#[test]
fn purchase_is_turned_down_when_the_reward_cannot_be_issued() {
    let mut m = market(RewardPolicy::Flat(u64::MAX));
    let other = addr(52);
    m.ledger.create_mint(&other, &organizer(), 0).unwrap();
    m.ledger.mint_to(&other, &organizer(), &seller(), 1).unwrap();
    let (first, _) = m.ledger.list(&seller(), &m.address, &ticket(), 10, 1).unwrap();
    let (second, _) = m.ledger.list(&seller(), &m.address, &other, 10, 1).unwrap();
    assert!(m.ledger.purchase(&accounts(&m, first)).is_ok());
    assert_eq!(m.ledger.mint(&m.rewards_mint).unwrap().supply, u64::MAX);
    let before = m.ledger.clone();
    let mut named = accounts(&m, second);
    named.maker_mint = other;
    assert_eq!(m.ledger.purchase(&named), Err(MarketError::Overflow));
    assert_eq!(m.ledger, before);
}

#[test]
fn withdraw_pays_the_admin_out_of_the_treasury() {
    let mut m = market(RewardPolicy::Flat(1));
    let (listing, _) = m.ledger.list(&seller(), &m.address, &ticket(), 1000, 1).unwrap();
    m.ledger.purchase(&accounts(&m, listing)).unwrap();
    assert_eq!(m.ledger.withdraw(&admin(), &m.address, 20), Ok(()));
    assert_eq!(m.ledger.balance(&m.treasury), 5);
    assert_eq!(m.ledger.balance(&admin()), 20);
    assert_eq!(m.ledger.withdraw(&admin(), &m.address, 5), Ok(()));
    assert_eq!(m.ledger.balance(&m.treasury), 0);
    assert_eq!(m.ledger.balance(&admin()), 25);
    assert_eq!(m.ledger.withdraw(&admin(), &m.address, 0), Ok(()));
    assert_eq!(m.ledger.native_supply(), 5100);
}

#[test]
fn withdraw_is_turned_down() {
    let mut m = market(RewardPolicy::Flat(1));
    let (listing, _) = m.ledger.list(&seller(), &m.address, &ticket(), 1000, 1).unwrap();
    m.ledger.purchase(&accounts(&m, listing)).unwrap();
    let before = m.ledger.clone();
    assert_eq!(m.ledger.withdraw(&seller(), &m.address, 1), Err(MarketError::Unauthorized));
    assert_eq!(m.ledger.withdraw(&seller(), &m.address, 0), Err(MarketError::Unauthorized));
    assert_eq!(m.ledger.withdraw(&m.treasury, &m.address, 1), Err(MarketError::Unauthorized));
    assert_eq!(m.ledger.withdraw(&admin(), &m.address, 26), Err(MarketError::InsufficientFunds));
    assert_eq!(m.ledger.withdraw(&admin(), &addr(99), 1), Err(MarketError::NotFound));
    assert_eq!(m.ledger, before);
}

#[test]
fn listings_of_different_mints_do_not_touch_each_other() {
    let mut m = market(RewardPolicy::Flat(1));
    let other = addr(52);
    m.ledger.create_mint(&other, &organizer(), 0).unwrap();
    m.ledger.mint_to(&other, &organizer(), &seller(), 4).unwrap();
    let (first, _) = m.ledger.list(&seller(), &m.address, &ticket(), 100, 1).unwrap();
    let (second, _) = m.ledger.list(&seller(), &m.address, &other, 200, 4).unwrap();
    assert_ne!(first, second);
    m.ledger.purchase(&accounts(&m, first)).unwrap();
    assert_eq!(m.ledger.vault(&second).unwrap().amount, 4);
    assert_eq!(m.ledger.listing(&second).unwrap().price, 200);
    m.ledger.delist(&seller(), &second).unwrap();
    assert_eq!(m.ledger.token_balance(&seller(), &other), 4);
    assert_eq!(m.ledger.token_balance(&buyer(), &ticket()), 1);
}

#[test]
fn purchase_checks_funds_before_the_mint() {
    let mut m = market(RewardPolicy::Flat(1));
    let (listing, _) = m.ledger.list(&seller(), &m.address, &ticket(), 5001, 1).unwrap();
    let mut named = accounts(&m, listing);
    named.maker_mint = addr(51);
    assert_eq!(m.ledger.purchase(&named), Err(MarketError::InsufficientFunds));
    named.treasury = buyer();
    assert_eq!(m.ledger.purchase(&named), Err(MarketError::AddressMismatch));
    named.listing = addr(98);
    assert_eq!(m.ledger.purchase(&named), Err(MarketError::NotFound));
}

#[test]
fn resolve_names_the_accounts_that_the_records_give() {
    let mut m = market(RewardPolicy::Flat(1));
    assert_eq!(m.ledger.resolve(&buyer(), &addr(98)), None);
    let (listing, _) = m.ledger.list(&seller(), &m.address, &ticket(), 1000, 1).unwrap();
    let named = m.ledger.resolve(&buyer(), &listing).unwrap();
    assert_eq!(named, accounts(&m, listing));
    assert_eq!(m.ledger.purchase(&named).map(|r| r.fee), Ok(25));
    assert_eq!(m.ledger.resolve(&buyer(), &listing), None);
}

fn quoted_market() -> Marketplace {
    Marketplace {
        name: "main".to_string(),
        fee_bps: 250,
        admin: admin(),
        treasury_address: addr(11),
        rewards_mint_address: addr(12),
        bump: 255,
        treasury_bump: 254,
        rewards_bump: 253,
    }
}

fn quoted_escrow() -> Escrow {
    Escrow {
        listing: Listing {
            seller: seller(),
            marketplace: addr(10),
            item_mint: ticket(),
            price: 1000,
            bump: 252,
            deposit: LISTING_DEPOSIT,
        },
        vault: EscrowVault {
            authority: addr(13),
            mint: ticket(),
            amount: 2,
            deposit: VAULT_DEPOSIT,
        },
    }
}

fn quoted_accounts() -> Purchase {
    Purchase {
        taker: buyer(),
        maker: seller(),
        marketplace: addr(10),
        maker_mint: ticket(),
        rewards_mint: addr(12),
        listing: addr(13),
        treasury: addr(11),
    }
}

fn quoted_at() -> Option<Derived> {
    Some(Derived { address: addr(13), bump: 252 })
}

#[test]
fn quote_of_1000_at_250_bps() {
    assert_eq!(
        quote_purchase(
            &quoted_accounts(),
            &quoted_escrow(),
            &quoted_market(),
            quoted_at(),
            1000,
            0,
            &RewardPolicy::Share(100),
        ),
        Ok(ReceiptInfo {
            listing: addr(13),
            buyer: buyer(),
            seller: seller(),
            item_mint: ticket(),
            amount: 2,
            price: 1000,
            fee: 25,
            seller_proceeds: 975,
            reward: 10,
            refund: LISTING_DEPOSIT + VAULT_DEPOSIT,
        })
    );
}

#[test]
fn quote_names_the_first_thing_that_is_wrong() {
    let policy = RewardPolicy::Flat(5);
    let quote = |accounts: &Purchase,
                 escrow: &Escrow,
                 market: &Marketplace,
                 expected: Option<Derived>,
                 funds: u64,
                 supply: u64,
                 policy: &RewardPolicy| {
        quote_purchase(accounts, escrow, market, expected, funds, supply, policy).err()
    };
    let (accounts, escrow, market) = (quoted_accounts(), quoted_escrow(), quoted_market());
    assert_eq!(quote(&accounts, &escrow, &market, quoted_at(), 1000, 0, &policy), None);

    let mut everything_wrong = accounts;
    everything_wrong.treasury = addr(99);
    everything_wrong.maker_mint = addr(98);
    let mut bad_market = quoted_market();
    bad_market.fee_bps = 10_001;
    let mut heavy = quoted_escrow();
    heavy.vault.deposit = u64::MAX;
    assert_eq!(
        quote(&everything_wrong, &heavy, &bad_market, quoted_at(), 999, u64::MAX, &policy),
        Some(MarketError::AddressMismatch)
    );
    everything_wrong.treasury = addr(11);
    assert_eq!(
        quote(&everything_wrong, &heavy, &bad_market, quoted_at(), 999, u64::MAX, &policy),
        Some(MarketError::InvalidFee)
    );
    assert_eq!(
        quote(&everything_wrong, &heavy, &market, quoted_at(), 999, u64::MAX, &policy),
        Some(MarketError::InsufficientFunds)
    );
    assert_eq!(
        quote(&everything_wrong, &heavy, &market, quoted_at(), 1000, u64::MAX, &policy),
        Some(MarketError::MintMismatch)
    );
    assert_eq!(
        quote(&accounts, &heavy, &market, quoted_at(), 1000, u64::MAX, &policy),
        Some(MarketError::Overflow)
    );
    assert_eq!(
        quote(&accounts, &heavy, &market, quoted_at(), 1000, 0, &policy),
        Some(MarketError::Overflow)
    );
    assert_eq!(
        quote(&accounts, &escrow, &market, quoted_at(), 1000, u64::MAX - 4, &policy),
        Some(MarketError::Overflow)
    );
    assert_eq!(
        quote(&accounts, &escrow, &market, quoted_at(), 1000, u64::MAX - 5, &policy),
        None
    );
}

#[test]
fn quote_holds_every_account_against_the_records() {
    let policy = RewardPolicy::Flat(5);
    let (good, escrow, market) = (quoted_accounts(), quoted_escrow(), quoted_market());
    let refused = |accounts: &Purchase, expected: Option<Derived>| {
        quote_purchase(accounts, &escrow, &market, expected, 1000, 0, &policy)
            == Err(MarketError::AddressMismatch)
    };
    assert!(!refused(&good, quoted_at()));
    assert!(refused(&good, None));
    assert!(refused(&good, Some(Derived { address: addr(14), bump: 252 })));
    assert!(refused(&good, Some(Derived { address: addr(13), bump: 251 })));
    let mut wrong = good;
    wrong.marketplace = addr(9);
    assert!(refused(&wrong, quoted_at()));
    wrong = good;
    wrong.maker = buyer();
    assert!(refused(&wrong, quoted_at()));
    wrong = good;
    wrong.treasury = addr(12);
    assert!(refused(&wrong, quoted_at()));
    wrong = good;
    wrong.rewards_mint = addr(11);
    assert!(refused(&wrong, quoted_at()));
    wrong = good;
    wrong.listing = addr(14);
    assert!(refused(&wrong, quoted_at()));
    wrong = good;
    wrong.taker = seller();
    assert!(!refused(&wrong, quoted_at()));
}

#[test]
fn quote_refuses_a_policy_that_is_no_rate() {
    assert_eq!(
        quote_purchase(
            &quoted_accounts(),
            &quoted_escrow(),
            &quoted_market(),
            quoted_at(),
            1000,
            0,
            &RewardPolicy::Share(10_001),
        ),
        Err(MarketError::InvalidFee)
    );
}
