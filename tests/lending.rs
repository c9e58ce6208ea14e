use cdp::cdp::Cdp;
use cdp::erc20::{self, ERC20Token};
use cdp::error::Error;
use cdp::market::Position;
use cdp::rates::{self, YEAR_SECS};

const ADMIN: u64 = 1;
const ALICE: u64 = 2;
const BOB: u64 = 3;
const CUSTODY: u64 = 999;

/// A registry with market "M" on ledger 0 and market "N" on ledger 1, both
/// priced at 1; Alice holds `funds` of token 0 and Bob `funds` of token 1.
fn setup(funds: u64) -> (Cdp, Vec<ERC20Token>) {
    let mut l = ERC20Token::new(ADMIN, 1_000_000).unwrap();
    l.transfer(ADMIN, ALICE, funds).unwrap();
    let mut n = ERC20Token::new(ADMIN, 1_000_000).unwrap();
    n.transfer(ADMIN, BOB, funds).unwrap();
    let mut cdp = Cdp::new(ADMIN, CUSTODY);
    cdp.add_market(ADMIN, "M", 1, 0, 0).unwrap();
    cdp.add_market(ADMIN, "N", 1, 1, 0).unwrap();
    (cdp, vec![l, n])
}

#[test]
fn test() {
    let sender: u64 = 5;
    let mut cdp = Cdp::new(sender, CUSTODY);
    assert_eq!(cdp.add_market(sender, "oERC20A", 250, 0, 0), Ok(()));
    assert!(cdp.mm_listed("oERC20A"));
    assert_eq!(cdp.get_admin_market(sender, "oERC20A").unwrap().price_to_usd(), 250);
}

#[test]
fn exchange_rate_is_initial_without_supply() {
    let (cdp, mut ledgers) = setup(1000);
    ledgers[0].transfer(ALICE, CUSTODY, 300).unwrap();
    let info = cdp.get_market_info(&ledgers, "M").unwrap();
    assert_eq!((info.exchange_rate_num, info.exchange_rate_den), (1, 50));
    assert_eq!(info.liquidity, 300);
}

#[test]
fn mint_then_redeem_restores_position() {
    let (mut cdp, mut ledgers) = setup(1000);
    cdp.mint(&mut ledgers, ALICE, 100, "M", 0).unwrap();
    let before = cdp.get_user_mm_position(ALICE, "M").unwrap();
    cdp.mint(&mut ledgers, ALICE, 37, "M", 0).unwrap();
    cdp.redeem(&mut ledgers, ALICE, 37, "M", 0).unwrap();
    assert_eq!(cdp.get_user_mm_position(ALICE, "M").unwrap(), before);
    assert_eq!(cdp.get_admin_market(ADMIN, "M").unwrap().total_supply(), 5000);
    assert_eq!(ledgers[0].balance_of(ALICE), Ok(900));
}

#[test]
fn no_positions_means_zero_sums() {
    let (cdp, ledgers) = setup(1000);
    assert_eq!(cdp.get_sum_collat_borrow(&ledgers, 42), Ok((0, 0)));
    assert_eq!(cdp.get_user_global_position(&ledgers, 42), Ok((0, 0, 0)));
}

#[test]
fn borrow_beyond_collateral_changes_nothing() {
    let (mut cdp, mut ledgers) = setup(1000);
    cdp.mint(&mut ledgers, ALICE, 100, "M", 0).unwrap();
    let market_before = cdp.get_market_info(&ledgers, "M").unwrap();
    let lent_before = cdp.get_admin_market(ADMIN, "M").unwrap().total_lent();
    let r = cdp.borrow(&mut ledgers, BOB, 50, "M", 10);
    assert_eq!(r, Err(Error::InsufficientCollateral { shortfall: -50 }));
    assert_eq!(cdp.get_market_info(&ledgers, "M").unwrap(), market_before);
    assert_eq!(cdp.get_admin_market(ADMIN, "M").unwrap().total_lent(), lent_before);
    assert_eq!(cdp.get_admin_market(ADMIN, "M").unwrap().last_checkpoint(), 0);
    assert_eq!(cdp.get_user_mm_position(BOB, "M").unwrap(), Position::empty());
    assert_eq!(ledgers[0].balance_of(BOB), Ok(0));
    assert_eq!(ledgers[0].balance_of(CUSTODY), Ok(100));
}

#[test]
fn redeem_beyond_underlying_fails() {
    let (mut cdp, mut ledgers) = setup(1000);
    cdp.mint(&mut ledgers, ALICE, 100, "M", 0).unwrap();
    // plenty of cash in the pool, but Alice's own claim is 100
    ledgers[0].transfer(ADMIN, CUSTODY, 10_000).unwrap();
    let r = cdp.redeem(&mut ledgers, ALICE, 150, "M", 0);
    assert_eq!(r, Err(Error::InsufficientUnderlying { underlying: 100 }));
}

#[test]
fn mint_and_borrow_against_other_market() {
    let (mut cdp, mut ledgers) = setup(1000);
    cdp.mint(&mut ledgers, ALICE, 100, "M", 0).unwrap();
    let a = cdp.get_user_mm_position(ALICE, "M").unwrap();
    assert_eq!(a.otokens, 5000);
    assert_eq!(a.underlying_asset, 100);
    assert_eq!(cdp.get_admin_market(ADMIN, "M").unwrap().total_supply(), 5000);

    cdp.mint(&mut ledgers, BOB, 100, "N", 0).unwrap();
    // Bob's collateral: 75% of 100 at price 1
    assert_eq!(cdp.get_sum_collat_borrow(&ledgers, BOB), Ok((75, 0)));
    assert_eq!(cdp.get_hypo_acct_liquidity(&ledgers, BOB, 50, "M"), Ok(25));
    assert_eq!(cdp.get_hypo_acct_liquidity(&ledgers, BOB, 50, "nowhere"), Ok(75));
    assert_eq!(cdp.borrow(&mut ledgers, BOB, 50, "M", 0), Ok(()));
    assert_eq!(cdp.get_admin_market(ADMIN, "M").unwrap().total_lent(), 50);
    assert_eq!(cdp.get_user_mm_position(BOB, "M").unwrap().borrowed_asset, 50);
    assert_eq!(ledgers[0].balance_of(BOB), Ok(50));
    assert_eq!(cdp.get_user_global_position(&ledgers, BOB), Ok((25, 75, 50)));
}

#[test]
fn a_year_at_half_utilisation_accrues_an_eighth() {
    let (mut cdp, mut ledgers) = setup(100_000);
    cdp.mint(&mut ledgers, ALICE, 10_000, "M", 0).unwrap();
    cdp.mint(&mut ledgers, BOB, 10_000, "N", 0).unwrap();
    cdp.borrow(&mut ledgers, BOB, 5_000, "M", 0).unwrap();
    let info = cdp.get_market_info(&ledgers, "M").unwrap();
    assert_eq!(info.utilization_rate, 500_000_000);
    assert_eq!(info.borrow_rate, 125_000_000);
    assert_eq!(info.earn_rate, 62_500_000);
    // any operation accrues: a mint of nothing a year later
    cdp.mint(&mut ledgers, ALICE, 0, "M", YEAR_SECS).unwrap();
    let m = cdp.get_admin_market(ADMIN, "M").unwrap();
    assert_eq!(m.total_lent(), 5_625);
    assert_eq!(m.last_checkpoint(), YEAR_SECS);
    // the clock went backwards
    assert_eq!(cdp.mint(&mut ledgers, ALICE, 1, "M", YEAR_SECS - 1), Err(Error::TimeError));
}

#[test]
fn rate_formulas() {
    assert_eq!(rates::utilization_ratio(0, 0), 0);
    assert_eq!(rates::utilization_ratio(3, 1), 250_000_000);
    assert_eq!(rates::borrow_rate(0, 0), 25_000_000);
    assert_eq!(rates::borrow_rate(0, 10), 225_000_000);
    assert_eq!(rates::earn_rate(3, 1), 18_750_000);
    assert_eq!(rates::exchange_rate(40, 60, 1000), (100, 1000));
    assert_eq!(rates::exchange_rate(0, 0, 1000), (1, 50));
    assert_eq!(rates::interest(50, 125_000_000, YEAR_SECS), Some(6));
    assert_eq!(rates::interest(u64::MAX, u64::MAX, 2), None);
}

#[test]
fn unlisted_market_is_refused() {
    let (mut cdp, mut ledgers) = setup(1000);
    assert_eq!(cdp.mint(&mut ledgers, ALICE, 1, "X", 0), Err(Error::MarketNotListed));
    assert_eq!(cdp.borrow(&mut ledgers, ALICE, 1, "X", 0), Err(Error::MarketNotListed));
    assert_eq!(cdp.redeem(&mut ledgers, ALICE, 1, "X", 0), Err(Error::MarketNotListed));
    assert_eq!(cdp.repay_borrow(&mut ledgers, ALICE, 1, "X", 0), Err(Error::MarketNotListed));
    assert_eq!(cdp.change_price_oracle(ADMIN, "X", 2), Err(Error::MarketNotListed));
    assert_eq!(cdp.get_user_mm_position(ALICE, "X"), Err(Error::MarketNotListed));
    assert_eq!(cdp.get_market_info(&ledgers, "X"), Err(Error::MarketNotListed));
}

#[test]
fn admin_operations() {
    let (mut cdp, _ledgers) = setup(1000);
    assert_eq!(cdp.add_market(ALICE, "Z", 1, 0, 0), Err(Error::AdminPrivilegesRequired));
    assert_eq!(cdp.add_market(ADMIN, "M", 1, 0, 0), Err(Error::MarketAlreadyListed));
    assert_eq!(cdp.change_price_oracle(ALICE, "M", 3), Err(Error::AdminPrivilegesRequired));
    assert_eq!(cdp.change_collateral_factor(ALICE, "M", 50), Err(Error::AdminPrivilegesRequired));
    assert_eq!(cdp.change_price_oracle(ADMIN, "M", 3), Ok(()));
    assert_eq!(cdp.change_collateral_factor(ADMIN, "M", 50), Ok(()));
    let m = cdp.get_admin_market(ADMIN, "M").unwrap();
    assert_eq!((m.price_to_usd(), m.collateral_factor()), (3, 50));
    assert!(cdp.get_admin_market(ALICE, "M").is_err());
    assert_eq!(cdp.list_admin(), vec![ADMIN]);
    assert_eq!(cdp.cdp_addr(), CUSTODY);
    assert_eq!(cdp.market_count(), 2);
}

#[test]
fn market_level_errors() {
    let (mut cdp, mut ledgers) = setup(1000);
    // repaying without a position
    assert_eq!(cdp.repay_borrow(&mut ledgers, ALICE, 1, "M", 0), Err(Error::NoAccount));
    // minting more than one holds
    assert_eq!(
        cdp.mint(&mut ledgers, ALICE, 5000, "M", 0),
        Err(Error::Erc20Error { erc20_error: erc20::Error::InsufficientFunds { address: ALICE } })
    );
    cdp.mint(&mut ledgers, BOB, 1000, "N", 0).unwrap();
    // the pool of M holds nothing to lend
    assert_eq!(cdp.borrow(&mut ledgers, BOB, 10, "M", 0), Err(Error::InsufficientCash));
    // paying back more than is owed
    cdp.mint(&mut ledgers, ALICE, 100, "M", 0).unwrap();
    cdp.borrow(&mut ledgers, BOB, 10, "M", 0).unwrap();
    assert_eq!(cdp.repay_borrow(&mut ledgers, BOB, 11, "M", 0), Err(Error::ExcessRepayment));
    assert_eq!(cdp.repay_borrow(&mut ledgers, BOB, 10, "M", 0), Ok(()));
    // with nothing lent no interest accrues and the clock stays put
    cdp.mint(&mut ledgers, ALICE, 1, "M", 100).unwrap();
    assert_eq!(cdp.get_admin_market(ADMIN, "M").unwrap().last_checkpoint(), 0);
    // redeeming without a position, from a pool that has cash
    assert_eq!(cdp.redeem(&mut ledgers, 77, 1, "M", 100), Err(Error::InsufficientCollateral { shortfall: -1 }));
    assert_eq!(cdp.redeem(&mut ledgers, 77, 0, "M", 100), Err(Error::NoAccount));
}

#[test]
fn missing_ledger_and_supply() {
    let mut cdp = Cdp::new(ADMIN, CUSTODY);
    cdp.add_market(ADMIN, "Q", 1, 5, 0).unwrap();
    let mut ledgers: Vec<ERC20Token> = vec![];
    assert_eq!(cdp.mint(&mut ledgers, ALICE, 1, "Q", 0), Err(Error::NoLedger));
    let (mut cdp, mut ledgers) = setup(1000);
    cdp.mint(&mut ledgers, ALICE, 100, "M", 0).unwrap();
    ledgers[0].transfer(ADMIN, CUSTODY, 100_000).unwrap();
    // Alice's 5000 claims are now worth 100_100 underlying, 75% of it collateral
    assert_eq!(cdp.get_admin_market(ADMIN, "M").unwrap().total_supply(), 5000);
    assert_eq!(cdp.redeem(&mut ledgers, ALICE, 100_000, "M", 0), Err(Error::InsufficientCollateral { shortfall: -24_925 }));
}
