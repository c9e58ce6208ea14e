//! One money market: a pool of one token, its claim tokens, the accounts'
//! positions and the interest clock.
use vstd::prelude::*;

use vstd::arithmetic::div_mod::lemma_fundamental_div_mod;
use vstd::arithmetic::div_mod::lemma_fundamental_div_mod_converse;
use crate::collections::{
    position_entries, positions_contains, positions_get, positions_insert, positions_new, Positions,
};
use crate::erc20::{balance_in, can_transfer, transfer_error, transferred, ERC20Token};
use crate::error::Error;
use crate::rates::{
    borrow_rate, borrow_rate_spec, claims_for, earn_rate, earn_rate_spec, exchange_rate,
    exchange_rate_spec, interest, interest_spec, utilization_ratio, utilization_spec,
};
use crate::Address;

verus! {

/// Collateral factor of a new market, in percent.
pub const DEFAULT_COLLATERAL_FACTOR: u64 = 75;

/// One account's standing in one market.
#[derive(Debug, Clone, Copy, PartialEq, Eq, Structural)]
pub struct Position {
    /// Underlying the account may redeem.
    pub underlying_asset: u64,
    /// Claim tokens the account holds.
    pub otokens: u64,
    /// Principal the account owes.
    pub borrowed_asset: u64,
    /// When the position was opened.
    pub last_checkpoint: u64,
}

pub open spec fn zero_position() -> Position {
    Position { underlying_asset: 0, otokens: 0, borrowed_asset: 0, last_checkpoint: 0 }
}

impl Position {
    /// The position reported for an account that has none.
    pub fn empty() -> (r: Position)
        ensures
            r == zero_position(),
    {
        Position { underlying_asset: 0, otokens: 0, borrowed_asset: 0, last_checkpoint: 0 }
    }
}

/// What a market is, mathematically.
pub ghost struct MarketModel {
    pub name: Seq<char>,
    pub total_lent: u64,
    pub total_supply: u64,
    pub positions: Map<Address, Position>,
    /// Percent of a claim's value that counts as collateral.
    pub collateral_factor: u64,
    /// Index of the token ledger that backs the market.
    pub ledger: usize,
    pub price_to_usd: u64,
    pub last_checkpoint: u64,
}

impl MarketModel {
    pub open spec fn position(self, a: Address) -> Position {
        if self.positions.contains_key(a) {
            self.positions[a]
        } else {
            zero_position()
        }
    }

    /// The exchange rate when the pool holds `cash`.
    pub open spec fn rate(self, cash: nat) -> (nat, nat) {
        exchange_rate_spec(cash, self.total_lent as nat, self.total_supply as nat)
    }

    /// Interest accrual at time `now` with `cash` in the pool: the accrued
    /// market, or why it cannot be done.
    pub open spec fn accrue(self, cash: nat, now: u64) -> Result<MarketModel, Error> {
        if now < self.last_checkpoint {
            Err(Error::TimeError)
        } else {
            let rate = borrow_rate_spec(cash, self.total_lent as nat);
            let elapsed = (now - self.last_checkpoint) as nat;
            if self.total_lent * rate * elapsed > u128::MAX {
                Err(Error::Overflow)
            } else {
                let i = interest_spec(self.total_lent as nat, rate, elapsed);
                if i == 0 {
                    Ok(self)
                } else if self.total_lent + i > u64::MAX {
                    Err(Error::Overflow)
                } else {
                    Ok(MarketModel { total_lent: (self.total_lent + i) as u64, last_checkpoint: now, ..self })
                }
            }
        }
    }

    pub open spec fn accrue_outcome(self, cash: nat, now: u64) -> (Result<(), Error>, MarketModel) {
        match self.accrue(cash, now) {
            Ok(a) => (Ok(()), a),
            Err(e) => (Err(e), self),
        }
    }

    /// `a` opens a position with the given amounts at time `now`.
    pub open spec fn opened(self, a: Address, underlying: u64, otokens: u64, borrowed: u64, now: u64) -> MarketModel {
        MarketModel {
            positions: self.positions.insert(
                a,
                Position { underlying_asset: underlying, otokens, borrowed_asset: borrowed, last_checkpoint: now },
            ),
            ..self
        }
    }

    /// `a` deposits `amount` and receives `minted` claim tokens.
    pub open spec fn deposited(self, a: Address, amount: u64, minted: nat, now: u64) -> MarketModel {
        let p = self.positions[a];
        let m = if self.positions.contains_key(a) {
            MarketModel {
                positions: self.positions.insert(
                    a,
                    Position {
                        otokens: (p.otokens + minted) as u64,
                        underlying_asset: (p.underlying_asset + amount) as u64,
                        ..p
                    },
                ),
                ..self
            }
        } else {
            self.opened(a, amount, minted as u64, 0, now)
        };
        MarketModel { total_supply: (self.total_supply + minted) as u64, ..m }
    }

    /// `a` withdraws `amount` of underlying and gives up `burned` claim tokens.
    pub open spec fn withdrawn(self, a: Address, amount: u64, burned: nat) -> MarketModel {
        let p = self.positions[a];
        MarketModel {
            positions: self.positions.insert(
                a,
                Position {
                    otokens: (p.otokens - burned) as u64,
                    underlying_asset: (p.underlying_asset - amount) as u64,
                    ..p
                },
            ),
            total_supply: (self.total_supply - burned) as u64,
            ..self
        }
    }

    /// `a` borrows `amount`.
    pub open spec fn lent_out(self, a: Address, amount: u64, now: u64) -> MarketModel {
        let p = self.positions[a];
        let m = if self.positions.contains_key(a) {
            MarketModel {
                positions: self.positions.insert(
                    a,
                    Position { borrowed_asset: (p.borrowed_asset + amount) as u64, ..p },
                ),
                ..self
            }
        } else {
            self.opened(a, 0, 0, amount, now)
        };
        MarketModel { total_lent: (self.total_lent + amount) as u64, ..m }
    }

    /// `a` pays back `amount`.
    pub open spec fn repaid(self, a: Address, amount: u64) -> MarketModel {
        let p = self.positions[a];
        MarketModel {
            positions: self.positions.insert(
                a,
                Position { borrowed_asset: (p.borrowed_asset - amount) as u64, ..p },
            ),
            total_lent: (self.total_lent - amount) as u64,
            ..self
        }
    }

    /// Mint by `sender` of `amount`, where `bal` are the token balances and
    /// `this` the market's custody account: result, market and balances after.
    pub open spec fn mint_outcome(
        self,
        bal: Map<Address, u64>,
        sender: Address,
        this: Address,
        amount: u64,
        now: u64,
    ) -> (Result<(), Error>, MarketModel, Map<Address, u64>) {
        let cash = balance_in(bal, this);
        match self.accrue(cash, now) {
            Err(e) => (Err(e), self, bal),
            Ok(a) => {
                let minted = claims_for(amount as nat, a.rate(cash));
                let p = a.position(sender);
                if minted > u64::MAX || a.total_supply + minted > u64::MAX || p.otokens + minted
                    > u64::MAX || p.underlying_asset + amount > u64::MAX {
                    (Err(Error::Overflow), a, bal)
                } else if !can_transfer(bal, sender, this, amount) {
                    (Err(Error::Erc20Error { erc20_error: transfer_error(bal, sender, amount) }), a, bal)
                } else {
                    (Ok(()), a.deposited(sender, amount, minted, now), transferred(bal, sender, this, amount))
                }
            },
        }
    }

    /// Redemption by `sender` of `amount` of underlying.
    pub open spec fn redeem_outcome(
        self,
        bal: Map<Address, u64>,
        sender: Address,
        this: Address,
        amount: u64,
        now: u64,
    ) -> (Result<(), Error>, MarketModel, Map<Address, u64>) {
        let cash = balance_in(bal, this);
        match self.accrue(cash, now) {
            Err(e) => (Err(e), self, bal),
            Ok(a) => {
                let burned = claims_for(amount as nat, a.rate(cash));
                let p = a.positions[sender];
                if a.total_supply < burned {
                    (Err(Error::InsufficientSupply), a, bal)
                } else if cash < amount {
                    (Err(Error::InsufficientCash), a, bal)
                } else if !a.positions.contains_key(sender) {
                    (Err(Error::NoAccount), a, bal)
                } else if p.underlying_asset < amount {
                    (Err(Error::InsufficientUnderlying { underlying: p.underlying_asset }), a, bal)
                } else if p.otokens < burned {
                    (Err(Error::InsufficientClaims { claims: p.otokens }), a, bal)
                } else if !can_transfer(bal, this, sender, amount) {
                    (Err(Error::Erc20Error { erc20_error: transfer_error(bal, this, amount) }), a, bal)
                } else {
                    (Ok(()), a.withdrawn(sender, amount, burned), transferred(bal, this, sender, amount))
                }
            },
        }
    }

    /// Borrowing of `amount` by `sender`.
    pub open spec fn borrow_outcome(
        self,
        bal: Map<Address, u64>,
        sender: Address,
        this: Address,
        amount: u64,
        now: u64,
    ) -> (Result<(), Error>, MarketModel, Map<Address, u64>) {
        let cash = balance_in(bal, this);
        match self.accrue(cash, now) {
            Err(e) => (Err(e), self, bal),
            Ok(a) => {
                if cash < amount {
                    (Err(Error::InsufficientCash), a, bal)
                } else if a.position(sender).borrowed_asset + amount > u64::MAX || a.total_lent
                    + amount > u64::MAX {
                    (Err(Error::Overflow), a, bal)
                } else if !can_transfer(bal, this, sender, amount) {
                    (Err(Error::Erc20Error { erc20_error: transfer_error(bal, this, amount) }), a, bal)
                } else {
                    (Ok(()), a.lent_out(sender, amount, now), transferred(bal, this, sender, amount))
                }
            },
        }
    }

    /// Repayment of `amount` by `sender`.
    pub open spec fn repay_outcome(
        self,
        bal: Map<Address, u64>,
        sender: Address,
        this: Address,
        amount: u64,
        now: u64,
    ) -> (Result<(), Error>, MarketModel, Map<Address, u64>) {
        let cash = balance_in(bal, this);
        match self.accrue(cash, now) {
            Err(e) => (Err(e), self, bal),
            Ok(a) => {
                if !a.positions.contains_key(sender) {
                    (Err(Error::NoAccount), a, bal)
                } else if a.positions[sender].borrowed_asset < amount || a.total_lent < amount {
                    (Err(Error::ExcessRepayment), a, bal)
                } else if !can_transfer(bal, sender, this, amount) {
                    (Err(Error::Erc20Error { erc20_error: transfer_error(bal, sender, amount) }), a, bal)
                } else {
                    (Ok(()), a.repaid(sender, amount), transferred(bal, sender, this, amount))
                }
            },
        }
    }
}

/// The four operations a market performs for an account.
#[derive(Debug, Clone, Copy, PartialEq, Eq, Structural)]
pub enum MarketOp {
    Mint,
    Redeem,
    Borrow,
    Repay,
}

impl MarketModel {
    /// The outcome of `op`: result, market and token balances after.
    pub open spec fn outcome(
        self,
        op: MarketOp,
        bal: Map<Address, u64>,
        sender: Address,
        this: Address,
        amount: u64,
        now: u64,
    ) -> (Result<(), Error>, MarketModel, Map<Address, u64>) {
        match op {
            MarketOp::Mint => self.mint_outcome(bal, sender, this, amount, now),
            MarketOp::Redeem => self.redeem_outcome(bal, sender, this, amount, now),
            MarketOp::Borrow => self.borrow_outcome(bal, sender, this, amount, now),
            MarketOp::Repay => self.repay_outcome(bal, sender, this, amount, now),
        }
    }
}

/// Everything but the balances of a token is as it was.
pub open spec fn token_frame(t0: &ERC20Token, t1: &ERC20Token) -> bool {
    &&& t1.supply() == t0.supply()
    &&& t1.admin_list() == t0.admin_list()
    &&& t1.allowances() == t0.allowances()
    &&& t1.owner_addr() == t0.owner_addr()
}

pub struct MoneyMarket {
    name: String,
    total_lent: u64,
    total_supply: u64,
    account_position: Positions,
    collateral_factor: u64,
    erc20_addr: usize,
    price_to_usd: u64,
    last_checkpoint: u64,
}

impl View for MoneyMarket {
    type V = MarketModel;

    closed spec fn view(&self) -> MarketModel {
        MarketModel {
            name: self.name@,
            total_lent: self.total_lent,
            total_supply: self.total_supply,
            positions: position_entries(self.account_position),
            collateral_factor: self.collateral_factor,
            ledger: self.erc20_addr,
            price_to_usd: self.price_to_usd,
            last_checkpoint: self.last_checkpoint,
        }
    }
}

impl MoneyMarket {
    /// An empty market for the token at ledger index `token_addr`.
    pub fn new(name: String, token_addr: usize, price: u64, now: u64) -> (r: Self)
        ensures
            r@ == (MarketModel {
                name: name@,
                total_lent: 0,
                total_supply: 0,
                positions: Map::empty(),
                collateral_factor: DEFAULT_COLLATERAL_FACTOR,
                ledger: token_addr,
                price_to_usd: price,
                last_checkpoint: now,
            }),
    {
        let account_position = positions_new();
        let r = MoneyMarket {
            name,
            total_lent: 0,
            total_supply: 0,
            account_position,
            collateral_factor: DEFAULT_COLLATERAL_FACTOR,
            erc20_addr: token_addr,
            price_to_usd: price,
            last_checkpoint: now,
        };
        proof {
            assert(r@.positions =~= Map::empty());
        }
        r
    }

    pub fn name(&self) -> (r: &String)
        ensures
            r@ == self@.name,
    {
        &self.name
    }

    pub fn erc20_addr(&self) -> (r: usize)
        ensures
            r == self@.ledger,
    {
        self.erc20_addr
    }

    pub fn price_to_usd(&self) -> (r: u64)
        ensures
            r == self@.price_to_usd,
    {
        self.price_to_usd
    }

    pub fn collateral_factor(&self) -> (r: u64)
        ensures
            r == self@.collateral_factor,
    {
        self.collateral_factor
    }

    pub fn total_lent(&self) -> (r: u64)
        ensures
            r == self@.total_lent,
    {
        self.total_lent
    }

    pub fn total_supply(&self) -> (r: u64)
        ensures
            r == self@.total_supply,
    {
        self.total_supply
    }

    pub fn last_checkpoint(&self) -> (r: u64)
        ensures
            r == self@.last_checkpoint,
    {
        self.last_checkpoint
    }

    /// The position of `a`, if it has one.
    pub fn position(&self, a: Address) -> (r: Option<Position>)
        ensures
            r == (if self@.positions.contains_key(a) {
                Some(self@.positions[a])
            } else {
                None::<Position>
            }),
    {
        positions_get(&self.account_position, a)
    }

    pub(crate) fn set_price_to_usd(&mut self, price: u64)
        ensures
            final(self)@ == (MarketModel { price_to_usd: price, ..old(self)@ }),
    {
        self.price_to_usd = price;
    }

    pub(crate) fn set_collateral_factor(&mut self, factor: u64)
        ensures
            final(self)@ == (MarketModel { collateral_factor: factor, ..old(self)@ }),
    {
        self.collateral_factor = factor;
    }

    /// What the market holds of its token: the balance of its custody account.
    pub fn get_total_cash(&self, token: &ERC20Token, this: Address) -> (r: u64)
        ensures
            r == token.balance(this),
    {
        match token.balance_of_contract(this) {
            Ok(c) => c,
            Err(_) => 0,
        }
    }

    /// Underlying per claim token, as numerator and denominator.
    pub fn get_exchange_rate(&self, token: &ERC20Token, this: Address) -> (r: (u128, u128))
        ensures
            (r.0 as nat, r.1 as nat) == self@.rate(token.balance(this)),
            self@.total_supply == 0 ==> r == (1u128, 50u128),
            r.0 > 0,
            r.1 > 0,
            r.1 <= u64::MAX,
    {
        let cash = self.get_total_cash(token, this);
        exchange_rate(cash, self.total_lent, self.total_supply)
    }

    /// The share of the pool that is lent out, scaled by `RATE_SCALE`.
    pub fn get_utilization_ratio(&self, token: &ERC20Token, this: Address) -> (r: u64)
        ensures
            r == utilization_spec(token.balance(this), self@.total_lent as nat),
    {
        utilization_ratio(self.get_total_cash(token, this), self.total_lent)
    }

    /// The yearly borrow rate, scaled by `RATE_SCALE`.
    pub fn get_borrow_rate(&self, token: &ERC20Token, this: Address) -> (r: u64)
        ensures
            r == borrow_rate_spec(token.balance(this), self@.total_lent as nat),
    {
        borrow_rate(self.get_total_cash(token, this), self.total_lent)
    }

    /// The yearly rate suppliers earn, scaled by `RATE_SCALE`.
    pub fn get_earn_rate(&self, token: &ERC20Token, this: Address) -> (r: u64)
        ensures
            r == earn_rate_spec(token.balance(this), self@.total_lent as nat),
    {
        earn_rate(self.get_total_cash(token, this), self.total_lent)
    }

    /// Exchange rate, borrow rate, earn rate and utilisation ratio.
    pub fn get_rates(&self, token: &ERC20Token, this: Address) -> (r: ((u128, u128), u64, u64, u64))
        ensures
            (r.0.0 as nat, r.0.1 as nat) == self@.rate(token.balance(this)),
            r.1 == borrow_rate_spec(token.balance(this), self@.total_lent as nat),
            r.2 == earn_rate_spec(token.balance(this), self@.total_lent as nat),
            r.3 == utilization_spec(token.balance(this), self@.total_lent as nat),
    {
        (
            self.get_exchange_rate(token, this),
            self.get_borrow_rate(token, this),
            self.get_earn_rate(token, this),
            self.get_utilization_ratio(token, this),
        )
    }

    /// Adds the interest due since the last accrual to what is lent out.
    fn _accrue_interest(&mut self, cash: u64, now: u64) -> (r: Result<(), Error>)
        ensures
            (r, final(self)@) == old(self)@.accrue_outcome(cash as nat, now),
    {
        if now < self.last_checkpoint {
            return Err(Error::TimeError);
        }
        let rate = borrow_rate(cash, self.total_lent);
        let elapsed = now - self.last_checkpoint;
        match interest(self.total_lent, rate, elapsed) {
            None => Err(Error::Overflow),
            Some(i) => {
                if i == 0 {
                    Ok(())
                } else if i > (u64::MAX - self.total_lent) as u128 {
                    Err(Error::Overflow)
                } else {
                    self.total_lent = self.total_lent + i as u64;
                    self.last_checkpoint = now;
                    Ok(())
                }
            },
        }
    }

    /// Opens a position for `a` with the given amounts.
    fn _open_account(&mut self, a: Address, underlying_amt: u64, otoks: u64, borrowed_amt: u64, now: u64) -> (r: Result<(), Error>)
        ensures
            old(self)@.positions.contains_key(a) ==> r == Err::<(), Error>(Error::AccountAlreadyOpened)
                && final(self)@ == old(self)@,
            !old(self)@.positions.contains_key(a) ==> r is Ok && final(self)@ == old(self)@.opened(
                a,
                underlying_amt,
                otoks,
                borrowed_amt,
                now,
            ),
    {
        if positions_contains(&self.account_position, a) {
            return Err(Error::AccountAlreadyOpened);
        }
        positions_insert(
            &mut self.account_position,
            a,
            Position { underlying_asset: underlying_amt, otokens: otoks, borrowed_asset: borrowed_amt, last_checkpoint: now },
        );
        Ok(())
    }

    /// Claim tokens worth `amount` at the rate `num / den`.
    fn claims_at(amount: u64, num: u128, den: u128) -> (r: u128)
        requires
            num > 0,
            den <= u64::MAX,
        ensures
            r == claims_for(amount as nat, (num as nat, den as nat)),
    {
        proof {
            assert(amount * den <= u64::MAX * u64::MAX) by (nonlinear_arith)
                requires
                    amount <= u64::MAX,
                    den <= u64::MAX,
            ;
        }
        amount as u128 * den / num
    }

    /// `sender` deposits `amount` of the token and receives claim tokens at
    /// the current exchange rate. The token moves before the books change.
    pub fn _mint(&mut self, token: &mut ERC20Token, sender: Address, this: Address, amount: u64, now: u64) -> (r: Result<(), Error>)
        ensures
            (r, final(self)@, final(token).balances()) == old(self)@.mint_outcome(
                old(token).balances(),
                sender,
                this,
                amount,
                now,
            ),
            token_frame(old(token), final(token)),
    {
        let cash = self.get_total_cash(token, this);
        match self._accrue_interest(cash, now) {
            Ok(()) => {},
            Err(e) => return Err(e),
        }
        let (num, den) = self.get_exchange_rate(token, this);
        let minted_wide = Self::claims_at(amount, num, den);
        if minted_wide > u64::MAX as u128 {
            return Err(Error::Overflow);
        }
        let minted = minted_wide as u64;
        if minted > u64::MAX - self.total_supply {
            return Err(Error::Overflow);
        }
        let existing = self.position(sender);
        let pos = match existing {
            Some(p) => p,
            None => Position::empty(),
        };
        if minted > u64::MAX - pos.otokens || amount > u64::MAX - pos.underlying_asset {
            return Err(Error::Overflow);
        }
        match token.transfer_to_from(sender, this, amount) {
            Ok(_) => {},
            Err(e) => return Err(Error::Erc20Error { erc20_error: e }),
        }
        match existing {
            Some(p) => {
                positions_insert(
                    &mut self.account_position,
                    sender,
                    Position { otokens: p.otokens + minted, underlying_asset: p.underlying_asset + amount, ..p },
                );
            },
            None => {
                match self._open_account(sender, amount, minted, 0, now) {
                    Ok(()) => {},
                    Err(e) => return Err(e),
                }
            },
        }
        self.total_supply = self.total_supply + minted;
        Ok(())
    }

    /// `sender` takes back `amount` of underlying, giving up the claim tokens
    /// it is worth at the current exchange rate.
    pub fn _redeem(&mut self, token: &mut ERC20Token, sender: Address, this: Address, amount: u64, now: u64) -> (r: Result<(), Error>)
        ensures
            (r, final(self)@, final(token).balances()) == old(self)@.redeem_outcome(
                old(token).balances(),
                sender,
                this,
                amount,
                now,
            ),
            token_frame(old(token), final(token)),
    {
        let cash = self.get_total_cash(token, this);
        match self._accrue_interest(cash, now) {
            Ok(()) => {},
            Err(e) => return Err(e),
        }
        let (num, den) = self.get_exchange_rate(token, this);
        let burned_wide = Self::claims_at(amount, num, den);
        if (self.total_supply as u128) < burned_wide {
            return Err(Error::InsufficientSupply);
        }
        let burned = burned_wide as u64;
        if cash < amount {
            return Err(Error::InsufficientCash);
        }
        let p = match self.position(sender) {
            Some(p) => p,
            None => return Err(Error::NoAccount),
        };
        if p.underlying_asset < amount {
            return Err(Error::InsufficientUnderlying { underlying: p.underlying_asset });
        }
        if p.otokens < burned {
            return Err(Error::InsufficientClaims { claims: p.otokens });
        }
        match token.transfer_to_from(this, sender, amount) {
            Ok(_) => {},
            Err(e) => return Err(Error::Erc20Error { erc20_error: e }),
        }
        positions_insert(
            &mut self.account_position,
            sender,
            Position { otokens: p.otokens - burned, underlying_asset: p.underlying_asset - amount, ..p },
        );
        self.total_supply = self.total_supply - burned;
        Ok(())
    }

    /// `sender` borrows `amount` from the pool. Collateral is not checked
    /// here: it may stand in other markets.
    pub fn _borrow(&mut self, token: &mut ERC20Token, sender: Address, this: Address, amount: u64, now: u64) -> (r: Result<(), Error>)
        ensures
            (r, final(self)@, final(token).balances()) == old(self)@.borrow_outcome(
                old(token).balances(),
                sender,
                this,
                amount,
                now,
            ),
            token_frame(old(token), final(token)),
    {
        let cash = self.get_total_cash(token, this);
        match self._accrue_interest(cash, now) {
            Ok(()) => {},
            Err(e) => return Err(e),
        }
        if cash < amount {
            return Err(Error::InsufficientCash);
        }
        let existing = self.position(sender);
        let owed = match existing {
            Some(p) => p.borrowed_asset,
            None => 0,
        };
        if amount > u64::MAX - owed || amount > u64::MAX - self.total_lent {
            return Err(Error::Overflow);
        }
        match token.transfer_to_from(this, sender, amount) {
            Ok(_) => {},
            Err(e) => return Err(Error::Erc20Error { erc20_error: e }),
        }
        match existing {
            Some(p) => {
                positions_insert(&mut self.account_position, sender, Position { borrowed_asset: p.borrowed_asset + amount, ..p });
            },
            None => {
                match self._open_account(sender, 0, 0, amount, now) {
                    Ok(()) => {},
                    Err(e) => return Err(e),
                }
            },
        }
        self.total_lent = self.total_lent + amount;
        Ok(())
    }

    /// `sender` pays back `amount` of what it owes.
    pub fn _repay_borrow(&mut self, token: &mut ERC20Token, sender: Address, this: Address, amount: u64, now: u64) -> (r: Result<(), Error>)
        ensures
            (r, final(self)@, final(token).balances()) == old(self)@.repay_outcome(
                old(token).balances(),
                sender,
                this,
                amount,
                now,
            ),
            token_frame(old(token), final(token)),
    {
        let cash = self.get_total_cash(token, this);
        match self._accrue_interest(cash, now) {
            Ok(()) => {},
            Err(e) => return Err(e),
        }
        let p = match self.position(sender) {
            Some(p) => p,
            None => return Err(Error::NoAccount),
        };
        if p.borrowed_asset < amount || self.total_lent < amount {
            return Err(Error::ExcessRepayment);
        }
        match token.transfer_to_from(sender, this, amount) {
            Ok(_) => {},
            Err(e) => return Err(Error::Erc20Error { erc20_error: e }),
        }
        positions_insert(&mut self.account_position, sender, Position { borrowed_asset: p.borrowed_asset - amount, ..p });
        self.total_lent = self.total_lent - amount;
        Ok(())
    }

    /// Liquidation is not offered: the call changes nothing.
    pub fn liquidate(&mut self) -> (r: Result<(), Error>)
        ensures
            r is Ok,
            final(self)@ == old(self)@,
    {
        Ok(())
    }
}

/// Claims bought for `x` at the rate `r / s` are exactly the claims that `x`
/// buys back once the pool holds `r + x` against `s` plus those claims.
proof fn lemma_claims_round_trip(x: nat, s: nat, r: nat)
    requires
        r > 0,
    ensures
        x * (s + x * s / r) / (r + x) == x * s / r,
{
    let m = x * s / r;
    lemma_fundamental_div_mod((x * s) as int, r as int);
    let rem = x * s - r * m;
    assert(0 <= rem < r);
    let lhs = x * (s + m);
    let d = r + x;
    assert(m * d <= lhs && lhs < m * d + d) by (nonlinear_arith)
        requires
            x * s == r * m + rem,
            0 <= rem < r,
            x >= 0,
            m >= 0,
            lhs == x * (s + m),
            d == r + x,
    ;
    lemma_fundamental_div_mod_converse(lhs as int, d as int, m as int, lhs - m * d);
}

/// With no time elapsed accrual changes nothing.
proof fn lemma_accrue_idle(m: MarketModel, cash: nat)
    ensures
        m.accrue(cash, m.last_checkpoint) == Ok::<MarketModel, Error>(m),
{
    let rate = borrow_rate_spec(cash, m.total_lent as nat);
    assert(m.total_lent * rate * 0 == 0) by (nonlinear_arith);
}

/// Minting `amount` and at once redeeming `amount`, with no time elapsed in
/// between, succeeds and gives `sender` back the claim tokens and underlying
/// it had, leaves the market's supply and lending as they were, and leaves
/// every token balance as it was. This holds where the exchange rate is the
/// initial one both before and after the mint (an empty pool with no supply)
/// or a ratio of pool to supply both times (a pool and a supply).
pub proof fn lemma_mint_redeem_round_trip(m: MarketModel, bal: Map<Address, u64>, sender: Address, this: Address, amount: u64)
    requires
        sender != this,
        m.mint_outcome(bal, sender, this, amount, m.last_checkpoint).0 is Ok,
        (m.total_supply == 0 && balance_in(bal, this) + m.total_lent == 0) || (m.total_supply > 0
            && balance_in(bal, this) + m.total_lent > 0),
    ensures
        ({
            let now = m.last_checkpoint;
            let minted = m.mint_outcome(bal, sender, this, amount, now);
            let redeemed = minted.1.redeem_outcome(minted.2, sender, this, amount, now);
            &&& redeemed.0 is Ok
            &&& redeemed.1.position(sender).otokens == m.position(sender).otokens
            &&& redeemed.1.position(sender).underlying_asset == m.position(sender).underlying_asset
            &&& redeemed.1.position(sender).borrowed_asset == m.position(sender).borrowed_asset
            &&& redeemed.1.total_supply == m.total_supply
            &&& redeemed.1.total_lent == m.total_lent
            &&& forall|x: Address| balance_in(redeemed.2, x) == balance_in(bal, x)
        }),
{
    let now = m.last_checkpoint;
    let cash = balance_in(bal, this);
    lemma_accrue_idle(m, cash);
    let rate0 = m.rate(cash);
    let minted = claims_for(amount as nat, rate0);
    let m1 = m.deposited(sender, amount, minted, now);
    let bal1 = transferred(bal, sender, this, amount);
    assert(m.mint_outcome(bal, sender, this, amount, now) == (Ok::<(), Error>(()), m1, bal1));
    let cash1 = balance_in(bal1, this);
    assert(cash1 == cash + amount);
    lemma_accrue_idle(m1, cash1);
    assert(m1.last_checkpoint == now);
    let rate1 = m1.rate(cash1);
    let burned = claims_for(amount as nat, rate1);
    if m.total_supply == 0 {
        assert(minted == amount * 50) by {
            assert(rate0 == (1nat, 50nat));
        }
        if amount == 0 {
            assert(burned == 0);
        } else {
            assert(rate1 == (amount as nat, (amount * 50) as nat));
            assert(burned == (amount * (amount * 50)) as nat / (amount as nat));
            assert(amount * (amount * 50) == (amount * 50) * amount) by (nonlinear_arith);
            vstd::arithmetic::div_mod::lemma_div_multiples_vanish((amount * 50) as int, amount as int);
        }
    } else {
        let r0: nat = cash + m.total_lent as nat;
        assert(rate0 == (r0, m.total_supply as nat));
        lemma_claims_round_trip(amount as nat, m.total_supply as nat, r0);
        assert(rate1 == ((r0 + amount) as nat, (m.total_supply + minted) as nat));
    }
    assert(burned == minted);
    let p1 = m1.positions[sender];
    assert(p1.underlying_asset == m.position(sender).underlying_asset + amount);
    assert(p1.otokens == m.position(sender).otokens + minted);
    let m2 = m1.withdrawn(sender, amount, burned);
    let bal2 = transferred(bal1, this, sender, amount);
    assert(m1.redeem_outcome(bal1, sender, this, amount, now) == (Ok::<(), Error>(()), m2, bal2));
    assert forall|x: Address| balance_in(bal2, x) == balance_in(bal, x) by {}
}

/// Redeeming more than the underlying that `sender`'s position records fails
/// with `InsufficientUnderlying`, however much the pool holds, once the
/// pool-wide checks that come first pass (enough claim supply and cash).
pub proof fn lemma_redeem_beyond_underlying(m: MarketModel, bal: Map<Address, u64>, sender: Address, this: Address, amount: u64, now: u64)
    requires
        m.accrue(balance_in(bal, this), now) is Ok,
        ({
            let a = m.accrue(balance_in(bal, this), now)->Ok_0;
            &&& a.positions.contains_key(sender)
            &&& a.positions[sender].underlying_asset < amount
            &&& claims_for(amount as nat, a.rate(balance_in(bal, this))) <= a.total_supply
        }),
        balance_in(bal, this) >= amount,
    ensures
        ({
            let a = m.accrue(balance_in(bal, this), now)->Ok_0;
            m.redeem_outcome(bal, sender, this, amount, now) == (
                Err::<(), Error>(Error::InsufficientUnderlying { underlying: a.positions[sender].underlying_asset }),
                a,
                bal,
            )
        }),
{
}

} // verus!
