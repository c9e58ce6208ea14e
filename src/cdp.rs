//! The registry: the listed markets, the admins, and the cross-market
//! solvency check that gates borrowing and redemption.
use vstd::prelude::*;

use crate::collections::{set_contains, set_insert, set_items, set_new, set_to_vec, AddressSet};
use crate::erc20::ERC20Token;
use crate::error::Error;
use crate::market::{token_frame, MarketModel, MarketOp, MoneyMarket, Position, DEFAULT_COLLATERAL_FACTOR};
use crate::rates::{
    borrow_rate, borrow_rate_spec, earn_rate, earn_rate_spec, exchange_rate, utilization_ratio,
    utilization_spec,
};
use crate::Address;

verus! {

/// The most markets a registry lists.
pub const MAX_MARKETS: usize = 65536;

/// Bound on aggregate USD figures, so that their difference fits in `i128`.
pub const VALUE_LIMIT: u128 = 0x7fff_ffff_ffff_ffff_ffff_ffff_ffff_ffff;

/// What the token ledgers show the custody account `this` holding for `m`;
/// a market whose ledger is missing holds nothing.
pub open spec fn cash_of(ledgers: Seq<ERC20Token>, m: MarketModel, this: Address) -> nat {
    if m.ledger < ledgers.len() {
        ledgers[m.ledger as int].balance(this)
    } else {
        0
    }
}

/// `collateral_factor * price * claims * rate numerator`, before dividing by
/// `100 * rate denominator`.
pub open spec fn collateral_product(m: MarketModel, cash: nat, a: Address) -> nat {
    (m.collateral_factor as nat) * (m.price_to_usd as nat) * (m.position(a).otokens as nat) * m.rate(cash).0
}

/// USD collateral that `a`'s claims in `m` are worth.
pub open spec fn collateral_value(m: MarketModel, cash: nat, a: Address) -> nat {
    collateral_product(m, cash, a) / (100 * m.rate(cash).1)
}

/// USD value of what `a` owes in `m`.
pub open spec fn borrow_value(m: MarketModel, a: Address) -> nat {
    (m.price_to_usd as nat) * (m.position(a).borrowed_asset as nat)
}

pub open spec fn sum_collateral(ms: Seq<MarketModel>, ledgers: Seq<ERC20Token>, this: Address, a: Address) -> nat
    decreases ms.len(),
{
    if ms.len() == 0 {
        0
    } else {
        sum_collateral(ms.drop_last(), ledgers, this, a) + collateral_value(
            ms.last(),
            cash_of(ledgers, ms.last(), this),
            a,
        )
    }
}

pub open spec fn sum_borrow(ms: Seq<MarketModel>, a: Address) -> nat
    decreases ms.len(),
{
    if ms.len() == 0 {
        0
    } else {
        sum_borrow(ms.drop_last(), a) + borrow_value(ms.last(), a)
    }
}

/// The registry, mathematically.
pub ghost struct CdpModel {
    pub admins: Seq<Address>,
    pub markets: Seq<MarketModel>,
    /// The custody account that holds the markets' tokens.
    pub addr: Address,
}

impl CdpModel {
    pub open spec fn is_admin(self, a: Address) -> bool {
        self.admins.contains(a)
    }

    pub open spec fn listed(self, name: Seq<char>) -> bool {
        exists|i: int| 0 <= i < self.markets.len() && self.markets[i].name == name
    }

    /// The index of the market called `name`, where it is listed.
    pub open spec fn index_of(self, name: Seq<char>) -> int {
        choose|i: int| 0 <= i < self.markets.len() && self.markets[i].name == name
    }

    pub open spec fn wf(self) -> bool {
        &&& self.markets.len() <= MAX_MARKETS
        &&& forall|i: int, j: int|
            0 <= i < j < self.markets.len() ==> self.markets[i].name != self.markets[j].name
    }

    pub open spec fn collateral(self, ledgers: Seq<ERC20Token>, a: Address) -> nat {
        sum_collateral(self.markets, ledgers, self.addr, a)
    }

    pub open spec fn borrowed(self, a: Address) -> nat {
        sum_borrow(self.markets, a)
    }

    /// Every figure of the aggregation fits its integer type.
    pub open spec fn sums_fit(self, ledgers: Seq<ERC20Token>, a: Address) -> bool {
        &&& forall|i: int|
            0 <= i < self.markets.len() ==> #[trigger] collateral_product(
                self.markets[i],
                cash_of(ledgers, self.markets[i], self.addr),
                a,
            ) <= u128::MAX
        &&& self.collateral(ledgers, a) <= VALUE_LIMIT
        &&& self.borrowed(a) <= VALUE_LIMIT
    }

    /// USD effect of taking `amount` out of the market called `name`;
    /// nothing where no such market is listed.
    pub open spec fn takeout_effect(self, amount: u64, name: Seq<char>) -> nat {
        if self.listed(name) {
            (self.markets[self.index_of(name)].price_to_usd as nat) * (amount as nat)
        } else {
            0
        }
    }

    pub open spec fn hypo_fits(self, ledgers: Seq<ERC20Token>, a: Address, amount: u64, name: Seq<char>) -> bool {
        self.sums_fit(ledgers, a) && self.borrowed(a) + self.takeout_effect(amount, name) <= VALUE_LIMIT
    }

    /// Collateral less borrowing after taking `amount` out of `name`.
    pub open spec fn hypo_liquidity(self, ledgers: Seq<ERC20Token>, a: Address, amount: u64, name: Seq<char>) -> int {
        self.collateral(ledgers, a) - (self.borrowed(a) + self.takeout_effect(amount, name))
    }
}

impl CdpModel {
    /// `op` by `sender` on the market called `name` took the registry from
    /// `self` to `after` and the ledgers from `l0` to `l1`, returning `r`.
    pub open spec fn applied(
        self,
        after: CdpModel,
        l0: Seq<ERC20Token>,
        l1: Seq<ERC20Token>,
        r: Result<(), Error>,
        op: MarketOp,
        sender: Address,
        amount: u64,
        name: Seq<char>,
        now: u64,
    ) -> bool {
        if !self.listed(name) {
            r == Err::<(), Error>(Error::MarketNotListed) && after == self && l1 == l0
        } else {
            let i = self.index_of(name);
            let m = self.markets[i];
            if m.ledger >= l0.len() {
                r == Err::<(), Error>(Error::NoLedger) && after == self && l1 == l0
            } else {
                let out = m.outcome(op, l0[m.ledger as int].balances(), sender, self.addr, amount, now);
                &&& r == out.0
                &&& after == CdpModel { markets: self.markets.update(i, out.1), ..self }
                &&& ledger_updated(l0, l1, m.ledger as int, out.2)
            }
        }
    }

    /// As `applied`, after the solvency check: an operation that would leave
    /// `sender` with negative liquidity is refused and changes nothing.
    pub open spec fn gated(
        self,
        after: CdpModel,
        l0: Seq<ERC20Token>,
        l1: Seq<ERC20Token>,
        r: Result<(), Error>,
        op: MarketOp,
        sender: Address,
        amount: u64,
        name: Seq<char>,
        now: u64,
    ) -> bool {
        if !self.listed(name) {
            r == Err::<(), Error>(Error::MarketNotListed) && after == self && l1 == l0
        } else if !self.hypo_fits(l0, sender, amount, name) {
            r == Err::<(), Error>(Error::Overflow) && after == self && l1 == l0
        } else if self.hypo_liquidity(l0, sender, amount, name) < 0 {
            &&& r == Err::<(), Error>(
                Error::InsufficientCollateral {
                    shortfall: self.hypo_liquidity(l0, sender, amount, name) as i128,
                },
            )
            &&& after == self
            &&& l1 == l0
        } else {
            self.applied(after, l0, l1, r, op, sender, amount, name, now)
        }
    }
}

/// A newly listed market.
pub open spec fn fresh_market(name: Seq<char>, ledger: usize, price: u64, now: u64) -> MarketModel {
    MarketModel {
        name,
        total_lent: 0,
        total_supply: 0,
        positions: Map::empty(),
        collateral_factor: DEFAULT_COLLATERAL_FACTOR,
        ledger,
        price_to_usd: price,
        last_checkpoint: now,
    }
}

/// `after` is `before` with the ledger at `k` given the balances `bal`.
pub open spec fn ledger_updated(before: Seq<ERC20Token>, after: Seq<ERC20Token>, k: int, bal: Map<Address, u64>) -> bool {
    &&& after.len() == before.len()
    &&& after[k].balances() == bal
    &&& token_frame(&before[k], &after[k])
    &&& forall|j: int| 0 <= j < before.len() && j != k ==> after[j] == before[j]
}

/// Figures of one market for display.
#[derive(Debug, Clone, Copy, PartialEq, Eq, Structural)]
pub struct MMInfo {
    /// Underlying per claim token, as numerator and denominator.
    pub exchange_rate_num: u128,
    pub exchange_rate_den: u128,
    /// Yearly rates and the utilisation ratio, scaled by `RATE_SCALE`.
    pub borrow_rate: u64,
    pub earn_rate: u64,
    pub utilization_rate: u64,
    pub price_to_usd: u64,
    pub collateral_factor: u64,
    /// What the market holds of its token.
    pub liquidity: u64,
}

/// An account with no position in any market has no collateral and no
/// borrowing.
pub proof fn lemma_no_positions_zero_sums(ms: Seq<MarketModel>, ledgers: Seq<ERC20Token>, this: Address, a: Address)
    requires
        forall|i: int| 0 <= i < ms.len() ==> !(#[trigger] ms[i].positions.contains_key(a)),
    ensures
        sum_collateral(ms, ledgers, this, a) == 0,
        sum_borrow(ms, a) == 0,
        forall|i: int| 0 <= i < ms.len() ==> #[trigger] collateral_product(ms[i], cash_of(ledgers, ms[i], this), a) == 0,
    decreases ms.len(),
{
    if ms.len() > 0 {
        let init = ms.drop_last();
        assert forall|i: int| 0 <= i < init.len() implies !(#[trigger] init[i].positions.contains_key(a)) by {
            assert(init[i] == ms[i]);
        }
        lemma_no_positions_zero_sums(init, ledgers, this, a);
        assert forall|i: int| 0 <= i < ms.len() implies #[trigger] collateral_product(ms[i], cash_of(ledgers, ms[i], this), a) == 0 by {
            let mi = ms[i];
            assert(!mi.positions.contains_key(a));
            assert((mi.collateral_factor as nat) * (mi.price_to_usd as nat) * 0 * mi.rate(cash_of(ledgers, mi, this)).0 == 0)
                by (nonlinear_arith);
        }
        let last = ms.last();
        assert(!last.positions.contains_key(a));
        assert(collateral_product(last, cash_of(ledgers, last, this), a) == 0);
        assert((last.price_to_usd as nat) * 0 == 0);
    }
}

/// An account with no position in any market of the registry has
/// collateral and borrowing of zero, and the aggregation reports `(0, 0)`.
pub proof fn lemma_empty_account_sums(c: CdpModel, ledgers: Seq<ERC20Token>, a: Address)
    requires
        forall|i: int| 0 <= i < c.markets.len() ==> !(#[trigger] c.markets[i].positions.contains_key(a)),
    ensures
        c.collateral(ledgers, a) == 0,
        c.borrowed(a) == 0,
        c.sums_fit(ledgers, a),
{
    lemma_no_positions_zero_sums(c.markets, ledgers, c.addr, a);
}

/// A gated operation that was admitted had, beforehand, collateral that
/// covered the account's borrowing plus the operation's effect.
pub proof fn lemma_admitted_is_covered(
    c: CdpModel,
    after: CdpModel,
    l0: Seq<ERC20Token>,
    l1: Seq<ERC20Token>,
    r: Result<(), Error>,
    op: MarketOp,
    sender: Address,
    amount: u64,
    name: Seq<char>,
    now: u64,
)
    requires
        c.gated(after, l0, l1, r, op, sender, amount, name, now),
        r is Ok,
    ensures
        c.listed(name),
        c.hypo_fits(l0, sender, amount, name),
        c.collateral(l0, sender) >= c.borrowed(sender) + c.takeout_effect(amount, name),
{
}

pub struct Cdp {
    admins: AddressSet,
    mm_map: Vec<MoneyMarket>,
    addr: Address,
}

impl View for Cdp {
    type V = CdpModel;

    closed spec fn view(&self) -> CdpModel {
        CdpModel {
            admins: set_items(self.admins),
            markets: self.mm_map@.map_values(|m: MoneyMarket| m@),
            addr: self.addr,
        }
    }
}

/// Extending a prefix by one market adds that market's figures.
proof fn lemma_sums_step(ms: Seq<MarketModel>, ledgers: Seq<ERC20Token>, this: Address, a: Address, i: int)
    requires
        0 <= i < ms.len(),
    ensures
        sum_collateral(ms.take(i + 1), ledgers, this, a) == sum_collateral(ms.take(i), ledgers, this, a)
            + collateral_value(ms[i], cash_of(ledgers, ms[i], this), a),
        sum_borrow(ms.take(i + 1), a) == sum_borrow(ms.take(i), a) + borrow_value(ms[i], a),
{
    assert(ms.take(i + 1).drop_last() =~= ms.take(i));
}

/// A prefix's figures are at most the whole sequence's.
proof fn lemma_sums_monotone(ms: Seq<MarketModel>, ledgers: Seq<ERC20Token>, this: Address, a: Address, k: int)
    requires
        0 <= k <= ms.len(),
    ensures
        sum_collateral(ms.take(k), ledgers, this, a) <= sum_collateral(ms, ledgers, this, a),
        sum_borrow(ms.take(k), a) <= sum_borrow(ms, a),
    decreases ms.len(),
{
    if k == ms.len() {
        assert(ms.take(k) =~= ms);
    } else {
        let init = ms.drop_last();
        lemma_sums_monotone(init, ledgers, this, a, k);
        assert(init.take(k) =~= ms.take(k));
    }
}

impl Cdp {
    /// A registry with no markets whose only admin is `sender`; `this` is the
    /// registry's own custody account.
    pub fn new(sender: Address, this: Address) -> (r: Self)
        ensures
            r@ == (CdpModel { admins: seq![sender], markets: Seq::empty(), addr: this }),
            r@.wf(),
    {
        let mut admins = set_new();
        set_insert(&mut admins, sender);
        let r = Cdp { admins, mm_map: Vec::new(), addr: this };
        proof {
            assert(r@.markets =~= Seq::<MarketModel>::empty());
            assert(r@.admins =~= seq![sender]);
        }
        r
    }

    /// The registry's custody account.
    pub fn cdp_addr(&self) -> (r: Address)
        ensures
            r == self@.addr,
    {
        self.addr
    }

    /// The admins, in the order they were added.
    pub fn list_admin(&self) -> (r: Vec<Address>)
        ensures
            r@ == self@.admins,
    {
        set_to_vec(&self.admins)
    }

    fn check_admin(&self, a: Address) -> (r: bool)
        ensures
            r == self@.is_admin(a),
    {
        set_contains(&self.admins, a)
    }

    proof fn lemma_index_of(&self, name: Seq<char>, i: int)
        requires
            self@.wf(),
            0 <= i < self@.markets.len(),
            self@.markets[i].name == name,
        ensures
            self@.listed(name),
            self@.index_of(name) == i,
    {
        let j = self@.index_of(name);
        assert(self@.markets[j].name == name);
        if j < i {
            assert(self@.markets[j].name != self@.markets[i].name);
        } else if i < j {
            assert(self@.markets[i].name != self@.markets[j].name);
        }
    }

    /// The index of the market called `name`.
    fn find_market(&self, name: &str) -> (r: Option<usize>)
        requires
            self@.wf(),
        ensures
            r is None <==> !self@.listed(name@),
            r matches Some(i) ==> i == self@.index_of(name@) && i < self@.markets.len(),
    {
        let key = name.to_owned();
        let mut i: usize = 0;
        while i < self.mm_map.len()
            invariant
                i <= self.mm_map@.len(),
                self@.wf(),
                key@ == name@,
                self@.markets.len() == self.mm_map@.len(),
                forall|j: int| 0 <= j < i ==> self@.markets[j].name != name@,
            decreases self.mm_map@.len() - i,
        {
            if self.mm_map[i].name().eq(&key) {
                proof {
                    self.lemma_index_of(name@, i as int);
                }
                return Some(i);
            }
            i += 1;
        }
        None
    }

    /// Whether a market called `mm_name` is listed.
    pub fn mm_listed(&self, mm_name: &str) -> (r: bool)
        requires
            self@.wf(),
        ensures
            r == self@.listed(mm_name@),
    {
        self.find_market(mm_name).is_some()
    }

    /// The market called `mm_name`, if listed.
    pub fn market(&self, mm_name: &str) -> (r: Option<&MoneyMarket>)
        requires
            self@.wf(),
        ensures
            r is None <==> !self@.listed(mm_name@),
            r matches Some(m) ==> m@ == self@.markets[self@.index_of(mm_name@)],
    {
        match self.find_market(mm_name) {
            Some(i) => Some(&self.mm_map[i]),
            None => None,
        }
    }

    fn cash_in(ledgers: &Vec<ERC20Token>, m: &MoneyMarket, this: Address) -> (r: u64)
        ensures
            r == cash_of(ledgers@, m@, this),
    {
        let k = m.erc20_addr();
        if k < ledgers.len() {
            m.get_total_cash(&ledgers[k], this)
        } else {
            0
        }
    }

    /// USD collateral and USD borrowing of `sender` over all markets.
    pub fn get_sum_collat_borrow(&self, ledgers: &Vec<ERC20Token>, sender: Address) -> (r: Result<(u128, u128), Error>)
        ensures
            r is Ok <==> self@.sums_fit(ledgers@, sender),
            r matches Ok((c, b)) ==> c == self@.collateral(ledgers@, sender) && b == self@.borrowed(sender),
            r is Err ==> r == Err::<(u128, u128), Error>(Error::Overflow),
    {
        let ghost ms = self@.markets;
        let ghost this = self@.addr;
        let mut c: u128 = 0;
        let mut b: u128 = 0;
        let mut i: usize = 0;
        while i < self.mm_map.len()
            invariant
                ms == self@.markets,
                this == self.addr,
                ms.len() == self.mm_map@.len(),
                i <= ms.len(),
                c == sum_collateral(ms.take(i as int), ledgers@, this, sender),
                b == sum_borrow(ms.take(i as int), sender),
                c <= VALUE_LIMIT,
                b <= VALUE_LIMIT,
                forall|j: int| 0 <= j < i ==> #[trigger] collateral_product(ms[j], cash_of(ledgers@, ms[j], this), sender) <= u128::MAX,
            decreases ms.len() - i,
        {
            let m = &self.mm_map[i];
            proof {
                assert(m@ == ms[i as int]);
                lemma_sums_step(ms, ledgers@, this, sender, i as int);
                lemma_sums_monotone(ms, ledgers@, this, sender, i + 1);
            }
            let ghost cash_g = cash_of(ledgers@, ms[i as int], this);
            match m.position(sender) {
                None => {
                    let ghost mi = ms[i as int];
                    assert(mi.position(sender) == crate::market::zero_position());
                    assert((mi.collateral_factor as nat) * (mi.price_to_usd as nat) * 0 * mi.rate(cash_g).0 == 0)
                        by (nonlinear_arith);
                    assert((mi.price_to_usd as nat) * 0 == 0);
                    assert(collateral_product(mi, cash_g, sender) == 0);
                    assert(borrow_value(mi, sender) == 0);
                },
                Some(p) => {
                    let cash = Self::cash_in(ledgers, m, self.addr);
                    let (num, den) = exchange_rate(cash, m.total_lent(), m.total_supply());
                    let cf = m.collateral_factor() as u128;
                    let price = m.price_to_usd() as u128;
                    proof {
                        assert(cf * price <= u64::MAX * u64::MAX) by (nonlinear_arith)
                            requires
                                cf <= u64::MAX,
                                price <= u64::MAX,
                        ;
                        assert(price * p.borrowed_asset <= u64::MAX * u64::MAX) by (nonlinear_arith)
                            requires
                                p.borrowed_asset <= u64::MAX,
                                price <= u64::MAX,
                        ;
                    }
                    let cp = cf * price;
                    let x = match cp.checked_mul(p.otokens as u128) {
                        Some(x) => x,
                        None => {
                            proof {
                                assert(cp * p.otokens * num >= cp * p.otokens) by (nonlinear_arith)
                                    requires
                                        num >= 1,
                                        cp * p.otokens >= 0,
                                ;
                                assert(collateral_product(ms[i as int], cash_g, sender) > u128::MAX);
                            }
                            return Err(Error::Overflow);
                        },
                    };
                    let prod = match x.checked_mul(num) {
                        Some(y) => y,
                        None => {
                            proof {
                                assert(collateral_product(ms[i as int], cash_g, sender) > u128::MAX);
                            }
                            return Err(Error::Overflow);
                        },
                    };
                    let cval = prod / (100 * den);
                    let bval = price * p.borrowed_asset as u128;
                    if cval > VALUE_LIMIT - c || bval > VALUE_LIMIT - b {
                        return Err(Error::Overflow);
                    }
                    c = c + cval;
                    b = b + bval;
                },
            }
            i += 1;
        }
        proof {
            assert(ms.take(ms.len() as int) =~= ms);
        }
        Ok((c, b))
    }
}

impl Cdp {
    /// Collateral less borrowing of `sender` if `takeout_amount` were taken
    /// out of the market called `mm_name`; a name that is not listed gives
    /// the current liquidity.
    pub fn get_hypo_acct_liquidity(&self, ledgers: &Vec<ERC20Token>, sender: Address, takeout_amount: u64, mm_name: &str) -> (r: Result<i128, Error>)
        requires
            self@.wf(),
        ensures
            r is Ok <==> self@.hypo_fits(ledgers@, sender, takeout_amount, mm_name@),
            r matches Ok(h) ==> h == self@.hypo_liquidity(ledgers@, sender, takeout_amount, mm_name@),
            r is Err ==> r == Err::<i128, Error>(Error::Overflow),
    {
        let (c, b) = match self.get_sum_collat_borrow(ledgers, sender) {
            Ok(v) => v,
            Err(e) => return Err(e),
        };
        let effect: u128 = match self.find_market(mm_name) {
            Some(i) => {
                let price = self.mm_map[i].price_to_usd();
                proof {
                    assert(self.mm_map@[i as int]@ == self@.markets[i as int]);
                    assert(price * takeout_amount <= u64::MAX * u64::MAX) by (nonlinear_arith)
                        requires
                            price <= u64::MAX,
                            takeout_amount <= u64::MAX,
                    ;
                }
                price as u128 * takeout_amount as u128
            },
            None => 0,
        };
        if effect > VALUE_LIMIT - b {
            return Err(Error::Overflow);
        }
        Ok(c as i128 - (b + effect) as i128)
    }

    /// An admin lists a new market called `name` for the token at ledger
    /// index `erc20_addr`, priced at `price_to_usd`.
    pub fn add_market(&mut self, sender: Address, name: &str, price_to_usd: u64, erc20_addr: usize, now: u64) -> (r: Result<(), Error>)
        requires
            old(self)@.wf(),
        ensures
            final(self)@.wf(),
            !old(self)@.is_admin(sender) ==> r == Err::<(), Error>(Error::AdminPrivilegesRequired)
                && final(self)@ == old(self)@,
            old(self)@.is_admin(sender) && old(self)@.listed(name@) ==> r == Err::<(), Error>(
                Error::MarketAlreadyListed,
            ) && final(self)@ == old(self)@,
            old(self)@.is_admin(sender) && !old(self)@.listed(name@) && old(self)@.markets.len()
                >= MAX_MARKETS ==> r == Err::<(), Error>(Error::MarketLimitReached) && final(self)@
                == old(self)@,
            old(self)@.is_admin(sender) && !old(self)@.listed(name@) && old(self)@.markets.len()
                < MAX_MARKETS ==> r is Ok && final(self)@ == (CdpModel {
                markets: old(self)@.markets.push(fresh_market(name@, erc20_addr, price_to_usd, now)),
                ..old(self)@
            }),
    {
        if !self.check_admin(sender) {
            return Err(Error::AdminPrivilegesRequired);
        }
        if self.mm_listed(name) {
            return Err(Error::MarketAlreadyListed);
        }
        if self.mm_map.len() >= MAX_MARKETS {
            return Err(Error::MarketLimitReached);
        }
        let new_mm = MoneyMarket::new(name.to_owned(), erc20_addr, price_to_usd, now);
        self.mm_map.push(new_mm);
        proof {
            assert(self@.markets =~= old(self)@.markets.push(fresh_market(name@, erc20_addr, price_to_usd, now)));
        }
        Ok(())
    }

    /// An admin sets the USD price of the market called `mm_name`.
    pub fn change_price_oracle(&mut self, sender: Address, mm_name: &str, price: u64) -> (r: Result<(), Error>)
        requires
            old(self)@.wf(),
        ensures
            final(self)@.wf(),
            !old(self)@.is_admin(sender) ==> r == Err::<(), Error>(Error::AdminPrivilegesRequired)
                && final(self)@ == old(self)@,
            old(self)@.is_admin(sender) && !old(self)@.listed(mm_name@) ==> r == Err::<(), Error>(
                Error::MarketNotListed,
            ) && final(self)@ == old(self)@,
            old(self)@.is_admin(sender) && old(self)@.listed(mm_name@) ==> r is Ok && final(self)@
                == (CdpModel {
                markets: old(self)@.markets.update(
                    old(self)@.index_of(mm_name@),
                    MarketModel { price_to_usd: price, ..old(self)@.markets[old(self)@.index_of(mm_name@)] },
                ),
                ..old(self)@
            }),
    {
        if !self.check_admin(sender) {
            return Err(Error::AdminPrivilegesRequired);
        }
        let i = match self.find_market(mm_name) {
            Some(i) => i,
            None => return Err(Error::MarketNotListed),
        };
        self.mm_map[i].set_price_to_usd(price);
        proof {
            assert(self@.markets =~= old(self)@.markets.update(
                i as int,
                MarketModel { price_to_usd: price, ..old(self)@.markets[i as int] },
            ));
        }
        Ok(())
    }

    /// An admin sets the collateral factor (percent) of the market called
    /// `mm_name`.
    pub fn change_collateral_factor(&mut self, sender: Address, mm_name: &str, factor: u64) -> (r: Result<(), Error>)
        requires
            old(self)@.wf(),
        ensures
            final(self)@.wf(),
            !old(self)@.is_admin(sender) ==> r == Err::<(), Error>(Error::AdminPrivilegesRequired)
                && final(self)@ == old(self)@,
            old(self)@.is_admin(sender) && !old(self)@.listed(mm_name@) ==> r == Err::<(), Error>(
                Error::MarketNotListed,
            ) && final(self)@ == old(self)@,
            old(self)@.is_admin(sender) && old(self)@.listed(mm_name@) ==> r is Ok && final(self)@
                == (CdpModel {
                markets: old(self)@.markets.update(
                    old(self)@.index_of(mm_name@),
                    MarketModel { collateral_factor: factor, ..old(self)@.markets[old(self)@.index_of(mm_name@)] },
                ),
                ..old(self)@
            }),
    {
        if !self.check_admin(sender) {
            return Err(Error::AdminPrivilegesRequired);
        }
        let i = match self.find_market(mm_name) {
            Some(i) => i,
            None => return Err(Error::MarketNotListed),
        };
        self.mm_map[i].set_collateral_factor(factor);
        proof {
            assert(self@.markets =~= old(self)@.markets.update(
                i as int,
                MarketModel { collateral_factor: factor, ..old(self)@.markets[i as int] },
            ));
        }
        Ok(())
    }

    /// Runs `op` on the market called `mm_name` against its token ledger.
    fn dispatch(&mut self, ledgers: &mut Vec<ERC20Token>, op: MarketOp, sender: Address, amount: u64, mm_name: &str, now: u64) -> (r: Result<(), Error>)
        requires
            old(self)@.wf(),
        ensures
            final(self)@.wf(),
            old(self)@.applied(final(self)@, old(ledgers)@, final(ledgers)@, r, op, sender, amount, mm_name@, now),
    {
        let i = match self.find_market(mm_name) {
            Some(i) => i,
            None => return Err(Error::MarketNotListed),
        };
        let k = self.mm_map[i].erc20_addr();
        if k >= ledgers.len() {
            return Err(Error::NoLedger);
        }
        let this = self.addr;
        let r = match op {
            MarketOp::Mint => self.mm_map[i]._mint(&mut ledgers[k], sender, this, amount, now),
            MarketOp::Redeem => self.mm_map[i]._redeem(&mut ledgers[k], sender, this, amount, now),
            MarketOp::Borrow => self.mm_map[i]._borrow(&mut ledgers[k], sender, this, amount, now),
            MarketOp::Repay => self.mm_map[i]._repay_borrow(&mut ledgers[k], sender, this, amount, now),
        };
        proof {
            assert(self@.markets =~= old(self)@.markets.update(i as int, self.mm_map@[i as int]@));
            assert(self@.markets[i as int].name == old(self)@.markets[i as int].name);
        }
        r
    }
}

impl Cdp {
    /// `sender` deposits `mint_amount` into the market called `mm_name`.
    pub fn mint(&mut self, ledgers: &mut Vec<ERC20Token>, sender: Address, mint_amount: u64, mm_name: &str, now: u64) -> (r: Result<(), Error>)
        requires
            old(self)@.wf(),
        ensures
            final(self)@.wf(),
            old(self)@.applied(final(self)@, old(ledgers)@, final(ledgers)@, r, MarketOp::Mint, sender, mint_amount, mm_name@, now),
    {
        self.dispatch(ledgers, MarketOp::Mint, sender, mint_amount, mm_name, now)
    }

    /// `sender` pays back `repay_amount` to the market called `mm_name`.
    pub fn repay_borrow(&mut self, ledgers: &mut Vec<ERC20Token>, sender: Address, repay_amount: u64, mm_name: &str, now: u64) -> (r: Result<(), Error>)
        requires
            old(self)@.wf(),
        ensures
            final(self)@.wf(),
            old(self)@.applied(final(self)@, old(ledgers)@, final(ledgers)@, r, MarketOp::Repay, sender, repay_amount, mm_name@, now),
    {
        self.dispatch(ledgers, MarketOp::Repay, sender, repay_amount, mm_name, now)
    }

    /// Refuses `op` where it would leave `sender` short of collateral, and
    /// runs it otherwise.
    fn gate(&mut self, ledgers: &mut Vec<ERC20Token>, op: MarketOp, sender: Address, amount: u64, mm_name: &str, now: u64) -> (r: Result<(), Error>)
        requires
            old(self)@.wf(),
        ensures
            final(self)@.wf(),
            old(self)@.gated(final(self)@, old(ledgers)@, final(ledgers)@, r, op, sender, amount, mm_name@, now),
    {
        if !self.mm_listed(mm_name) {
            return Err(Error::MarketNotListed);
        }
        let hypo_liquidity = match self.get_hypo_acct_liquidity(ledgers, sender, amount, mm_name) {
            Ok(h) => h,
            Err(e) => return Err(e),
        };
        if hypo_liquidity < 0 {
            return Err(Error::InsufficientCollateral { shortfall: hypo_liquidity });
        }
        self.dispatch(ledgers, op, sender, amount, mm_name, now)
    }

    /// `sender` borrows `borrow_amount` from the market called `mm_name`,
    /// provided its collateral over all markets still covers its borrowing.
    pub fn borrow(&mut self, ledgers: &mut Vec<ERC20Token>, sender: Address, borrow_amount: u64, mm_name: &str, now: u64) -> (r: Result<(), Error>)
        requires
            old(self)@.wf(),
        ensures
            final(self)@.wf(),
            old(self)@.gated(final(self)@, old(ledgers)@, final(ledgers)@, r, MarketOp::Borrow, sender, borrow_amount, mm_name@, now),
    {
        self.gate(ledgers, MarketOp::Borrow, sender, borrow_amount, mm_name, now)
    }

    /// `sender` redeems `redeem_amount` of underlying from the market called
    /// `mm_name`, provided its collateral over all markets still covers its
    /// borrowing.
    pub fn redeem(&mut self, ledgers: &mut Vec<ERC20Token>, sender: Address, redeem_amount: u64, mm_name: &str, now: u64) -> (r: Result<(), Error>)
        requires
            old(self)@.wf(),
        ensures
            final(self)@.wf(),
            old(self)@.gated(final(self)@, old(ledgers)@, final(ledgers)@, r, MarketOp::Redeem, sender, redeem_amount, mm_name@, now),
    {
        self.gate(ledgers, MarketOp::Redeem, sender, redeem_amount, mm_name, now)
    }

    /// The position of `sender` in the market called `mm_name`; an account
    /// with none gets an empty one.
    pub fn get_user_mm_position(&self, sender: Address, mm_name: &str) -> (r: Result<Position, Error>)
        requires
            self@.wf(),
        ensures
            !self@.listed(mm_name@) ==> r == Err::<Position, Error>(Error::MarketNotListed),
            self@.listed(mm_name@) ==> r == Ok::<Position, Error>(
                self@.markets[self@.index_of(mm_name@)].position(sender),
            ),
    {
        let m = match self.market(mm_name) {
            Some(m) => m,
            None => return Err(Error::MarketNotListed),
        };
        match m.position(sender) {
            Some(p) => Ok(p),
            None => Ok(Position::empty()),
        }
    }

    /// Current liquidity, total collateral and total borrowing of `sender`,
    /// in USD.
    pub fn get_user_global_position(&self, ledgers: &Vec<ERC20Token>, sender: Address) -> (r: Result<(i128, u128, u128), Error>)
        requires
            self@.wf(),
        ensures
            r is Ok <==> self@.sums_fit(ledgers@, sender),
            r matches Ok((l, c, b)) ==> l == c - b && c == self@.collateral(ledgers@, sender) && b
                == self@.borrowed(sender),
            r is Err ==> r == Err::<(i128, u128, u128), Error>(Error::Overflow),
    {
        match self.get_sum_collat_borrow(ledgers, sender) {
            Ok((c, b)) => Ok((c as i128 - b as i128, c, b)),
            Err(e) => Err(e),
        }
    }
}

impl Cdp {
    /// Rates and figures of the market called `mm_name`.
    pub fn get_market_info(&self, ledgers: &Vec<ERC20Token>, mm_name: &str) -> (r: Result<MMInfo, Error>)
        requires
            self@.wf(),
        ensures
            !self@.listed(mm_name@) ==> r == Err::<MMInfo, Error>(Error::MarketNotListed),
            self@.listed(mm_name@) ==> r is Ok && ({
                let m = self@.markets[self@.index_of(mm_name@)];
                let cash = cash_of(ledgers@, m, self@.addr);
                let info = r->Ok_0;
                &&& (info.exchange_rate_num as nat, info.exchange_rate_den as nat) == m.rate(cash)
                &&& info.borrow_rate == borrow_rate_spec(cash, m.total_lent as nat)
                &&& info.earn_rate == earn_rate_spec(cash, m.total_lent as nat)
                &&& info.utilization_rate == utilization_spec(cash, m.total_lent as nat)
                &&& info.price_to_usd == m.price_to_usd
                &&& info.collateral_factor == m.collateral_factor
                &&& info.liquidity == cash
            }),
    {
        let m = match self.market(mm_name) {
            Some(m) => m,
            None => return Err(Error::MarketNotListed),
        };
        let cash = Self::cash_in(ledgers, m, self.addr);
        let lent = m.total_lent();
        let (num, den) = exchange_rate(cash, lent, m.total_supply());
        Ok(MMInfo {
            exchange_rate_num: num,
            exchange_rate_den: den,
            borrow_rate: borrow_rate(cash, lent),
            earn_rate: earn_rate(cash, lent),
            utilization_rate: utilization_ratio(cash, lent),
            price_to_usd: m.price_to_usd(),
            collateral_factor: m.collateral_factor(),
            liquidity: cash,
        })
    }

    /// The market called `mm_name`, for an admin.
    pub fn get_admin_market(&self, sender: Address, mm_name: &str) -> (r: Result<&MoneyMarket, Error>)
        requires
            self@.wf(),
        ensures
            !self@.is_admin(sender) ==> r == Err::<&MoneyMarket, Error>(Error::AdminPrivilegesRequired),
            self@.is_admin(sender) && !self@.listed(mm_name@) ==> r == Err::<&MoneyMarket, Error>(
                Error::MarketNotListed,
            ),
            self@.is_admin(sender) && self@.listed(mm_name@) ==> (r matches Ok(m) && m@
                == self@.markets[self@.index_of(mm_name@)]),
    {
        if !self.check_admin(sender) {
            return Err(Error::AdminPrivilegesRequired);
        }
        match self.market(mm_name) {
            Some(m) => Ok(m),
            None => Err(Error::MarketNotListed),
        }
    }

    /// The number of listed markets.
    pub fn market_count(&self) -> (r: usize)
        ensures
            r == self@.markets.len(),
    {
        self.mm_map.len()
    }
}

} // verus!
