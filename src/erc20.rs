//! The fungible-token ledger that backs each money market.
use vstd::prelude::*;

use crate::collections::{
    allowance_entries, allowances_get, allowances_insert, allowances_new, balance_entries,
    balances_get, balances_insert, balances_new, set_contains, set_insert, set_items, set_last,
    set_new, set_to_vec, AddressSet, Allowances, Balances,
};
use crate::Address;

verus! {

#[derive(Debug, Clone, Copy, PartialEq, Eq, Structural)]
pub enum Error {
    AdminPrivilegesRequired,
    InsufficientFunds { address: Address },
    NoAllowanceGiven { from: Address, to: Address },
    RequestExceedsAllowance { amount: u64, allowance: u64 },
    Overflow,
}

/// A completed transfer.
#[derive(Debug, Clone, Copy, PartialEq, Eq, Structural)]
pub struct Transfer {
    pub from: Address,
    pub to: Address,
    pub amount: u64,
}

/// A granted allowance.
#[derive(Debug, Clone, Copy, PartialEq, Eq, Structural)]
pub struct Approval {
    pub sender: Address,
    pub spender: Address,
    pub amount: u64,
}

/// The balance that `m` records for `a`; an absent account holds nothing.
pub open spec fn balance_in(m: Map<Address, u64>, a: Address) -> nat {
    if m.contains_key(a) {
        m[a] as nat
    } else {
        0
    }
}

/// Whether moving `amount` from `from` to `to` can be done within `u64`.
pub open spec fn can_transfer(m: Map<Address, u64>, from: Address, to: Address, amount: u64) -> bool {
    &&& balance_in(m, from) >= amount
    &&& (from == to || balance_in(m, to) + amount <= u64::MAX)
}

/// The balances after moving `amount` from `from` to `to`.
pub open spec fn transferred(m: Map<Address, u64>, from: Address, to: Address, amount: u64) -> Map<
    Address,
    u64,
> {
    if from == to {
        m
    } else {
        m.insert(from, (balance_in(m, from) - amount) as u64).insert(
            to,
            (balance_in(m, to) + amount) as u64,
        )
    }
}

/// The error a refused transfer reports.
pub open spec fn transfer_error(m: Map<Address, u64>, from: Address, amount: u64) -> Error {
    if balance_in(m, from) < amount {
        Error::InsufficientFunds { address: from }
    } else {
        Error::Overflow
    }
}

fn lookup(accounts: &Balances, a: Address) -> (r: u64)
    ensures
        r == balance_in(balance_entries(*accounts), a),
{
    match balances_get(accounts, a) {
        Some(v) => v,
        None => 0,
    }
}

/// Moves `amount` from `from` to `to`, or changes nothing and says why not.
fn do_transfer(accounts: &mut Balances, from: Address, to: Address, amount: u64) -> (r: Result<
    (),
    Error,
>)
    ensures
        r is Ok <==> can_transfer(balance_entries(*old(accounts)), from, to, amount),
        r is Ok ==> balance_entries(*final(accounts)) == transferred(
            balance_entries(*old(accounts)),
            from,
            to,
            amount,
        ),
        r is Err ==> *final(accounts) == *old(accounts) && r == Err::<(), Error>(
            transfer_error(balance_entries(*old(accounts)), from, amount),
        ),
{
    let from_balance = lookup(accounts, from);
    if from_balance < amount {
        return Err(Error::InsufficientFunds { address: from });
    }
    if from == to {
        return Ok(());
    }
    let to_balance = lookup(accounts, to);
    if to_balance > u64::MAX - amount {
        return Err(Error::Overflow);
    }
    balances_insert(accounts, from, from_balance - amount);
    balances_insert(accounts, to, to_balance + amount);
    Ok(())
}


/// The allowance that `owner` granted `spender` in `m`.
pub open spec fn allowance_in(m: Map<Address, Map<Address, u64>>, owner: Address, spender: Address) -> nat {
    if m.contains_key(owner) {
        balance_in(m[owner], spender)
    } else {
        0
    }
}

/// A token: per-account balances, a recorded total supply, an ordered admin
/// list and per-owner allowances.
pub struct ERC20Token {
    total_supply: u64,
    owner: Address,
    admins: AddressSet,
    accounts: Balances,
    allowed: Allowances,
}

impl ERC20Token {
    pub closed spec fn balances(&self) -> Map<Address, u64> {
        balance_entries(self.accounts)
    }

    pub open spec fn balance(&self, a: Address) -> nat {
        balance_in(self.balances(), a)
    }

    pub closed spec fn supply(&self) -> u64 {
        self.total_supply
    }

    pub closed spec fn owner_addr(&self) -> Address {
        self.owner
    }

    /// The admins, in the order they were added.
    pub closed spec fn admin_list(&self) -> Seq<Address> {
        set_items(self.admins)
    }

    pub closed spec fn allowances(&self) -> Map<Address, Map<Address, u64>> {
        allowance_entries(self.allowed)
    }

    pub open spec fn is_admin(&self, a: Address) -> bool {
        self.admin_list().contains(a)
    }

    /// A token whose whole supply belongs to `sender`, who is its only admin.
    pub fn new(sender: Address, total_supply: u64) -> (r: Result<Self, Error>)
        ensures
            r matches Ok(t) && t.balances() == map![sender => total_supply] && t.supply()
                == total_supply && t.owner_addr() == sender && t.admin_list() == seq![sender]
                && t.allowances() == Map::<Address, Map<Address, u64>>::empty(),
    {
        let mut accounts = balances_new();
        proof {
            assert(balance_entries(accounts) =~= Map::empty());
        }
        balances_insert(&mut accounts, sender, total_supply);
        let mut admins = set_new();
        set_insert(&mut admins, sender);
        let allowed = allowances_new();
        let t = ERC20Token { total_supply, owner: sender, admins, accounts, allowed };
        proof {
            assert(t.admin_list() =~= seq![sender]);
            assert(t.balances() =~= map![sender => total_supply]);
            assert(t.allowances() =~= Map::<Address, Map<Address, u64>>::empty());
        }
        Ok(t)
    }

    fn check_admin(&self, a: Address) -> (r: bool)
        ensures
            r == self.is_admin(a),
    {
        set_contains(&self.admins, a)
    }

    /// The admins, in the order they were added.
    pub fn list_admin(&self) -> (r: Vec<Address>)
        ensures
            r@ == self.admin_list(),
    {
        set_to_vec(&self.admins)
    }

    /// The balance of the caller.
    pub fn balance_of(&self, sender: Address) -> (r: Result<u64, Error>)
        ensures
            r == Ok::<u64, Error>(self.balance(sender) as u64),
    {
        Ok(lookup(&self.accounts, sender))
    }

    /// The balance of any account.
    pub fn balance_of_contract(&self, addr: Address) -> (r: Result<u64, Error>)
        ensures
            r == Ok::<u64, Error>(self.balance(addr) as u64),
    {
        Ok(lookup(&self.accounts, addr))
    }

    pub fn total_supply(&self) -> (r: Result<u64, Error>)
        ensures
            r == Ok::<u64, Error>(self.supply()),
    {
        Ok(self.total_supply)
    }

    /// An admin makes `admin` an admin too.
    pub fn add_admin(&mut self, sender: Address, admin: Address) -> (r: Result<(), Error>)
        ensures
            r is Ok <==> old(self).is_admin(sender),
            r is Err ==> r == Err::<(), Error>(Error::AdminPrivilegesRequired) && *final(self)
                == *old(self),
            r is Ok ==> final(self).admin_list() == (if old(self).is_admin(admin) {
                old(self).admin_list()
            } else {
                old(self).admin_list().push(admin)
            }),
            final(self).balances() == old(self).balances(),
            final(self).supply() == old(self).supply(),
            final(self).allowances() == old(self).allowances(),
    {
        if !self.check_admin(sender) {
            return Err(Error::AdminPrivilegesRequired);
        }
        set_insert(&mut self.admins, admin);
        Ok(())
    }

    /// The caller sends `amount` to `to`; sending to oneself or sending
    /// nothing is a no-op that reports an empty transfer.
    pub fn transfer(&mut self, sender: Address, to: Address, amount: u64) -> (r: Result<
        Transfer,
        Error,
    >)
        ensures
            (sender == to || amount == 0) ==> r == Ok::<Transfer, Error>(
                Transfer { from: 0, to: 0, amount: 0 },
            ) && *final(self) == *old(self),
            !(sender == to || amount == 0) ==> {
                &&& r is Ok <==> can_transfer(old(self).balances(), sender, to, amount)
                &&& r is Ok ==> r == Ok::<Transfer, Error>(Transfer { from: sender, to, amount })
                    && final(self).balances() == transferred(
                    old(self).balances(),
                    sender,
                    to,
                    amount,
                )
                &&& r is Err ==> r == Err::<Transfer, Error>(
                    transfer_error(old(self).balances(), sender, amount),
                ) && final(self).balances() == old(self).balances()
            },
            final(self).supply() == old(self).supply(),
            final(self).admin_list() == old(self).admin_list(),
            final(self).allowances() == old(self).allowances(),
    {
        if sender == to || amount == 0 {
            return Ok(Transfer { from: 0, to: 0, amount: 0 });
        }
        match do_transfer(&mut self.accounts, sender, to, amount) {
            Ok(()) => Ok(Transfer { from: sender, to, amount }),
            Err(e) => Err(e),
        }
    }

    /// Moves `amount` from `from` to `to` on behalf of a service.
    pub fn transfer_to_from(&mut self, from: Address, to: Address, amount: u64) -> (r: Result<
        Transfer,
        Error,
    >)
        ensures
            r is Ok <==> can_transfer(old(self).balances(), from, to, amount),
            r is Ok ==> r == Ok::<Transfer, Error>(Transfer { from, to, amount })
                && final(self).balances() == transferred(old(self).balances(), from, to, amount),
            r is Err ==> r == Err::<Transfer, Error>(
                transfer_error(old(self).balances(), from, amount),
            ) && final(self).balances() == old(self).balances(),
            final(self).supply() == old(self).supply(),
            final(self).admin_list() == old(self).admin_list(),
            final(self).allowances() == old(self).allowances(),
            final(self).owner_addr() == old(self).owner_addr(),
    {
        match do_transfer(&mut self.accounts, from, to, amount) {
            Ok(()) => Ok(Transfer { from, to, amount }),
            Err(e) => Err(e),
        }
    }
}

/// The allowances after `owner` allows `spender` to take `amount`.
pub open spec fn approved(m: Map<Address, Map<Address, u64>>, owner: Address, spender: Address, amount: u64) -> Map<
    Address,
    Map<Address, u64>,
> {
    let inner = if m.contains_key(owner) {
        m[owner]
    } else {
        Map::empty()
    };
    m.insert(owner, inner.insert(spender, amount))
}

impl ERC20Token {
    /// The caller allows `spender` to take up to `amount` from it, replacing
    /// any earlier allowance.
    pub fn approve(&mut self, sender: Address, spender: Address, amount: u64) -> (r: Result<Approval, Error>)
        ensures
            r == Ok::<Approval, Error>(Approval { sender, spender, amount }),
            final(self).allowances() == approved(old(self).allowances(), sender, spender, amount),
            final(self).balances() == old(self).balances(),
            final(self).supply() == old(self).supply(),
            final(self).admin_list() == old(self).admin_list(),
    {
        let mut inner = match allowances_get(&self.allowed, sender) {
            Some(m) => m,
            None => {
                let m = balances_new();
                proof {
                    assert(balance_entries(m) =~= Map::empty());
                }
                m
            },
        };
        balances_insert(&mut inner, spender, amount);
        allowances_insert(&mut self.allowed, sender, inner);
        proof {
            assert(self.allowances() =~= approved(old(self).allowances(), sender, spender, amount));
        }
        Ok(Approval { sender, spender, amount })
    }

    /// What the caller allows `spender` to take.
    pub fn allowance(&self, sender: Address, spender: Address) -> (r: Result<u64, Error>)
        ensures
            r == Ok::<u64, Error>(allowance_in(self.allowances(), sender, spender) as u64),
    {
        match allowances_get(&self.allowed, sender) {
            Some(m) => Ok(lookup(&m, spender)),
            None => Ok(0),
        }
    }

    /// `spender` takes `amount` from `from`, within the allowance that `from`
    /// granted it; the allowance shrinks by what is taken.
    pub fn transfer_from(&mut self, from: Address, spender: Address, amount: u64) -> (r: Result<Transfer, Error>)
        ensures
            ({
                let al = old(self).allowances();
                let given = al.contains_key(from) && al[from].contains_key(spender);
                let allowance = allowance_in(al, from, spender);
                &&& !given ==> r == Err::<Transfer, Error>(Error::NoAllowanceGiven { from, to: spender })
                    && *final(self) == *old(self)
                &&& given && allowance < amount ==> r == Err::<Transfer, Error>(
                    Error::RequestExceedsAllowance { amount, allowance: allowance as u64 },
                ) && *final(self) == *old(self)
                &&& given && allowance >= amount && !can_transfer(old(self).balances(), from, spender, amount)
                    ==> r == Err::<Transfer, Error>(transfer_error(old(self).balances(), from, amount))
                    && final(self).balances() == old(self).balances() && final(self).allowances() == al
                &&& given && allowance >= amount && can_transfer(old(self).balances(), from, spender, amount)
                    ==> r == Ok::<Transfer, Error>(Transfer { from, to: spender, amount })
                    && final(self).balances() == transferred(old(self).balances(), from, spender, amount)
                    && final(self).allowances() == approved(al, from, spender, (allowance - amount) as u64)
            }),
            final(self).supply() == old(self).supply(),
            final(self).admin_list() == old(self).admin_list(),
    {
        let mut inner = match allowances_get(&self.allowed, from) {
            Some(m) => m,
            None => return Err(Error::NoAllowanceGiven { from, to: spender }),
        };
        let allowance = match balances_get(&inner, spender) {
            Some(a) => a,
            None => return Err(Error::NoAllowanceGiven { from, to: spender }),
        };
        if allowance < amount {
            return Err(Error::RequestExceedsAllowance { amount, allowance });
        }
        match do_transfer(&mut self.accounts, from, spender, amount) {
            Ok(()) => {},
            Err(e) => return Err(e),
        }
        balances_insert(&mut inner, spender, allowance - amount);
        allowances_insert(&mut self.allowed, from, inner);
        proof {
            assert(self.allowances() =~= approved(old(self).allowances(), from, spender, (allowance - amount) as u64));
        }
        Ok(Transfer { from, to: spender, amount })
    }

    /// An admin raises the recorded total supply by `amount`.
    pub fn mint(&mut self, sender: Address, amount: u64) -> (r: Result<(), Error>)
        ensures
            !old(self).is_admin(sender) ==> r == Err::<(), Error>(Error::AdminPrivilegesRequired)
                && *final(self) == *old(self),
            old(self).is_admin(sender) && old(self).supply() + amount > u64::MAX ==> r == Err::<(), Error>(
                Error::Overflow,
            ) && *final(self) == *old(self),
            old(self).is_admin(sender) && old(self).supply() + amount <= u64::MAX ==> r is Ok
                && final(self).supply() == old(self).supply() + amount,
            final(self).balances() == old(self).balances(),
            final(self).admin_list() == old(self).admin_list(),
            final(self).allowances() == old(self).allowances(),
    {
        if !self.check_admin(sender) {
            return Err(Error::AdminPrivilegesRequired);
        }
        match self.total_supply.checked_add(amount) {
            Some(s) => {
                self.total_supply = s;
                Ok(())
            },
            None => Err(Error::Overflow),
        }
    }

    /// An admin takes `amount` from `from`; a balance never falls below zero.
    pub fn burn(&mut self, sender: Address, from: Address, amount: u64) -> (r: Result<(), Error>)
        ensures
            !old(self).is_admin(sender) ==> r == Err::<(), Error>(Error::AdminPrivilegesRequired)
                && *final(self) == *old(self),
            old(self).is_admin(sender) ==> r is Ok && final(self).balances() == old(self).balances().insert(
                from,
                (if old(self).balance(from) > amount {
                    old(self).balance(from) - amount
                } else {
                    0
                }) as u64,
            ),
            final(self).supply() == old(self).supply(),
            final(self).admin_list() == old(self).admin_list(),
            final(self).allowances() == old(self).allowances(),
    {
        if !self.check_admin(sender) {
            return Err(Error::AdminPrivilegesRequired);
        }
        let balance = lookup(&self.accounts, from);
        let new_amount = if balance > amount {
            balance - amount
        } else {
            0
        };
        balances_insert(&mut self.accounts, from, new_amount);
        Ok(())
    }

    /// The admin added last, or 0 where there is none.
    fn last_admin(&self) -> (r: Address)
        ensures
            r == (if self.admin_list().len() > 0 {
                self.admin_list().last()
            } else {
                0
            }),
    {
        match set_last(&self.admins) {
            Some(a) => a,
            None => 0,
        }
    }

    /// Hands `amount` from the admin added last to `addr`. Where that fails,
    /// the recorded supply grows by `amount` (as far as it fits) and the
    /// transfer's error is returned.
    pub fn faucet_to_addr(&mut self, addr: Address, amount: u64) -> (r: Result<Transfer, Error>)
        ensures
            ({
                let admin = if old(self).admin_list().len() > 0 {
                    old(self).admin_list().last()
                } else {
                    0
                };
                &&& can_transfer(old(self).balances(), admin, addr, amount) ==> r == Ok::<Transfer, Error>(
                    Transfer { from: admin, to: addr, amount },
                ) && final(self).balances() == transferred(old(self).balances(), admin, addr, amount)
                    && final(self).supply() == old(self).supply()
                &&& !can_transfer(old(self).balances(), admin, addr, amount) ==> r == Err::<Transfer, Error>(
                    transfer_error(old(self).balances(), admin, amount),
                ) && final(self).balances() == old(self).balances() && final(self).supply() == (if old(
                    self,
                ).supply() + amount <= u64::MAX {
                    (old(self).supply() + amount) as u64
                } else {
                    old(self).supply()
                })
            }),
            final(self).admin_list() == old(self).admin_list(),
            final(self).allowances() == old(self).allowances(),
    {
        let admin = self.last_admin();
        match do_transfer(&mut self.accounts, admin, addr, amount) {
            Ok(()) => Ok(Transfer { from: admin, to: addr, amount }),
            Err(e) => {
                if let Some(s) = self.total_supply.checked_add(amount) {
                    self.total_supply = s;
                }
                Err(e)
            },
        }
    }

    /// Hands `amount` from the admin added last to the caller.
    pub fn faucet(&mut self, sender: Address, amount: u64) -> (r: Result<Transfer, Error>)
        ensures
            ({
                let admin = if old(self).admin_list().len() > 0 {
                    old(self).admin_list().last()
                } else {
                    0
                };
                &&& can_transfer(old(self).balances(), admin, sender, amount) ==> r == Ok::<Transfer, Error>(
                    Transfer { from: admin, to: sender, amount },
                ) && final(self).balances() == transferred(old(self).balances(), admin, sender, amount)
                    && final(self).supply() == old(self).supply()
                &&& !can_transfer(old(self).balances(), admin, sender, amount) ==> r == Err::<Transfer, Error>(
                    transfer_error(old(self).balances(), admin, amount),
                ) && final(self).balances() == old(self).balances() && final(self).supply() == (if old(
                    self,
                ).supply() + amount <= u64::MAX {
                    (old(self).supply() + amount) as u64
                } else {
                    old(self).supply()
                })
            }),
            final(self).admin_list() == old(self).admin_list(),
            final(self).allowances() == old(self).allowances(),
    {
        self.faucet_to_addr(sender, amount)
    }
}

} // verus!
