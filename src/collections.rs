//! The `map_vec` collections that hold admin lists, balances, allowances and
//! positions, and what each operation the ledger uses does to them.
//!
//! `map_vec::Map` keeps its entries in a `Vec` of pairs, one per key, found
//! by comparing keys with `==`; `map_vec::Set` keeps its items in a `Vec` in
//! the order they were first inserted.
use vstd::prelude::*;

use crate::market::Position;
use crate::Address;

verus! {

#[verifier::external_type_specification]
#[verifier::external_body]
#[verifier::reject_recursive_types(K)]
#[verifier::reject_recursive_types(V)]
pub struct ExVecMap<K, V>(map_vec::Map<K, V>);

#[verifier::external_type_specification]
#[verifier::external_body]
#[verifier::reject_recursive_types(T)]
pub struct ExVecSet<T>(map_vec::Set<T>);

/// A set of addresses.
pub type AddressSet = map_vec::Set<Address>;

/// A balance per address.
pub type Balances = map_vec::Map<Address, u64>;

/// For each owner, the limits it granted each spender.
pub type Allowances = map_vec::Map<Address, Balances>;

/// A position per address.
pub type Positions = map_vec::Map<Address, Position>;

/// The items of an address set, in the order they were first inserted.
pub uninterp spec fn set_items(s: AddressSet) -> Seq<Address>;

/// The entries of a balance map.
pub uninterp spec fn balance_entries(m: Balances) -> Map<Address, u64>;

/// The entries of an allowance table: for each owner, its spenders' limits.
pub uninterp spec fn allowance_entries(m: Allowances) -> Map<
    Address,
    Map<Address, u64>,
>;

/// The entries of a position map.
pub uninterp spec fn position_entries(m: Positions) -> Map<Address, Position>;

/// Relies on `map_vec::Set::new`: an empty set.
#[verifier::external_body]
pub(crate) fn set_new() -> (r: AddressSet)
    ensures
        set_items(r) == Seq::<Address>::empty(),
{
    map_vec::Set::new()
}

/// Relies on `map_vec::Set::insert`: pushes `v` unless it is already there,
/// and says whether it pushed.
#[verifier::external_body]
pub(crate) fn set_insert(s: &mut AddressSet, v: Address) -> (r: bool)
    ensures
        r == !set_items(*old(s)).contains(v),
        set_items(*final(s)) == (if r {
            set_items(*old(s)).push(v)
        } else {
            set_items(*old(s))
        }),
{
    s.insert(v)
}

/// Relies on `map_vec::Set::contains`.
#[verifier::external_body]
pub(crate) fn set_contains(s: &AddressSet, v: Address) -> (r: bool)
    ensures
        r == set_items(*s).contains(v),
{
    s.contains(&v)
}

/// Relies on `map_vec::Set::iter`, which walks the items in insertion order:
/// the item inserted last.
#[verifier::external_body]
pub(crate) fn set_last(s: &AddressSet) -> (r: Option<Address>)
    ensures
        r == (if set_items(*s).len() > 0 {
            Some(set_items(*s).last())
        } else {
            None::<Address>
        }),
{
    s.iter().last().copied()
}

/// Relies on `map_vec::Set::iter`: the items in insertion order.
#[verifier::external_body]
pub(crate) fn set_to_vec(s: &AddressSet) -> (r: Vec<Address>)
    ensures
        r@ == set_items(*s),
{
    s.iter().copied().collect()
}

/// Relies on `map_vec::Map::new`: an empty map.
#[verifier::external_body]
pub(crate) fn balances_new() -> (r: Balances)
    ensures
        balance_entries(r).dom().is_empty(),
{
    map_vec::Map::new()
}

/// Relies on `map_vec::Map::get`: the value stored under `k`, if any.
#[verifier::external_body]
pub(crate) fn balances_get(m: &Balances, k: Address) -> (r: Option<u64>)
    ensures
        r == (if balance_entries(*m).contains_key(k) {
            Some(balance_entries(*m)[k])
        } else {
            None::<u64>
        }),
{
    m.get(&k).copied()
}

/// Relies on `map_vec::Map::insert`: `k` maps to `v` afterwards, the other
/// entries stay; the value `k` had is returned.
#[verifier::external_body]
pub(crate) fn balances_insert(m: &mut Balances, k: Address, v: u64) -> (r: Option<u64>)
    ensures
        r == (if balance_entries(*old(m)).contains_key(k) {
            Some(balance_entries(*old(m))[k])
        } else {
            None::<u64>
        }) && balance_entries(*final(m)) == balance_entries(*old(m)).insert(k, v),
{
    m.insert(k, v)
}

/// Relies on `map_vec::Map::new`: an empty table.
#[verifier::external_body]
pub(crate) fn allowances_new() -> (r: Allowances)
    ensures
        allowance_entries(r).dom().is_empty(),
{
    map_vec::Map::new()
}

/// Relies on `map_vec::Map::get` and the derived `Clone` of `map_vec::Map`
/// (a copy of the backing pairs): a copy of the limits `k` granted, if any.
#[verifier::external_body]
pub(crate) fn allowances_get(m: &Allowances, k: Address) -> (r:
    Option<Balances>)
    ensures
        r is None <==> !allowance_entries(*m).contains_key(k),
        r matches Some(inner) ==> balance_entries(inner) == allowance_entries(*m)[k],
{
    m.get(&k).cloned()
}

/// Relies on `map_vec::Map::insert`: `k`'s limits are `inner` afterwards;
/// says whether `k` had limits before.
#[verifier::external_body]
pub(crate) fn allowances_insert(
    m: &mut Allowances,
    k: Address,
    inner: Balances,
) -> (r: bool)
    ensures
        r == allowance_entries(*old(m)).contains_key(k) && allowance_entries(*final(m))
            == allowance_entries(*old(m)).insert(k, balance_entries(inner)),
{
    m.insert(k, inner).is_some()
}

/// Relies on `map_vec::Map::new`: an empty map.
#[verifier::external_body]
pub(crate) fn positions_new() -> (r: Positions)
    ensures
        position_entries(r).dom().is_empty(),
{
    map_vec::Map::new()
}

/// Relies on `map_vec::Map::get`: a copy of the position of `k`, if any.
#[verifier::external_body]
pub(crate) fn positions_get(m: &Positions, k: Address) -> (r: Option<Position>)
    ensures
        r == (if position_entries(*m).contains_key(k) {
            Some(position_entries(*m)[k])
        } else {
            None::<Position>
        }),
{
    m.get(&k).copied()
}

/// Relies on `map_vec::Map::contains_key`.
#[verifier::external_body]
pub(crate) fn positions_contains(m: &Positions, k: Address) -> (r: bool)
    ensures
        r == position_entries(*m).contains_key(k),
{
    m.contains_key(&k)
}

/// Relies on `map_vec::Map::insert`: `k` holds `p` afterwards, the other
/// entries stay; the position `k` had is returned.
#[verifier::external_body]
pub(crate) fn positions_insert(m: &mut Positions, k: Address, p: Position) -> (r: Option<Position>)
    ensures
        r == (if position_entries(*old(m)).contains_key(k) {
            Some(position_entries(*old(m))[k])
        } else {
            None::<Position>
        }) && position_entries(*final(m)) == position_entries(*old(m)).insert(k, p),
{
    m.insert(k, p)
}

} // verus!
