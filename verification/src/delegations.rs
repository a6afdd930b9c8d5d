//! Delegations: staked amounts, unbonding entries and their listings.
use vstd::prelude::*;
use crate::codec::{text_eq, utc_rfc3339, utc_timestamp_text};
use crate::json::{array, json_string, member, object, quoted, JsonArray, JsonObject};
use crate::number::{decimal, u64_text};
use crate::staking::{pagination, pagination_of};

verus! {

/// An amount on its way out of a delegation, and when its unbonding started.
#[derive(Debug)]
pub struct Unbond {
    pub start_seconds: i64,
    pub amount: u64,
}

/// One delegation as the node reports it: the address on its other side (the
/// validator, when listed for a delegator; the delegator, when listed for a
/// validator), the staked amount, the liquid rewards by denomination index,
/// and the unbonding entries.
#[derive(Debug)]
pub struct DelegationRecord {
    pub address: String,
    pub staked: u64,
    pub liquid: Vec<(u8, u64)>,
    pub unbonding: Vec<Unbond>,
}

/// The denomination index of the staking coin, `unom`.
pub const NOM_INDEX: u8 = 69;

/// The denomination index of the Bitcoin coin, `usat`.
pub const NBTC_INDEX: u8 = 21;

/// Which side of a delegation the queried address stands on.
#[derive(Clone, Copy, Debug, PartialEq, Eq, Structural)]
pub enum Side {
    /// The queried address is the delegator; records name validators.
    Delegator,
    /// The queried address is the validator; records name delegators.
    Validator,
}

/// The delegator and validator addresses of a record listed for `owner`.
pub open spec fn parties(owner: Seq<char>, side: Side, other: Seq<char>) -> (Seq<char>, Seq<char>) {
    match side {
        Side::Delegator => (owner, other),
        Side::Validator => (other, owner),
    }
}

/// One entry of a delegation listing.
pub open spec fn delegation_entry_json(delegator: Seq<char>, validator: Seq<char>, staked: u64) -> Seq<char> {
    let amount = quoted(decimal(staked as nat));
    let delegation = object(
        Seq::empty().push(member("delegator_address"@, quoted(delegator))).push(
            member("validator_address"@, quoted(validator)),
        ).push(member("shares"@, amount)),
    );
    let balance = object(
        Seq::empty().push(member("denom"@, quoted("unom"@))).push(member("amount"@, amount)),
    );
    object(Seq::empty().push(member("delegation"@, delegation)).push(member("balance"@, balance)))
}

/// The entries listed for `owner`: one for each record with a nonzero stake.
pub open spec fn delegation_entries(ds: Seq<DelegationRecord>, owner: Seq<char>, side: Side) -> Seq<Seq<char>>
    decreases ds.len(),
{
    if ds.len() == 0 {
        Seq::empty()
    } else {
        let rest = delegation_entries(ds.drop_last(), owner, side);
        let d = ds.last();
        if d.staked == 0 {
            rest
        } else {
            let (delegator, validator) = parties(owner, side, d.address@);
            rest.push(delegation_entry_json(delegator, validator, d.staked))
        }
    }
}

/// The delegation listing for `owner`.
pub open spec fn delegations_response(ds: Seq<DelegationRecord>, owner: Seq<char>, side: Side) -> Seq<char> {
    let entries = delegation_entries(ds, owner, side);
    object(
        Seq::empty().push(member("delegation_responses"@, array(entries))).push(
            member("pagination"@, pagination(entries.len())),
        ),
    )
}

fn delegation_entry(delegator: &str, validator: &str, staked: u64) -> (r: String)
    ensures
        r@ == delegation_entry_json(delegator@, validator@, staked),
{
    let mut delegation = JsonObject::new();
    delegation.add("delegator_address", json_string(delegator));
    delegation.add("validator_address", json_string(validator));
    delegation.add("shares", json_string(u64_text(staked).as_str()));
    let mut balance = JsonObject::new();
    balance.add("denom", json_string("unom"));
    balance.add("amount", json_string(u64_text(staked).as_str()));
    let mut o = JsonObject::new();
    o.add("delegation", delegation.finish());
    o.add("balance", balance.finish());
    o.finish()
}

fn delegation_listing(owner: &str, side: Side, ds: &Vec<DelegationRecord>) -> (r: String)
    ensures
        r@ == delegations_response(ds@, owner@, side),
{
    let mut items = JsonArray::new();
    let mut i: usize = 0;
    while i < ds.len()
        invariant
            i <= ds.len(),
            items.items() == delegation_entries(ds@.take(i as int), owner@, side),
        decreases ds.len() - i,
    {
        let d = &ds[i];
        proof {
            assert(ds@.take(i + 1).drop_last() =~= ds@.take(i as int));
        }
        if d.staked != 0 {
            let entry = match side {
                Side::Delegator => delegation_entry(owner, d.address.as_str(), d.staked),
                Side::Validator => delegation_entry(d.address.as_str(), owner, d.staked),
            };
            items.add(entry);
        }
        i = i + 1;
    }
    proof {
        assert(ds@.take(ds.len() as int) =~= ds@);
    }
    let total = items.len();
    let mut o = JsonObject::new();
    o.add("delegation_responses", items.finish());
    o.add("pagination", pagination_of(total));
    o.finish()
}

/// The delegations of the delegator `address`, one entry per validator with a
/// nonzero stake.
pub fn staking_delegators_delegations(address: &str, ds: &Vec<DelegationRecord>) -> (r: String)
    ensures
        r@ == delegations_response(ds@, address@, Side::Delegator),
{
    delegation_listing(address, Side::Delegator, ds)
}

/// The delegations to the validator `address`, one entry per delegator with a
/// nonzero stake.
pub fn staking_validators_delegations(address: &str, ds: &Vec<DelegationRecord>) -> (r: String)
    ensures
        r@ == delegations_response(ds@, address@, Side::Validator),
{
    delegation_listing(address, Side::Validator, ds)
}

/// The stake of all records.
pub open spec fn total_staked(ds: Seq<DelegationRecord>) -> nat
    decreases ds.len(),
{
    if ds.len() == 0 {
        0
    } else {
        total_staked(ds.drop_last()) + ds.last().staked as nat
    }
}

proof fn lemma_total_staked_prefix(ds: Seq<DelegationRecord>, i: int)
    requires
        0 <= i <= ds.len(),
    ensures
        total_staked(ds.take(i)) <= total_staked(ds),
    decreases ds.len() - i,
{
    if i < ds.len() {
        lemma_total_staked_prefix(ds, i + 1);
        assert(ds.take(i + 1).drop_last() =~= ds.take(i));
    } else {
        assert(ds.take(i) =~= ds);
    }
}

/// The legacy delegation summary: one entry with the total stake.
pub open spec fn delegations_summary_response(ds: Seq<DelegationRecord>) -> Seq<char> {
    let balance = object(
        Seq::empty().push(member("denom"@, quoted("NOM"@))).push(
            member("amount"@, quoted(decimal(total_staked(ds)))),
        ),
    );
    let entry = object(
        Seq::empty().push(member("delegator_address"@, quoted(Seq::empty()))).push(
            member("validator_address"@, quoted(Seq::empty())),
        ).push(member("shares"@, quoted("0"@))).push(member("balance"@, balance)),
    );
    object(
        Seq::empty().push(member("height"@, quoted("0"@))).push(
            member("result"@, array(seq![entry])),
        ),
    )
}

/// The legacy delegation summary of a delegator: the total stake over all its
/// delegations. Requires that total to fit in a `u64`.
pub fn staking_delegators_delegations_2(ds: &Vec<DelegationRecord>) -> (r: String)
    requires
        total_staked(ds@) <= u64::MAX,
    ensures
        r@ == delegations_summary_response(ds@),
{
    let mut sum: u64 = 0;
    let mut i: usize = 0;
    while i < ds.len()
        invariant
            i <= ds.len(),
            total_staked(ds@) <= u64::MAX,
            sum == total_staked(ds@.take(i as int)),
        decreases ds.len() - i,
    {
        proof {
            assert(ds@.take(i + 1).drop_last() =~= ds@.take(i as int));
            lemma_total_staked_prefix(ds@, i + 1);
        }
        sum = sum + ds[i].staked;
        i = i + 1;
    }
    proof {
        assert(ds@.take(ds.len() as int) =~= ds@);
        reveal_strlit("");
    }
    let mut balance = JsonObject::new();
    balance.add("denom", json_string("NOM"));
    balance.add("amount", json_string(u64_text(sum).as_str()));
    let mut entry = JsonObject::new();
    entry.add("delegator_address", json_string(""));
    entry.add("validator_address", json_string(""));
    entry.add("shares", json_string("0"));
    entry.add("balance", balance.finish());
    let mut result = JsonArray::new();
    result.add(entry.finish());
    let mut o = JsonObject::new();
    o.add("height", json_string("0"));
    o.add("result", result.finish());
    o.finish()
}

/// One unbonding entry, or `None` where its start has no UTC time.
pub open spec fn unbond_entry_json(u: Unbond) -> Option<Seq<char>> {
    match utc_rfc3339(u.start_seconds as int) {
        None => None,
        Some(t) => {
            let amount = quoted(decimal(u.amount as nat));
            Some(
                object(
                    Seq::empty().push(member("creation_height"@, quoted("0"@))).push(
                        member("completion_time"@, quoted(t)),
                    ).push(member("initial_balance"@, amount)).push(member("balance"@, amount)),
                ),
            )
        },
    }
}

/// The entries of a list of unbonds, or `None` where one has no UTC time.
pub open spec fn unbond_entries(us: Seq<Unbond>) -> Option<Seq<Seq<char>>>
    decreases us.len(),
{
    if us.len() == 0 {
        Some(Seq::empty())
    } else {
        match (unbond_entries(us.drop_last()), unbond_entry_json(us.last())) {
            (Some(rest), Some(e)) => Some(rest.push(e)),
            _ => None,
        }
    }
}

/// The unbonding item of one record listed for `owner`.
pub open spec fn unbonding_item_json(owner: Seq<char>, side: Side, d: DelegationRecord) -> Option<Seq<char>> {
    let (delegator, validator) = parties(owner, side, d.address@);
    match unbond_entries(d.unbonding@) {
        None => None,
        Some(entries) => Some(
            object(
                Seq::empty().push(member("delegator_address"@, quoted(delegator))).push(
                    member("validator_address"@, quoted(validator)),
                ).push(member("entries"@, array(entries))),
            ),
        ),
    }
}

/// The unbonding items for `owner`: one for each record with unbonding
/// entries; `None` where an entry has no UTC time.
pub open spec fn unbonding_items(ds: Seq<DelegationRecord>, owner: Seq<char>, side: Side) -> Option<Seq<Seq<char>>>
    decreases ds.len(),
{
    if ds.len() == 0 {
        Some(Seq::empty())
    } else {
        let d = ds.last();
        match unbonding_items(ds.drop_last(), owner, side) {
            None => None,
            Some(rest) => if d.unbonding@.len() == 0 {
                Some(rest)
            } else {
                match unbonding_item_json(owner, side, d) {
                    None => None,
                    Some(item) => Some(rest.push(item)),
                }
            },
        }
    }
}

/// The unbonding listing for `owner`, or `None` where an unbonding entry has
/// no UTC time.
pub open spec fn unbonding_response(ds: Seq<DelegationRecord>, owner: Seq<char>, side: Side) -> Option<Seq<char>> {
    match unbonding_items(ds, owner, side) {
        None => None,
        Some(items) => Some(
            object(
                Seq::empty().push(member("unbonding_responses"@, array(items))).push(
                    member("pagination"@, pagination(items.len())),
                ),
            ),
        ),
    }
}

fn unbond_entry(u: &Unbond) -> (r: Option<String>)
    ensures
        match r {
            Some(t) => unbond_entry_json(*u) == Some(t@),
            None => unbond_entry_json(*u) is None,
        },
{
    match utc_timestamp_text(u.start_seconds) {
        None => None,
        Some(t) => {
            let mut o = JsonObject::new();
            o.add("creation_height", json_string("0"));
            o.add("completion_time", json_string(t.as_str()));
            o.add("initial_balance", json_string(u64_text(u.amount).as_str()));
            o.add("balance", json_string(u64_text(u.amount).as_str()));
            Some(o.finish())
        },
    }
}

fn unbonding_item(owner: &str, side: Side, d: &DelegationRecord) -> (r: Option<String>)
    ensures
        match r {
            Some(t) => unbonding_item_json(owner@, side, *d) == Some(t@),
            None => unbonding_item_json(owner@, side, *d) is None,
        },
{
    let mut entries = JsonArray::new();
    let mut i: usize = 0;
    while i < d.unbonding.len()
        invariant
            i <= d.unbonding.len(),
            unbond_entries(d.unbonding@.take(i as int)) == Some(entries.items()),
        decreases d.unbonding.len() - i,
    {
        proof {
            assert(d.unbonding@.take(i + 1).drop_last() =~= d.unbonding@.take(i as int));
        }
        match unbond_entry(&d.unbonding[i]) {
            None => {
                proof {
                    lemma_unbond_entries_none_extends(d.unbonding@, i as int + 1);
                }
                return None;
            },
            Some(e) => {
                entries.add(e);
            },
        }
        i = i + 1;
    }
    proof {
        assert(d.unbonding@.take(d.unbonding.len() as int) =~= d.unbonding@);
    }
    let mut o = JsonObject::new();
    match side {
        Side::Delegator => {
            o.add("delegator_address", json_string(owner));
            o.add("validator_address", json_string(d.address.as_str()));
        },
        Side::Validator => {
            o.add("delegator_address", json_string(d.address.as_str()));
            o.add("validator_address", json_string(owner));
        },
    }
    o.add("entries", entries.finish());
    Some(o.finish())
}

proof fn lemma_unbond_entries_none_extends(us: Seq<Unbond>, i: int)
    requires
        0 <= i <= us.len(),
        unbond_entries(us.take(i)) is None,
    ensures
        unbond_entries(us) is None,
    decreases us.len() - i,
{
    if i < us.len() {
        assert(us.take(i + 1).drop_last() =~= us.take(i));
        lemma_unbond_entries_none_extends(us, i + 1);
    } else {
        assert(us.take(i) =~= us);
    }
}

proof fn lemma_unbonding_items_none_extends(ds: Seq<DelegationRecord>, owner: Seq<char>, side: Side, i: int)
    requires
        0 <= i <= ds.len(),
        unbonding_items(ds.take(i), owner, side) is None,
    ensures
        unbonding_items(ds, owner, side) is None,
    decreases ds.len() - i,
{
    if i < ds.len() {
        assert(ds.take(i + 1).drop_last() =~= ds.take(i));
        lemma_unbonding_items_none_extends(ds, owner, side, i + 1);
    } else {
        assert(ds.take(i) =~= ds);
    }
}

fn unbonding_listing(owner: &str, side: Side, ds: &Vec<DelegationRecord>) -> (r: Option<String>)
    ensures
        match r {
            Some(t) => unbonding_response(ds@, owner@, side) == Some(t@),
            None => unbonding_response(ds@, owner@, side) is None,
        },
{
    let mut items = JsonArray::new();
    let mut i: usize = 0;
    while i < ds.len()
        invariant
            i <= ds.len(),
            unbonding_items(ds@.take(i as int), owner@, side) == Some(items.items()),
        decreases ds.len() - i,
    {
        let d = &ds[i];
        proof {
            assert(ds@.take(i + 1).drop_last() =~= ds@.take(i as int));
        }
        if d.unbonding.len() != 0 {
            match unbonding_item(owner, side, d) {
                None => {
                    proof {
                        lemma_unbonding_items_none_extends(ds@, owner@, side, i as int + 1);
                    }
                    return None;
                },
                Some(item) => {
                    items.add(item);
                },
            }
        }
        i = i + 1;
    }
    proof {
        assert(ds@.take(ds.len() as int) =~= ds@);
    }
    let total = items.len();
    let mut o = JsonObject::new();
    o.add("unbonding_responses", items.finish());
    o.add("pagination", pagination_of(total));
    Some(o.finish())
}

/// The unbonding delegations of the delegator `address`; `None` where an
/// unbonding entry starts at a time chrono cannot represent.
pub fn staking_delegators_unbonding_delegations(address: &str, ds: &Vec<DelegationRecord>) -> (r: Option<String>)
    ensures
        match r {
            Some(t) => unbonding_response(ds@, address@, Side::Delegator) == Some(t@),
            None => unbonding_response(ds@, address@, Side::Delegator) is None,
        },
{
    unbonding_listing(address, Side::Delegator, ds)
}

/// The unbonding delegations to the validator `address`; `None` where an
/// unbonding entry starts at a time chrono cannot represent.
pub fn staking_validators_unbonding_delegations(address: &str, ds: &Vec<DelegationRecord>) -> (r: Option<String>)
    ensures
        match r {
            Some(t) => unbonding_response(ds@, address@, Side::Validator) == Some(t@),
            None => unbonding_response(ds@, address@, Side::Validator) is None,
        },
{
    unbonding_listing(address, Side::Validator, ds)
}

/// The response for one delegation, from the delegator `delegator` to the
/// validator `validator`, staking `staked`.
pub open spec fn single_delegation_json(delegator: Seq<char>, validator: Seq<char>, staked: u64) -> Seq<char> {
    let amount = quoted(decimal(staked as nat));
    let delegation = object(
        Seq::empty().push(member("delegator_address"@, quoted(delegator))).push(
            member("validator_address"@, quoted(validator)),
        ).push(member("shares"@, amount)),
    );
    let balance = object(
        Seq::empty().push(member("denom"@, quoted("unom"@))).push(member("amount"@, amount)),
    );
    object(
        seq![
            member(
                "delegation_response"@,
                object(Seq::empty().push(member("delegation"@, delegation)).push(member("balance"@, balance))),
            ),
        ],
    )
}

/// Where the first record with the address `address` stands in `ds`.
pub open spec fn is_first_with_address(ds: Seq<DelegationRecord>, address: Seq<char>, i: int) -> bool {
    &&& 0 <= i < ds.len()
    &&& ds[i].address@ == address
    &&& forall|j: int| 0 <= j < i ==> ds[j].address@ != address
}

/// Where the first record with the address `address` stands, if any.
pub fn find_record(ds: &Vec<DelegationRecord>, address: &str) -> (r: Option<usize>)
    ensures
        match r {
            Some(i) => is_first_with_address(ds@, address@, i as int),
            None => forall|j: int| 0 <= j < ds@.len() ==> #[trigger] ds@[j].address@ != address@,
        },
{
    let mut i: usize = 0;
    while i < ds.len()
        invariant
            i <= ds.len(),
            forall|j: int| 0 <= j < i ==> ds@[j].address@ != address@,
        decreases ds.len() - i,
    {
        if text_eq(ds[i].address.as_str(), address) {
            return Some(i);
        }
        i = i + 1;
    }
    None
}

/// Whether some record has the address `address`.
pub open spec fn has_address(ds: Seq<DelegationRecord>, address: Seq<char>) -> bool {
    exists|i: int| 0 <= i < ds.len() && #[trigger] ds[i].address@ == address
}

/// Whether some record has the address `address`.
pub fn delegation_found(address: &str, ds: &Vec<DelegationRecord>) -> (r: bool)
    ensures
        r == has_address(ds@, address@),
{
    match find_record(ds, address) {
        Some(_) => true,
        None => false,
    }
}

/// The delegation of `delegator` to `validator`, taken from the first of the
/// delegator's records `ds` (which name validators) that names the validator.
/// Requires such a record.
pub fn staking_validator_single_delegation(validator: &str, delegator: &str, ds: &Vec<DelegationRecord>) -> (r: String)
    requires
        has_address(ds@, validator@),
    ensures
        exists|i: int|
            is_first_with_address(ds@, validator@, i) && r@ == single_delegation_json(
                delegator@,
                validator@,
                #[trigger] ds@[i].staked,
            ),
{
    match find_record(ds, validator) {
        None => {
            proof {
                let k = choose|k: int| 0 <= k < ds@.len() && #[trigger] ds@[k].address@ == validator@;
                assert(ds@[k].address@ != validator@);
            }
            JsonObject::new().finish()
        },
        Some(i) => {
            let staked = ds[i].staked;
            let mut delegation = JsonObject::new();
            delegation.add("delegator_address", json_string(delegator));
            delegation.add("validator_address", json_string(validator));
            delegation.add("shares", json_string(u64_text(staked).as_str()));
            let mut balance = JsonObject::new();
            balance.add("denom", json_string("unom"));
            balance.add("amount", json_string(u64_text(staked).as_str()));
            let mut inner = JsonObject::new();
            inner.add("delegation", delegation.finish());
            inner.add("balance", balance.finish());
            let mut o = JsonObject::new();
            o.add("delegation_response", inner.finish());
            o.finish()
        },
    }
}

/// The records of `ds` with a nonzero stake, in order: those the delegation
/// listings list.
pub open spec fn staked_records(ds: Seq<DelegationRecord>) -> Seq<DelegationRecord>
    decreases ds.len(),
{
    if ds.len() == 0 {
        Seq::empty()
    } else {
        let rest = staked_records(ds.drop_last());
        if ds.last().staked == 0 {
            rest
        } else {
            rest.push(ds.last())
        }
    }
}

/// The listing entry of one record, listed for `owner`.
pub open spec fn entry_of(owner: Seq<char>, side: Side, d: DelegationRecord) -> Seq<char> {
    let (delegator, validator) = parties(owner, side, d.address@);
    delegation_entry_json(delegator, validator, d.staked)
}

/// The delegation listing has one entry for each record with a nonzero stake,
/// and the legacy summary's total is the total of exactly those records'
/// stakes: the amounts the listing shows.
pub proof fn lemma_summary_totals_listing(ds: Seq<DelegationRecord>, owner: Seq<char>, side: Side)
    ensures
        delegation_entries(ds, owner, side) == staked_records(ds).map_values(
            |d: DelegationRecord| entry_of(owner, side, d),
        ),
        total_staked(ds) == total_staked(staked_records(ds)),
    decreases ds.len(),
{
    let f = |d: DelegationRecord| entry_of(owner, side, d);
    if ds.len() > 0 {
        let prev = ds.drop_last();
        lemma_summary_totals_listing(prev, owner, side);
        let rest = staked_records(prev);
        if ds.last().staked != 0 {
            assert(rest.push(ds.last()).map_values(f) =~= rest.map_values(f).push(f(ds.last())));
            assert(rest.push(ds.last()).drop_last() =~= rest);
        }
    } else {
        assert(delegation_entries(ds, owner, side) =~= staked_records(ds).map_values(f));
    }
}

/// The unbonding listing of no delegations is empty. Adding a delegation with
/// no unbonding entries leaves the listing as it was; adding one with entries,
/// whatever its stake, appends its item, or makes the listing fail where one
/// of its entries has no UTC time.
pub proof fn lemma_unbonding_listing_grows(ds: Seq<DelegationRecord>, d: DelegationRecord, owner: Seq<char>, side: Side)
    ensures
        unbonding_items(Seq::empty(), owner, side) == Some(Seq::<Seq<char>>::empty()),
        d.unbonding@.len() == 0 ==> unbonding_items(ds.push(d), owner, side) == unbonding_items(ds, owner, side),
        d.unbonding@.len() > 0 ==> unbonding_items(ds.push(d), owner, side) == match (
            unbonding_items(ds, owner, side),
            unbonding_item_json(owner, side, d),
        ) {
            (Some(rest), Some(item)) => Some(rest.push(item)),
            _ => None::<Seq<Seq<char>>>,
        },
{
    assert(ds.push(d).drop_last() =~= ds);
    assert(ds.push(d).last() == d);
}

/// The delegation listing of no delegations is empty, and so is their total
/// stake. Adding a delegation appends its entry exactly when its stake is
/// nonzero, and adds its stake to the total.
pub proof fn lemma_delegation_listing_grows(ds: Seq<DelegationRecord>, d: DelegationRecord, owner: Seq<char>, side: Side)
    ensures
        delegation_entries(Seq::empty(), owner, side) == Seq::<Seq<char>>::empty(),
        total_staked(Seq::empty()) == 0,
        d.staked != 0 ==> delegation_entries(ds.push(d), owner, side) == delegation_entries(ds, owner, side).push(
            entry_of(owner, side, d),
        ),
        d.staked == 0 ==> delegation_entries(ds.push(d), owner, side) == delegation_entries(ds, owner, side),
        total_staked(ds.push(d)) == total_staked(ds) + d.staked,
{
    assert(ds.push(d).drop_last() =~= ds);
    assert(ds.push(d).last() == d);
}

/// Listed for a delegator, a record names the delegator as the queried address
/// and the validator as the record's address; listed for a validator, the
/// other way round. A listing entry gives the stake as both its shares and its
/// `unom` balance.
pub proof fn lemma_entry_parties(owner: Seq<char>, d: DelegationRecord)
    ensures
        entry_of(owner, Side::Delegator, d) == delegation_entry_json(owner, d.address@, d.staked),
        entry_of(owner, Side::Validator, d) == delegation_entry_json(d.address@, owner, d.staked),
        forall|delegator: Seq<char>, validator: Seq<char>, staked: u64|
            #[trigger] delegation_entry_json(delegator, validator, staked) == object(
                Seq::empty().push(
                    member(
                        "delegation"@,
                        object(
                            Seq::empty().push(member("delegator_address"@, quoted(delegator))).push(
                                member("validator_address"@, quoted(validator)),
                            ).push(member("shares"@, quoted(decimal(staked as nat)))),
                        ),
                    ),
                ).push(
                    member(
                        "balance"@,
                        object(
                            Seq::empty().push(member("denom"@, quoted("unom"@))).push(
                                member("amount"@, quoted(decimal(staked as nat))),
                            ),
                        ),
                    ),
                ),
            ),
{
}

/// The entries of no unbonds are empty. Each further unbond appends its entry,
/// whose completion time is chrono's text of its start and whose initial
/// balance and balance are its amount; the entries fail where its start has
/// no UTC time.
pub proof fn lemma_unbond_entries_grow(us: Seq<Unbond>, u: Unbond)
    ensures
        unbond_entries(Seq::empty()) == Some(Seq::<Seq<char>>::empty()),
        unbond_entries(us.push(u)) == match (unbond_entries(us), utc_rfc3339(u.start_seconds as int)) {
            (Some(rest), Some(t)) => Some(
                rest.push(
                    object(
                        Seq::empty().push(member("creation_height"@, quoted("0"@))).push(
                            member("completion_time"@, quoted(t)),
                        ).push(member("initial_balance"@, quoted(decimal(u.amount as nat)))).push(
                            member("balance"@, quoted(decimal(u.amount as nat))),
                        ),
                    ),
                ),
            ),
            _ => None::<Seq<Seq<char>>>,
        },
{
    assert(us.push(u).drop_last() =~= us);
    assert(us.push(u).last() == u);
}

} // verus!
