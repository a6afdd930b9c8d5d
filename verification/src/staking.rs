//! Validators: their status, their listing, the staking pool and parameters.
use vstd::prelude::*;
use crate::codec::{base64_encode, base64_standard, text_eq};
use crate::json::{
    array, boolean, json_bool, json_null, json_string, member, null, object, quoted, JsonArray,
    JsonObject,
};
use crate::number::{decimal, u64_text};

verus! {

/// A validator's self-declared description.
#[derive(Debug)]
pub struct DeclareInfo {
    pub details: String,
    pub identity: String,
    pub moniker: String,
    pub website: String,
}

/// What a validator's declared bytes turned out to be.
#[derive(Debug)]
pub enum Declaration {
    /// UTF-8 text that parses as a description.
    Parsed(DeclareInfo),
    /// UTF-8 text that does not parse as one: described with empty texts.
    Unparsed,
    /// Bytes that are not UTF-8: the validator cannot be described.
    NotUtf8,
}

/// What the node reports of one validator. The commission fields hold the
/// JSON text of the node's decimal values.
#[derive(Debug)]
pub struct ValidatorRecord {
    pub address: String,
    pub consensus_key: Vec<u8>,
    pub jailed: bool,
    pub unbonding: bool,
    pub in_active_set: bool,
    pub amount_staked: u64,
    pub info: Declaration,
    pub commission_rate: String,
    pub commission_max: String,
    pub commission_max_change: String,
    pub min_self_delegation: u64,
}

/// The bond status of a validator: unbonding first, then whether it is in the
/// active set.
pub open spec fn validator_status(unbonding: bool, in_active_set: bool) -> Seq<char> {
    if unbonding {
        "BOND_STATUS_UNBONDING"@
    } else if in_active_set {
        "BOND_STATUS_BONDED"@
    } else {
        "BOND_STATUS_UNBONDED"@
    }
}

/// The status of a record.
pub open spec fn status_of(v: ValidatorRecord) -> Seq<char> {
    validator_status(v.unbonding, v.in_active_set)
}

/// The description object; an unparsed declaration describes with empty texts.
pub open spec fn description_json(info: Declaration) -> Seq<char> {
    let (moniker, identity, website, details) = match info {
        Declaration::Parsed(i) => (i.moniker@, i.identity@, i.website@, i.details@),
        _ => (Seq::<char>::empty(), Seq::<char>::empty(), Seq::<char>::empty(), Seq::<char>::empty()),
    };
    object(
        Seq::empty().push(member("moniker"@, quoted(moniker))).push(member("identity"@, quoted(identity))).push(member("website"@, quoted(website))).push(member("security_contact"@, quoted(Seq::empty()))).push(member("details"@, quoted(details))),
    )
}

/// The commission object of a record.
pub open spec fn commission_json(v: ValidatorRecord) -> Seq<char> {
    object(
        Seq::empty().push(member(
                "commission_rates"@,
                object(
                    Seq::empty().push(member("rate"@, v.commission_rate@)).push(member("max_rate"@, v.commission_max@)).push(member("max_change_rate"@, v.commission_max_change@)),
                ),
            )).push(member("update_time"@, quoted("2023-08-04T06:00:00.000000000Z"@))),
    )
}

/// The consensus key object of a record: its key in base64.
pub open spec fn consensus_pubkey_json(v: ValidatorRecord) -> Seq<char> {
    object(
        Seq::empty().push(member("@type"@, quoted("/cosmos.crypto.ed25519.PubKey"@))).push(member("key"@, quoted(base64_standard(v.consensus_key@)))),
    )
}

/// The JSON object describing one validator.
pub open spec fn validator_json(v: ValidatorRecord) -> Seq<char> {
    object(
        Seq::empty().push(member("operator_address"@, quoted(v.address@))).push(member("consensus_pubkey"@, consensus_pubkey_json(v))).push(member("jailed"@, boolean(v.jailed))).push(member("status"@, quoted(status_of(v)))).push(member("tokens"@, quoted(decimal(v.amount_staked as nat)))).push(member("delegator_shares"@, quoted(decimal(v.amount_staked as nat)))).push(member("description"@, description_json(v.info))).push(member("unbonding_height"@, quoted("0"@))).push(member("unbonding_time"@, quoted("1970-01-01T00:00:00Z"@))).push(member("commission"@, commission_json(v))).push(member("min_self_delegation"@, quoted(decimal(v.min_self_delegation as nat)))),
    )
}

/// Whether a record is listed under the status filter `status`.
pub open spec fn shown(v: ValidatorRecord, status: Option<Seq<char>>) -> bool {
    match status {
        None => true,
        Some(s) => s == status_of(v),
    }
}

/// The records of `all` that the filter shows, in order.
pub open spec fn shown_validators(all: Seq<ValidatorRecord>, status: Option<Seq<char>>) -> Seq<ValidatorRecord>
    decreases all.len(),
{
    if all.len() == 0 {
        Seq::empty()
    } else {
        let rest = shown_validators(all.drop_last(), status);
        if shown(all.last(), status) {
            rest.push(all.last())
        } else {
            rest
        }
    }
}

/// The pagination object for `total` results.
pub open spec fn pagination(total: nat) -> Seq<char> {
    object(Seq::empty().push(member("next_key"@, null())).push(member("total"@, quoted(decimal(total)))))
}

/// The response listing the validators that the filter shows.
pub open spec fn validators_response(all: Seq<ValidatorRecord>, status: Option<Seq<char>>) -> Seq<char> {
    let listed = shown_validators(all, status);
    object(
        Seq::empty().push(member("validators"@, array(listed.map_values(|v: ValidatorRecord| validator_json(v))))).push(member("pagination"@, pagination(listed.len()))),
    )
}

/// The view of an optional text.
pub open spec fn opt_view(s: Option<String>) -> Option<Seq<char>> {
    match s {
        Some(t) => Some(t@),
        None => None,
    }
}

/// The bond status of a validator.
pub fn bond_status(unbonding: bool, in_active_set: bool) -> (r: &'static str)
    ensures
        r@ == validator_status(unbonding, in_active_set),
{
    if unbonding {
        "BOND_STATUS_UNBONDING"
    } else if in_active_set {
        "BOND_STATUS_BONDED"
    } else {
        "BOND_STATUS_UNBONDED"
    }
}

fn description(info: &Declaration) -> (r: String)
    ensures
        r@ == description_json(*info),
{
    let mut o = JsonObject::new();
    match info {
        Declaration::Parsed(i) => {
            o.add("moniker", json_string(i.moniker.as_str()));
            o.add("identity", json_string(i.identity.as_str()));
            o.add("website", json_string(i.website.as_str()));
            o.add("security_contact", json_string(""));
            o.add("details", json_string(i.details.as_str()));
        },
        _ => {
            o.add("moniker", json_string(""));
            o.add("identity", json_string(""));
            o.add("website", json_string(""));
            o.add("security_contact", json_string(""));
            o.add("details", json_string(""));
        },
    }
    proof {
        reveal_strlit("");
    }
    o.finish()
}

fn commission(v: &ValidatorRecord) -> (r: String)
    ensures
        r@ == commission_json(*v),
{
    let mut rates = JsonObject::new();
    rates.add("rate", v.commission_rate.clone());
    rates.add("max_rate", v.commission_max.clone());
    rates.add("max_change_rate", v.commission_max_change.clone());
    let mut o = JsonObject::new();
    o.add("commission_rates", rates.finish());
    o.add("update_time", json_string("2023-08-04T06:00:00.000000000Z"));
    o.finish()
}

fn consensus_pubkey(v: &ValidatorRecord) -> (r: String)
    ensures
        r@ == consensus_pubkey_json(*v),
{
    let mut o = JsonObject::new();
    o.add("@type", json_string("/cosmos.crypto.ed25519.PubKey"));
    let key = base64_encode(v.consensus_key.as_slice());
    o.add("key", json_string(key.as_str()));
    o.finish()
}

/// The JSON object describing one validator.
pub fn validator_entry(v: &ValidatorRecord) -> (r: String)
    ensures
        r@ == validator_json(*v),
{
    let status = bond_status(v.unbonding, v.in_active_set);
    let mut o = JsonObject::new();
    o.add("operator_address", json_string(v.address.as_str()));
    o.add("consensus_pubkey", consensus_pubkey(v));
    o.add("jailed", json_bool(v.jailed));
    o.add("status", json_string(status));
    o.add("tokens", json_string(u64_text(v.amount_staked).as_str()));
    o.add("delegator_shares", json_string(u64_text(v.amount_staked).as_str()));
    o.add("description", description(&v.info));
    o.add("unbonding_height", json_string("0"));
    o.add("unbonding_time", json_string("1970-01-01T00:00:00Z"));
    o.add("commission", commission(v));
    o.add("min_self_delegation", json_string(u64_text(v.min_self_delegation).as_str()));
    o.finish()
}

/// The pagination object for `total` results.
pub(crate) fn pagination_of(total: usize) -> (r: String)
    ensures
        r@ == pagination(total as nat),
{
    let mut o = JsonObject::new();
    o.add("next_key", json_null());
    o.add("total", json_string(u64_text(total as u64).as_str()));
    o.finish()
}

/// Whether a record's declaration is no UTF-8 text.
pub open spec fn undescribable(v: ValidatorRecord) -> bool {
    v.info is NotUtf8
}

/// Whether every validator the filter lists can be described: none of their
/// declarations is bytes that are not UTF-8.
pub open spec fn listing_describable(all: Seq<ValidatorRecord>, status: Option<Seq<char>>) -> bool {
    forall|i: int| 0 <= i < all.len() && shown(all[i], status) ==> !#[trigger] undescribable(all[i])
}

fn status_shown(status: &Option<String>, v: &ValidatorRecord) -> (r: bool)
    ensures
        r == shown(*v, opt_view(*status)),
{
    let status_text = bond_status(v.unbonding, v.in_active_set);
    match status {
        None => true,
        Some(s) => text_eq(s.as_str(), status_text),
    }
}

/// Whether the listing under `status` can be given: every validator it lists
/// has a declaration that is UTF-8 text.
pub fn validators_describable(status: &Option<String>, all: &Vec<ValidatorRecord>) -> (r: bool)
    ensures
        r == listing_describable(all@, opt_view(*status)),
{
    let mut i: usize = 0;
    while i < all.len()
        invariant
            i <= all.len(),
            forall|j: int| 0 <= j < i && shown(all@[j], opt_view(*status)) ==> !#[trigger] undescribable(all@[j]),
        decreases all.len() - i,
    {
        if status_shown(status, &all[i]) {
            if let Declaration::NotUtf8 = all[i].info {
                assert(undescribable(all@[i as int]));
                return false;
            }
        }
        i = i + 1;
    }
    true
}

/// The validator listing, filtered by bond status when `status` is given.
/// Requires every listed validator's declaration to be UTF-8 text.
pub fn validators(status: &Option<String>, all: &Vec<ValidatorRecord>) -> (r: String)
    requires
        listing_describable(all@, opt_view(*status)),
    ensures
        r@ == validators_response(all@, opt_view(*status)),
{
    let ghost st = opt_view(*status);
    let mut items = JsonArray::new();
    let mut i: usize = 0;
    while i < all.len()
        invariant
            i <= all.len(),
            st == opt_view(*status),
            items.items() == shown_validators(all@.take(i as int), st).map_values(
                |v: ValidatorRecord| validator_json(v),
            ),
        decreases all.len() - i,
    {
        let v = &all[i];
        let ghost prev = all@.take(i as int);
        proof {
            assert(all@.take(i + 1).drop_last() =~= prev);
            assert(all@.take(i + 1).last() == *v);
        }
        if status_shown(status, v) {
            let entry = validator_entry(v);
            items.add(entry);
            proof {
                let f = |v: ValidatorRecord| validator_json(v);
                assert(shown_validators(prev, st).push(*v).map_values(f) =~= shown_validators(
                    prev,
                    st,
                ).map_values(f).push(f(*v)));
            }
        }
        i = i + 1;
    }
    proof {
        assert(all@.take(all.len() as int) =~= all@);
    }
    let total = items.len();
    let mut o = JsonObject::new();
    o.add("validators", items.finish());
    o.add("pagination", pagination_of(total));
    o.finish()
}

/// Whether the single-validator answer can be given for `address`: some
/// record has it, and every record that has it has a UTF-8 declaration.
pub open spec fn validator_answerable(all: Seq<ValidatorRecord>, address: Seq<char>) -> bool {
    &&& exists|i: int| 0 <= i < all.len() && #[trigger] all[i].address@ == address
    &&& forall|i: int| 0 <= i < all.len() && all[i].address@ == address ==> !#[trigger] undescribable(all[i])
}

/// Whether the single-validator answer can be given for `address`.
pub fn validator_found(address: &str, all: &Vec<ValidatorRecord>) -> (r: bool)
    ensures
        r == validator_answerable(all@, address@),
{
    let mut found = false;
    let mut i: usize = 0;
    while i < all.len()
        invariant
            i <= all.len(),
            found == exists|j: int| 0 <= j < i && #[trigger] all@[j].address@ == address@,
            forall|j: int| 0 <= j < i && all@[j].address@ == address@ ==> !#[trigger] undescribable(all@[j]),
        decreases all.len() - i,
    {
        if text_eq(all[i].address.as_str(), address) {
            if let Declaration::NotUtf8 = all[i].info {
                assert(undescribable(all@[i as int]));
                return false;
            }
            found = true;
        }
        i = i + 1;
    }
    found
}

/// The response for one validator: the first record with the given address.
/// Requires a record with that address, and a UTF-8 declaration in every
/// record that has it.
pub fn validator(address: &str, all: &Vec<ValidatorRecord>) -> (r: String)
    requires
        validator_answerable(all@, address@),
    ensures
        exists|i: int|
            0 <= i < all@.len() && #[trigger] all@[i].address@ == address@ && (forall|j: int|
                0 <= j < i ==> all@[j].address@ != address@) && r@ == object(
                seq![member("validator"@, validator_json(all@[i]))],
            ),
{
    let mut i: usize = 0;
    while i < all.len()
        invariant
            i <= all.len(),
            validator_answerable(all@, address@),
            forall|j: int| 0 <= j < i ==> all@[j].address@ != address@,
        decreases all.len() - i,
    {
        if text_eq(all[i].address.as_str(), address) {
            let mut o = JsonObject::new();
            o.add("validator", validator_entry(&all[i]));
            return o.finish();
        }
        i = i + 1;
    }
    proof {
        let k = choose|k: int| 0 <= k < all@.len() && #[trigger] all@[k].address@ == address@;
        assert(all@[k].address@ != address@);
    }
    JsonObject::new().finish()
}

/// Every validator the status filter lists has that status, and without a
/// filter every validator is listed.
pub proof fn lemma_listed_validators_have_status(all: Seq<ValidatorRecord>, status: Seq<char>)
    ensures
        forall|i: int|
            0 <= i < shown_validators(all, Some(status)).len() ==> status_of(
                #[trigger] shown_validators(all, Some(status))[i],
            ) == status,
        shown_validators(all, Some(status)).len() <= all.len(),
        shown_validators(all, None) == all,
    decreases all.len(),
{
    if all.len() > 0 {
        lemma_listed_validators_have_status(all.drop_last(), status);
        assert(shown_validators(all.drop_last(), None).push(all.last()) =~= all);
    } else {
        assert(shown_validators(all, None) =~= all);
    }
}

/// The stake of the records in `all` whose membership of the active set is
/// `active`.
pub open spec fn stake_by_activity(all: Seq<ValidatorRecord>, active: bool) -> nat
    decreases all.len(),
{
    if all.len() == 0 {
        0
    } else {
        stake_by_activity(all.drop_last(), active) + if all.last().in_active_set == active {
            all.last().amount_staked as nat
        } else {
            0
        }
    }
}

/// The stake of all records.
pub open spec fn total_stake(all: Seq<ValidatorRecord>) -> nat
    decreases all.len(),
{
    if all.len() == 0 {
        0
    } else {
        total_stake(all.drop_last()) + all.last().amount_staked as nat
    }
}

/// The staking pool response: bonded and not bonded stake.
pub open spec fn staking_pool_response(all: Seq<ValidatorRecord>) -> Seq<char> {
    let pool = object(
        Seq::empty().push(member("bonded_tokens"@, quoted(decimal(stake_by_activity(all, true))))).push(
            member("not_bonded_tokens"@, quoted(decimal(stake_by_activity(all, false)))),
        ),
    );
    object(seq![member("pool"@, pool)])
}

proof fn lemma_stake_by_activity_prefix(all: Seq<ValidatorRecord>, i: int, active: bool)
    requires
        0 <= i <= all.len(),
    ensures
        stake_by_activity(all.take(i), active) <= stake_by_activity(all, active),
    decreases all.len() - i,
{
    if i < all.len() {
        lemma_stake_by_activity_prefix(all, i + 1, active);
        assert(all.take(i + 1).drop_last() =~= all.take(i));
    } else {
        assert(all.take(i) =~= all);
    }
}

fn stake_sum(all: &Vec<ValidatorRecord>, active: bool) -> (r: u64)
    requires
        stake_by_activity(all@, active) <= u64::MAX,
    ensures
        r == stake_by_activity(all@, active),
{
    let mut sum: u64 = 0;
    let mut i: usize = 0;
    while i < all.len()
        invariant
            i <= all.len(),
            stake_by_activity(all@, active) <= u64::MAX,
            sum == stake_by_activity(all@.take(i as int), active),
        decreases all.len() - i,
    {
        proof {
            assert(all@.take(i + 1).drop_last() =~= all@.take(i as int));
            lemma_stake_by_activity_prefix(all@, i + 1, active);
        }
        if all[i].in_active_set == active {
            sum = sum + all[i].amount_staked;
        }
        i = i + 1;
    }
    proof {
        assert(all@.take(all.len() as int) =~= all@);
    }
    sum
}

/// The staking pool: the stake of validators in the active set is bonded,
/// the rest is not. Requires each of the two sums to fit in a `u64`.
pub fn staking_pool(all: &Vec<ValidatorRecord>) -> (r: String)
    requires
        stake_by_activity(all@, true) <= u64::MAX,
        stake_by_activity(all@, false) <= u64::MAX,
    ensures
        r@ == staking_pool_response(all@),
{
    let bonded = stake_sum(all, true);
    let not_bonded = stake_sum(all, false);
    let mut pool = JsonObject::new();
    pool.add("bonded_tokens", json_string(u64_text(bonded).as_str()));
    pool.add("not_bonded_tokens", json_string(u64_text(not_bonded).as_str()));
    let mut o = JsonObject::new();
    o.add("pool", pool.finish());
    o.finish()
}

/// Bonded and not bonded stake together make up all the stake.
pub proof fn lemma_pool_partitions_stake(all: Seq<ValidatorRecord>)
    ensures
        stake_by_activity(all, true) + stake_by_activity(all, false) == total_stake(all),
    decreases all.len(),
{
    if all.len() > 0 {
        lemma_pool_partitions_stake(all.drop_last());
    }
}

/// The yearly inflation of the staking coin, in unom, from which the rate
/// reported by the inflation routes is computed.
pub const YEARLY_INFLATION: u64 = 64_682_541_340_000;

proof fn lemma_total_stake_prefix(all: Seq<ValidatorRecord>, i: int)
    requires
        0 <= i <= all.len(),
    ensures
        total_stake(all.take(i)) <= total_stake(all),
    decreases all.len() - i,
{
    if i < all.len() {
        lemma_total_stake_prefix(all, i + 1);
        assert(all.take(i + 1).drop_last() =~= all.take(i));
    } else {
        assert(all.take(i) =~= all);
    }
}

/// The divisor of the inflation rate: the total stake of all validators plus
/// one. Requires that sum to fit in a `u64`.
pub fn inflation_divisor(all: &Vec<ValidatorRecord>) -> (r: u64)
    requires
        total_stake(all@) < u64::MAX,
    ensures
        r == total_stake(all@) + 1,
{
    let mut sum: u64 = 0;
    let mut i: usize = 0;
    while i < all.len()
        invariant
            i <= all.len(),
            total_stake(all@) < u64::MAX,
            sum == total_stake(all@.take(i as int)),
        decreases all.len() - i,
    {
        proof {
            assert(all@.take(i + 1).drop_last() =~= all@.take(i as int));
            lemma_total_stake_prefix(all@, i + 1);
        }
        sum = sum + all[i].amount_staked;
        i = i + 1;
    }
    proof {
        assert(all@.take(all.len() as int) =~= all@);
    }
    sum + 1
}

/// The inflation response, given the text of the rate.
pub open spec fn inflation_response(rate: Seq<char>) -> Seq<char> {
    object(seq![member("inflation"@, quoted(rate))])
}

/// The inflation rate, given as decimal text.
pub fn minting_inflation(rate: &str) -> (r: String)
    ensures
        r@ == inflation_response(rate@),
{
    let mut o = JsonObject::new();
    o.add("inflation", json_string(rate));
    o.finish()
}

/// The legacy inflation response, given the text of the rate.
pub open spec fn inflation_2_response(rate: Seq<char>) -> Seq<char> {
    object(Seq::empty().push(member("height"@, quoted("0"@))).push(member("result"@, quoted(rate))))
}

/// The inflation rate, given as decimal text (the legacy route).
pub fn minting_inflation_2(rate: &str) -> (r: String)
    ensures
        r@ == inflation_2_response(rate@),
{
    let mut o = JsonObject::new();
    o.add("height", json_string("0"));
    o.add("result", json_string(rate));
    o.finish()
}

/// The staking parameters response. The unbonding time is written in
/// seconds with an `s` suffix.
pub open spec fn staking_params_response(unbonding_seconds: nat, max_validators: nat) -> Seq<char> {
    let params = object(
        Seq::empty().push(member("unbonding_time"@, quoted(decimal(unbonding_seconds) + "s"@))).push(
            member("max_validators"@, decimal(max_validators)),
        ).push(member("max_entries"@, decimal(7))).push(member("historical_entries"@, decimal(1000))).push(
            member("bond_denom"@, quoted("unom"@)),
        ),
    );
    object(seq![member("params"@, params)])
}

/// The staking parameters: the unbonding period and the size of the active
/// set.
pub fn staking_params(unbonding_seconds: u64, max_validators: u64) -> (r: String)
    ensures
        r@ == staking_params_response(unbonding_seconds as nat, max_validators as nat),
{
    let mut unbonding = u64_text(unbonding_seconds);
    unbonding.append("s");
    let mut params = JsonObject::new();
    params.add("unbonding_time", json_string(unbonding.as_str()));
    params.add("max_validators", u64_text(max_validators));
    params.add("max_entries", u64_text(7));
    params.add("historical_entries", u64_text(1000));
    params.add("bond_denom", json_string("unom"));
    let mut o = JsonObject::new();
    o.add("params", params.finish());
    o.finish()
}

/// A validator's status is unbonding exactly when it is unbonding, whether or
/// not it is in the active set; bonded exactly when it is not unbonding and is
/// in the active set; and unbonded otherwise.
pub proof fn lemma_status_by_flags(unbonding: bool, in_active_set: bool)
    ensures
        (validator_status(unbonding, in_active_set) == "BOND_STATUS_UNBONDING"@) == unbonding,
        (validator_status(unbonding, in_active_set) == "BOND_STATUS_BONDED"@) == (!unbonding && in_active_set),
        (validator_status(unbonding, in_active_set) == "BOND_STATUS_UNBONDED"@) == (!unbonding && !in_active_set),
{
    reveal_strlit("BOND_STATUS_UNBONDING");
    reveal_strlit("BOND_STATUS_BONDED");
    reveal_strlit("BOND_STATUS_UNBONDED");
    assert("BOND_STATUS_UNBONDING"@.len() != "BOND_STATUS_BONDED"@.len());
    assert("BOND_STATUS_UNBONDING"@.len() != "BOND_STATUS_UNBONDED"@.len());
    assert("BOND_STATUS_BONDED"@.len() != "BOND_STATUS_UNBONDED"@.len());
}

/// Listing with a status filter adds a validator exactly when it has that
/// status: the unbonding filter keeps exactly the unbonding validators, the
/// bonded filter exactly those not unbonding and in the active set, and the
/// unbonded filter exactly those neither unbonding nor in it. No filter keeps
/// every validator.
pub proof fn lemma_status_filters_grow(all: Seq<ValidatorRecord>, v: ValidatorRecord)
    ensures
        shown_validators(Seq::empty(), None) == Seq::<ValidatorRecord>::empty(),
        shown_validators(all.push(v), None) == shown_validators(all, None).push(v),
        shown_validators(all.push(v), Some("BOND_STATUS_UNBONDING"@)) == if v.unbonding {
            shown_validators(all, Some("BOND_STATUS_UNBONDING"@)).push(v)
        } else {
            shown_validators(all, Some("BOND_STATUS_UNBONDING"@))
        },
        shown_validators(all.push(v), Some("BOND_STATUS_BONDED"@)) == if !v.unbonding && v.in_active_set {
            shown_validators(all, Some("BOND_STATUS_BONDED"@)).push(v)
        } else {
            shown_validators(all, Some("BOND_STATUS_BONDED"@))
        },
        shown_validators(all.push(v), Some("BOND_STATUS_UNBONDED"@)) == if !v.unbonding && !v.in_active_set {
            shown_validators(all, Some("BOND_STATUS_UNBONDED"@)).push(v)
        } else {
            shown_validators(all, Some("BOND_STATUS_UNBONDED"@))
        },
{
    assert(all.push(v).drop_last() =~= all);
    assert(all.push(v).last() == v);
    lemma_status_by_flags(v.unbonding, v.in_active_set);
}

/// The pool of no validators is empty. Adding a validator adds its stake to
/// the bonded tokens exactly when it is in the active set, and to the not
/// bonded tokens exactly when it is not, whatever its unbonding flag; the total
/// stake, which the inflation divisor counts, grows by its stake either way.
pub proof fn lemma_pool_grows(all: Seq<ValidatorRecord>, v: ValidatorRecord)
    ensures
        stake_by_activity(Seq::empty(), true) == 0,
        stake_by_activity(Seq::empty(), false) == 0,
        total_stake(Seq::empty()) == 0,
        stake_by_activity(all.push(v), true) == stake_by_activity(all, true) + if v.in_active_set {
            v.amount_staked as nat
        } else {
            0
        },
        stake_by_activity(all.push(v), false) == stake_by_activity(all, false) + if !v.in_active_set {
            v.amount_staked as nat
        } else {
            0
        },
        total_stake(all.push(v)) == total_stake(all) + v.amount_staked,
{
    assert(all.push(v).drop_last() =~= all);
    assert(all.push(v).last() == v);
}

} // verus!
