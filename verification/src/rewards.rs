//! Distribution rewards: the liquid coins that delegations have earned.
use vstd::prelude::*;
use crate::delegations::{find_record, has_address, is_first_with_address, DelegationRecord, NBTC_INDEX, NOM_INDEX};
use crate::json::{array, json_string, member, object, quoted, JsonArray, JsonObject};
use crate::number::{decimal, u64_text};

verus! {

/// The total of all liquid amounts of a delegation, whatever the denomination.
pub open spec fn liquid_total(l: Seq<(u8, u64)>) -> nat
    decreases l.len(),
{
    if l.len() == 0 {
        0
    } else {
        liquid_total(l.drop_last()) + l.last().1 as nat
    }
}

/// The amount of the first liquid entry in the denomination `denom`, or zero
/// where there is none.
pub open spec fn denom_amount(l: Seq<(u8, u64)>, denom: u8) -> u64
    decreases l.len(),
{
    if l.len() == 0 {
        0
    } else if l[0].0 == denom {
        l[0].1
    } else {
        denom_amount(l.drop_first(), denom)
    }
}

/// Whether a delegation is listed among the rewards: it has a liquid amount.
pub open spec fn rewarded(d: DelegationRecord) -> bool {
    liquid_total(d.liquid@) != 0
}

/// The sum, over the rewarded delegations, of their amounts in `denom`.
pub open spec fn rewarded_sum(ds: Seq<DelegationRecord>, denom: u8) -> nat
    decreases ds.len(),
{
    if ds.len() == 0 {
        0
    } else {
        rewarded_sum(ds.drop_last(), denom) + if rewarded(ds.last()) {
            denom_amount(ds.last().liquid@, denom) as nat
        } else {
            0
        }
    }
}

/// A coin amount in the denomination named `name`.
pub open spec fn coin_json(name: Seq<char>, amount: nat) -> Seq<char> {
    object(Seq::empty().push(member("denom"@, quoted(name))).push(member("amount"@, quoted(decimal(amount)))))
}

/// The `unom` and `usat` amounts of a delegation's liquid rewards.
pub open spec fn reward_coins_json(l: Seq<(u8, u64)>) -> Seq<char> {
    array(
        Seq::empty().push(coin_json("unom"@, denom_amount(l, NOM_INDEX) as nat)).push(
            coin_json("usat"@, denom_amount(l, NBTC_INDEX) as nat),
        ),
    )
}

/// The reward item of one delegation.
pub open spec fn reward_item_json(d: DelegationRecord) -> Seq<char> {
    object(
        Seq::empty().push(member("validator_address"@, quoted(d.address@))).push(
            member("reward"@, reward_coins_json(d.liquid@)),
        ),
    )
}

/// The reward items of the rewarded delegations, in order.
pub open spec fn reward_items(ds: Seq<DelegationRecord>) -> Seq<Seq<char>>
    decreases ds.len(),
{
    if ds.len() == 0 {
        Seq::empty()
    } else {
        let rest = reward_items(ds.drop_last());
        if rewarded(ds.last()) {
            rest.push(reward_item_json(ds.last()))
        } else {
            rest
        }
    }
}

/// The rewards response of a delegator: one item per rewarded delegation,
/// and the totals of `unom` and `usat` over them.
pub open spec fn rewards_response(ds: Seq<DelegationRecord>) -> Seq<char> {
    let total = array(
        Seq::empty().push(coin_json("unom"@, rewarded_sum(ds, NOM_INDEX))).push(
            coin_json("usat"@, rewarded_sum(ds, NBTC_INDEX)),
        ),
    );
    object(
        Seq::empty().push(member("rewards"@, array(reward_items(ds)))).push(member("total"@, total)),
    )
}

/// The sums of the rewards listing fit in a `u64`: every delegation's
/// liquid total, and each of the two reward totals.
pub open spec fn rewards_fit(ds: Seq<DelegationRecord>) -> bool {
    &&& forall|i: int| 0 <= i < ds.len() ==> #[trigger] liquid_total(ds[i].liquid@) <= u64::MAX
    &&& rewarded_sum(ds, NOM_INDEX) <= u64::MAX
    &&& rewarded_sum(ds, NBTC_INDEX) <= u64::MAX
}

proof fn lemma_liquid_total_prefix(l: Seq<(u8, u64)>, i: int)
    requires
        0 <= i <= l.len(),
    ensures
        liquid_total(l.take(i)) <= liquid_total(l),
    decreases l.len() - i,
{
    if i < l.len() {
        lemma_liquid_total_prefix(l, i + 1);
        assert(l.take(i + 1).drop_last() =~= l.take(i));
    } else {
        assert(l.take(i) =~= l);
    }
}

proof fn lemma_rewarded_sum_prefix(ds: Seq<DelegationRecord>, i: int, denom: u8)
    requires
        0 <= i <= ds.len(),
    ensures
        rewarded_sum(ds.take(i), denom) <= rewarded_sum(ds, denom),
    decreases ds.len() - i,
{
    if i < ds.len() {
        lemma_rewarded_sum_prefix(ds, i + 1, denom);
        assert(ds.take(i + 1).drop_last() =~= ds.take(i));
    } else {
        assert(ds.take(i) =~= ds);
    }
}

fn liquid_sum(l: &Vec<(u8, u64)>) -> (r: u64)
    requires
        liquid_total(l@) <= u64::MAX,
    ensures
        r == liquid_total(l@),
{
    let mut sum: u64 = 0;
    let mut i: usize = 0;
    while i < l.len()
        invariant
            i <= l.len(),
            liquid_total(l@) <= u64::MAX,
            sum == liquid_total(l@.take(i as int)),
        decreases l.len() - i,
    {
        proof {
            assert(l@.take(i + 1).drop_last() =~= l@.take(i as int));
            lemma_liquid_total_prefix(l@, i + 1);
        }
        sum = sum + l[i].1;
        i = i + 1;
    }
    proof {
        assert(l@.take(l.len() as int) =~= l@);
    }
    sum
}

/// The amount of the first liquid entry in `denom`, or zero.
pub fn find_amount(l: &Vec<(u8, u64)>, denom: u8) -> (r: u64)
    ensures
        r == denom_amount(l@, denom),
{
    let mut i: usize = 0;
    assert(l@.skip(0) =~= l@);
    while i < l.len()
        invariant
            i <= l.len(),
            denom_amount(l@, denom) == denom_amount(l@.skip(i as int), denom),
        decreases l.len() - i,
    {
        let (d, amount) = l[i];
        proof {
            assert(l@.skip(i as int)[0] == l@[i as int]);
            assert(l@.skip(i as int).drop_first() =~= l@.skip(i + 1));
        }
        if d == denom {
            return amount;
        }
        i = i + 1;
    }
    proof {
        assert(l@.skip(i as int).len() == 0);
    }
    0
}

fn coin(name: &str, amount: u64) -> (r: String)
    ensures
        r@ == coin_json(name@, amount as nat),
{
    let mut o = JsonObject::new();
    o.add("denom", json_string(name));
    o.add("amount", json_string(u64_text(amount).as_str()));
    o.finish()
}

fn reward_coins(l: &Vec<(u8, u64)>) -> (r: String)
    ensures
        r@ == reward_coins_json(l@),
{
    let mut a = JsonArray::new();
    a.add(coin("unom", find_amount(l, NOM_INDEX)));
    a.add(coin("usat", find_amount(l, NBTC_INDEX)));
    a.finish()
}

/// The rewards of a delegator over its delegations `ds` (which name
/// validators): one item for each delegation with a liquid amount, and the
/// `unom` and `usat` totals over those items.
pub fn distribution_delegators_rewards(ds: &Vec<DelegationRecord>) -> (r: String)
    requires
        rewards_fit(ds@),
    ensures
        r@ == rewards_response(ds@),
{
    let mut items = JsonArray::new();
    let mut total_nom: u64 = 0;
    let mut total_nbtc: u64 = 0;
    let mut i: usize = 0;
    while i < ds.len()
        invariant
            i <= ds.len(),
            rewards_fit(ds@),
            items.items() == reward_items(ds@.take(i as int)),
            total_nom == rewarded_sum(ds@.take(i as int), NOM_INDEX),
            total_nbtc == rewarded_sum(ds@.take(i as int), NBTC_INDEX),
        decreases ds.len() - i,
    {
        let d = &ds[i];
        proof {
            assert(ds@.take(i + 1).drop_last() =~= ds@.take(i as int));
            lemma_rewarded_sum_prefix(ds@, i + 1, NOM_INDEX);
            lemma_rewarded_sum_prefix(ds@, i + 1, NBTC_INDEX);
            assert(liquid_total(ds@[i as int].liquid@) <= u64::MAX);
        }
        let liquid = liquid_sum(&d.liquid);
        if liquid != 0 {
            let nom = find_amount(&d.liquid, NOM_INDEX);
            let nbtc = find_amount(&d.liquid, NBTC_INDEX);
            total_nom = total_nom + nom;
            total_nbtc = total_nbtc + nbtc;
            let mut item = JsonObject::new();
            item.add("validator_address", json_string(d.address.as_str()));
            item.add("reward", reward_coins(&d.liquid));
            items.add(item.finish());
        }
        i = i + 1;
    }
    proof {
        assert(ds@.take(ds.len() as int) =~= ds@);
    }
    let mut total = JsonArray::new();
    total.add(coin("unom", total_nom));
    total.add(coin("usat", total_nbtc));
    let mut o = JsonObject::new();
    o.add("rewards", items.finish());
    o.add("total", total.finish());
    o.finish()
}

/// The rewards response for one validator: its `unom` and `usat` amounts.
pub open spec fn validator_rewards_response(l: Seq<(u8, u64)>) -> Seq<char> {
    object(seq![member("rewards"@, reward_coins_json(l))])
}

/// The rewards a delegator has from the validator `validator`, taken from the
/// first of its delegations `ds` that names it. Requires such a delegation.
pub fn distribution_delegators_rewards_for_validator(validator: &str, ds: &Vec<DelegationRecord>) -> (r: String)
    requires
        has_address(ds@, validator@),
    ensures
        exists|i: int|
            is_first_with_address(ds@, validator@, i) && r@ == validator_rewards_response(
                #[trigger] ds@[i].liquid@,
            ),
{
    match find_record(ds, validator) {
        None => {
            proof {
                let k = choose|k: int| 0 <= k < ds@.len() && #[trigger] ds@[k].address@ == validator@;
                assert(ds@[k].address@ != validator@);
            }
            JsonObject::new().finish()
        },
        Some(i) => {
            let mut o = JsonObject::new();
            o.add("rewards", reward_coins(&ds[i].liquid));
            o.finish()
        },
    }
}

/// The rewarded delegations of `ds`, in order.
pub open spec fn rewarded_records(ds: Seq<DelegationRecord>) -> Seq<DelegationRecord>
    decreases ds.len(),
{
    if ds.len() == 0 {
        Seq::empty()
    } else {
        let rest = rewarded_records(ds.drop_last());
        if rewarded(ds.last()) {
            rest.push(ds.last())
        } else {
            rest
        }
    }
}

/// No two records name the same address.
pub open spec fn distinct_addresses(ds: Seq<DelegationRecord>) -> bool {
    forall|i: int, j: int| 0 <= i < j < ds.len() ==> ds[i].address@ != ds[j].address@
}

proof fn lemma_reward_items_of_records(ds: Seq<DelegationRecord>)
    ensures
        reward_items(ds) == rewarded_records(ds).map_values(|d: DelegationRecord| reward_item_json(d)),
        forall|k: int|
            0 <= k < rewarded_records(ds).len() ==> exists|j: int|
                0 <= j < ds.len() && ds[j] == #[trigger] rewarded_records(ds)[k],
    decreases ds.len(),
{
    let f = |d: DelegationRecord| reward_item_json(d);
    if ds.len() > 0 {
        let prev = ds.drop_last();
        lemma_reward_items_of_records(prev);
        let rest = rewarded_records(prev);
        if rewarded(ds.last()) {
            assert(rest.push(ds.last()).map_values(f) =~= rest.map_values(f).push(f(ds.last())));
        }
        assert forall|k: int| 0 <= k < rewarded_records(ds).len() implies exists|j: int|
            0 <= j < ds.len() && ds[j] == #[trigger] rewarded_records(ds)[k] by {
            if k < rest.len() {
                let j = choose|j: int| 0 <= j < prev.len() && prev[j] == #[trigger] rest[k];
                assert(ds[j] == prev[j]);
            } else {
                assert(ds[ds.len() - 1] == rewarded_records(ds)[k]);
            }
        }
    } else {
        assert(reward_items(ds) =~= rewarded_records(ds).map_values(f));
    }
}

/// Where a delegator's delegations name distinct validators, the answer for
/// the validator of the `k`-th item of the rewards listing holds the same
/// coins as that item's `reward`: both are `reward_coins_json` of the same
/// liquid amounts, and the per-validator answer can be given for it.
pub proof fn lemma_validator_rewards_match_listing(ds: Seq<DelegationRecord>, k: int)
    requires
        distinct_addresses(ds),
        0 <= k < reward_items(ds).len(),
    ensures
        reward_items(ds)[k] == reward_item_json(rewarded_records(ds)[k]),
        has_address(ds, rewarded_records(ds)[k].address@),
        forall|i: int|
            is_first_with_address(ds, rewarded_records(ds)[k].address@, i) ==> validator_rewards_response(
                #[trigger] ds[i].liquid@,
            ) == object(
                seq![member("rewards"@, reward_coins_json(rewarded_records(ds)[k].liquid@))],
            ),
{
    lemma_reward_items_of_records(ds);
    let d = rewarded_records(ds)[k];
    let j = choose|j: int| 0 <= j < ds.len() && ds[j] == #[trigger] rewarded_records(ds)[k];
    assert(ds[j].address@ == d.address@);
    assert forall|i: int| is_first_with_address(ds, d.address@, i) implies validator_rewards_response(
        #[trigger] ds[i].liquid@,
    ) == object(seq![member("rewards"@, reward_coins_json(d.liquid@))]) by {
        if i < j {
            assert(ds[i].address@ != ds[j].address@);
        } else if j < i {
            assert(ds[j].address@ != ds[i].address@);
        }
    }
}

/// The rewards listing of no delegations has no items and zero totals. Adding
/// a delegation adds its item, and its amount in each denomination to that
/// denomination's total, exactly when its liquid amounts sum to nonzero,
/// whatever its stake; otherwise the listing and the totals stay as they were.
pub proof fn lemma_rewards_listing_grows(ds: Seq<DelegationRecord>, d: DelegationRecord, denom: u8)
    ensures
        reward_items(Seq::empty()) == Seq::<Seq<char>>::empty(),
        rewarded_sum(Seq::empty(), denom) == 0,
        liquid_total(d.liquid@) != 0 ==> reward_items(ds.push(d)) == reward_items(ds).push(reward_item_json(d)),
        liquid_total(d.liquid@) != 0 ==> rewarded_sum(ds.push(d), denom) == rewarded_sum(ds, denom)
            + denom_amount(d.liquid@, denom),
        liquid_total(d.liquid@) == 0 ==> reward_items(ds.push(d)) == reward_items(ds),
        liquid_total(d.liquid@) == 0 ==> rewarded_sum(ds.push(d), denom) == rewarded_sum(ds, denom),
{
    assert(ds.push(d).drop_last() =~= ds);
    assert(ds.push(d).last() == d);
}

/// The liquid total of no entries is zero, and each entry adds its amount.
pub proof fn lemma_liquid_total_grows(l: Seq<(u8, u64)>, e: (u8, u64))
    ensures
        liquid_total(Seq::empty()) == 0,
        liquid_total(l.push(e)) == liquid_total(l) + e.1,
{
    assert(l.push(e).drop_last() =~= l);
}

/// The amount in a denomination is that of the first entry in it, or zero
/// where no entry is in it.
pub proof fn lemma_denom_amount_first(l: Seq<(u8, u64)>, denom: u8)
    ensures
        (forall|j: int| 0 <= j < l.len() ==> #[trigger] l[j].0 != denom) ==> denom_amount(l, denom) == 0,
        forall|i: int|
            0 <= i < l.len() && #[trigger] l[i].0 == denom && (forall|j: int| 0 <= j < i ==> l[j].0 != denom)
                ==> denom_amount(l, denom) == l[i].1,
    decreases l.len(),
{
    if l.len() > 0 {
        lemma_denom_amount_first(l.drop_first(), denom);
        assert forall|i: int|
            0 <= i < l.len() && #[trigger] l[i].0 == denom && (forall|j: int| 0 <= j < i ==> l[j].0 != denom)
                implies denom_amount(l, denom) == l[i].1 by {
            if i > 0 {
                assert(l[0].0 != denom);
                assert(l.drop_first()[i - 1] == l[i]);
                assert forall|j: int| 0 <= j < i - 1 implies l.drop_first()[j].0 != denom by {
                    assert(l.drop_first()[j] == l[j + 1]);
                }
            }
        }
        if forall|j: int| 0 <= j < l.len() ==> #[trigger] l[j].0 != denom {
            assert(l[0].0 != denom);
            assert forall|j: int| 0 <= j < l.drop_first().len() implies #[trigger] l.drop_first()[j].0 != denom by {
                assert(l.drop_first()[j] == l[j + 1]);
            }
        }
    }
}

/// A rewards item names the delegation's validator and gives, in this order,
/// its amount in the denomination with index 69 as `unom` and its amount in the
/// denomination with index 21 as `usat`.
pub proof fn lemma_reward_item_coins(d: DelegationRecord)
    ensures
        NOM_INDEX == 69,
        NBTC_INDEX == 21,
        reward_item_json(d) == object(
            Seq::empty().push(member("validator_address"@, quoted(d.address@))).push(
                member(
                    "reward"@,
                    array(
                        Seq::empty().push(
                            object(
                                Seq::empty().push(member("denom"@, quoted("unom"@))).push(
                                    member("amount"@, quoted(decimal(denom_amount(d.liquid@, 69) as nat))),
                                ),
                            ),
                        ).push(
                            object(
                                Seq::empty().push(member("denom"@, quoted("usat"@))).push(
                                    member("amount"@, quoted(decimal(denom_amount(d.liquid@, 21) as nat))),
                                ),
                            ),
                        ),
                    ),
                ),
            ),
        ),
{
}

} // verus!
