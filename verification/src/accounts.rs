//! Accounts: balances, the account object and coin supplies.
use vstd::prelude::*;
use crate::json::{array, json_string, member, object, quoted, JsonArray, JsonObject};
use crate::number::{decimal, u64_text};
use crate::staking::{pagination, pagination_of};

verus! {

/// An account's balance in one denomination; the amount is decimal text.
#[derive(Debug)]
pub struct Balance {
    pub denom: String,
    pub amount: String,
}

/// The JSON object of a balance.
pub open spec fn balance_json(b: Balance) -> Seq<char> {
    object(Seq::empty().push(member("denom"@, quoted(b.denom@))).push(member("amount"@, quoted(b.amount@))))
}

/// The JSON array of balances.
pub open spec fn balances_json(bs: Seq<Balance>) -> Seq<char> {
    array(bs.map_values(|b: Balance| balance_json(b)))
}

/// The balances of an account holding `nom` unom and `nbtc` usat.
pub fn query_balances(nom: u64, nbtc: u64) -> (r: Vec<Balance>)
    ensures
        r@.len() == 2,
        r@[0].denom@ == "unom"@,
        r@[0].amount@ == decimal(nom as nat),
        r@[1].denom@ == "usat"@,
        r@[1].amount@ == decimal(nbtc as nat),
{
    let mut balances: Vec<Balance> = Vec::new();
    balances.push(Balance { denom: "unom".to_owned(), amount: u64_text(nom) });
    balances.push(Balance { denom: "usat".to_owned(), amount: u64_text(nbtc) });
    balances
}

fn balances_array(bs: &Vec<Balance>) -> (r: String)
    ensures
        r@ == balances_json(bs@),
{
    let mut items = JsonArray::new();
    let mut i: usize = 0;
    let ghost f = |b: Balance| balance_json(b);
    while i < bs.len()
        invariant
            i <= bs.len(),
            f == (|b: Balance| balance_json(b)),
            items.items() == bs@.take(i as int).map_values(f),
        decreases bs.len() - i,
    {
        let mut o = JsonObject::new();
        o.add("denom", json_string(bs[i].denom.as_str()));
        o.add("amount", json_string(bs[i].amount.as_str()));
        items.add(o.finish());
        proof {
            assert(bs@.take(i + 1).map_values(f) =~= bs@.take(i as int).map_values(f).push(
                f(bs@[i as int]),
            ));
        }
        i = i + 1;
    }
    proof {
        assert(bs@.take(bs.len() as int) =~= bs@);
    }
    items.finish()
}

/// The bank balances response.
pub open spec fn bank_balances_response(bs: Seq<Balance>) -> Seq<char> {
    object(
        Seq::empty().push(member("balances"@, balances_json(bs))).push(
            member("pagination"@, pagination(bs.len())),
        ),
    )
}

fn balances_listing(bs: &Vec<Balance>) -> (r: String)
    ensures
        r@ == bank_balances_response(bs@),
{
    let mut o = JsonObject::new();
    o.add("balances", balances_array(bs));
    o.add("pagination", pagination_of(bs.len()));
    o.finish()
}

/// The balances of an account, with their count.
pub fn bank_balances(bs: &Vec<Balance>) -> (r: String)
    ensures
        r@ == bank_balances_response(bs@),
{
    balances_listing(bs)
}

/// The balances of an account, with their count (the legacy route).
pub fn bank_balances_2(bs: &Vec<Balance>) -> (r: String)
    ensures
        r@ == bank_balances_response(bs@),
{
    balances_listing(bs)
}

/// The legacy account response: the next sequence number is `nonce + 1`.
pub open spec fn auth_accounts_response(address: Seq<char>, bs: Seq<Balance>, nonce: nat) -> Seq<char> {
    let value = object(
        Seq::empty().push(member("address"@, quoted(address))).push(member("coins"@, balances_json(bs))).push(
            member("sequence"@, quoted(decimal(nonce + 1))),
        ),
    );
    let result = object(
        Seq::empty().push(member("type"@, quoted("cosmos-sdk/BaseAccount"@))).push(member("value"@, value)),
    );
    object(Seq::empty().push(member("height"@, quoted("0"@))).push(member("result"@, result)))
}

/// The legacy account of `address`, holding `bs`, whose last nonce is
/// `nonce`. Requires `nonce + 1` to fit in a `u64`.
pub fn auth_accounts(address: &str, bs: &Vec<Balance>, nonce: u64) -> (r: String)
    requires
        nonce < u64::MAX,
    ensures
        r@ == auth_accounts_response(address@, bs@, nonce as nat),
{
    let sequence = nonce + 1;
    let mut value = JsonObject::new();
    value.add("address", json_string(address));
    value.add("coins", balances_array(bs));
    value.add("sequence", json_string(u64_text(sequence).as_str()));
    let mut result = JsonObject::new();
    result.add("type", json_string("cosmos-sdk/BaseAccount"));
    result.add("value", value.finish());
    let mut o = JsonObject::new();
    o.add("height", json_string("0"));
    o.add("result", result.finish());
    o.finish()
}

/// The account response: the next sequence number is `nonce + 1`.
pub open spec fn auth_accounts2_response(address: Seq<char>, nonce: nat) -> Seq<char> {
    let pub_key = object(
        Seq::empty().push(member("@type"@, quoted("/cosmos.crypto.secp256k1.PubKey"@))).push(
            member("key"@, quoted(Seq::empty())),
        ),
    );
    let account = object(
        Seq::empty().push(member("@type"@, quoted("/cosmos.auth.v1beta1.BaseAccount"@))).push(
            member("address"@, quoted(address)),
        ).push(member("pub_key"@, pub_key)).push(member("account_number"@, quoted("0"@))).push(
            member("sequence"@, quoted(decimal(nonce + 1))),
        ),
    );
    object(seq![member("account"@, account)])
}

/// The account of `address` whose last nonce is `nonce`. Requires `nonce + 1`
/// to fit in a `u64`.
pub fn auth_accounts2(address: &str, nonce: u64) -> (r: String)
    requires
        nonce < u64::MAX,
    ensures
        r@ == auth_accounts2_response(address@, nonce as nat),
{
    let sequence = nonce + 1;
    let mut pub_key = JsonObject::new();
    pub_key.add("@type", json_string("/cosmos.crypto.secp256k1.PubKey"));
    pub_key.add("key", json_string(""));
    let mut account = JsonObject::new();
    account.add("@type", json_string("/cosmos.auth.v1beta1.BaseAccount"));
    account.add("address", json_string(address));
    account.add("pub_key", pub_key.finish());
    account.add("account_number", json_string("0"));
    account.add("sequence", json_string(u64_text(sequence).as_str()));
    let mut o = JsonObject::new();
    o.add("account", account.finish());
    proof {
        reveal_strlit("");
    }
    o.finish()
}

/// The legacy total-supply response.
pub open spec fn bank_total_response(total: nat) -> Seq<char> {
    object(Seq::empty().push(member("height"@, quoted("0"@))).push(member("result"@, quoted(decimal(total)))))
}

/// The total supply `total` of a denomination (the legacy route).
pub fn bank_total(total: u64) -> (r: String)
    ensures
        r@ == bank_total_response(total as nat),
{
    let mut o = JsonObject::new();
    o.add("height", json_string("0"));
    o.add("result", json_string(u64_text(total).as_str()));
    o.finish()
}

/// The supply response for `denom`.
pub open spec fn bank_supply_response(denom: Seq<char>, total: nat) -> Seq<char> {
    let amount = object(
        Seq::empty().push(member("denom"@, quoted(denom))).push(member("amount"@, quoted(decimal(total)))),
    );
    object(seq![member("amount"@, amount)])
}

/// The total supply `total` of the denomination `denom`.
pub fn bank_supply_unom(denom: &str, total: u64) -> (r: String)
    ensures
        r@ == bank_supply_response(denom@, total as nat),
{
    let mut amount = JsonObject::new();
    amount.add("denom", json_string(denom));
    amount.add("amount", json_string(u64_text(total).as_str()));
    let mut o = JsonObject::new();
    o.add("amount", amount.finish());
    o.finish()
}

} // verus!
