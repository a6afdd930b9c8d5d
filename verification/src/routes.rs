//! The fixed parts of the service: where the node is, the routes whose answer
//! never changes, and the cross-origin headers added to every response.
use vstd::prelude::*;
use crate::json::{array, boolean, json_bool, json_null, json_string, member, null, object, quoted, JsonArray, JsonObject};
use crate::number::{decimal, u64_text};

verus! {

/// The base URL of the node's RPC endpoint.
pub fn app_host() -> (r: &'static str)
    ensures
        r@ == "http://localhost:26657"@,
{
    "http://localhost:26657"
}

/// The legacy unbonding listing: always empty.
pub open spec fn empty_unbonding_response() -> Seq<char> {
    object(Seq::empty().push(member("height"@, quoted("0"@))).push(member("result"@, array(Seq::empty()))))
}

/// The legacy unbonding delegations of any address: an empty result.
pub fn staking_delegators_unbonding_delegations_2(_address: &str) -> (r: String)
    ensures
        r@ == empty_unbonding_response(),
{
    let mut o = JsonObject::new();
    o.add("height", json_string("0"));
    o.add("result", JsonArray::new().finish());
    o.finish()
}

/// The legacy staking pool: fixed placeholder values.
pub open spec fn placeholder_pool_response() -> Seq<char> {
    let result = object(
        Seq::empty().push(member("loose_tokens"@, quoted("0"@))).push(member("bonded_tokens"@, quoted("0"@))).push(
            member("inflation_last_time"@, quoted("0"@)),
        ).push(member("inflation"@, quoted("1"@))).push(member("date_last_commission_reset"@, quoted("0"@))).push(
            member("prev_bonded_shares"@, quoted("0"@)),
        ),
    );
    object(Seq::empty().push(member("height"@, quoted("0"@))).push(member("result"@, result)))
}

/// The legacy staking pool: fixed placeholder values.
pub fn staking_pool_2() -> (r: String)
    ensures
        r@ == placeholder_pool_response(),
{
    let mut result = JsonObject::new();
    result.add("loose_tokens", json_string("0"));
    result.add("bonded_tokens", json_string("0"));
    result.add("inflation_last_time", json_string("0"));
    result.add("inflation", json_string("1"));
    result.add("date_last_commission_reset", json_string("0"));
    result.add("prev_bonded_shares", json_string("0"));
    let mut o = JsonObject::new();
    o.add("height", json_string("0"));
    o.add("result", result.finish());
    o.finish()
}

/// The IBC transfer parameters: sending and receiving are both disabled.
pub open spec fn transfer_params_response() -> Seq<char> {
    let params = object(
        Seq::empty().push(member("send_enabled"@, boolean(false))).push(member("receive_enabled"@, boolean(false))),
    );
    object(seq![member("params"@, params)])
}

fn transfer_params() -> (r: String)
    ensures
        r@ == transfer_params_response(),
{
    let mut params = JsonObject::new();
    params.add("send_enabled", json_bool(false));
    params.add("receive_enabled", json_bool(false));
    let mut o = JsonObject::new();
    o.add("params", params.finish());
    o.finish()
}

/// The IBC transfer parameters: sending and receiving are both disabled.
pub fn ibc_apps_transfer_params() -> (r: String)
    ensures
        r@ == transfer_params_response(),
{
    transfer_params()
}

/// The IBC transfer parameters (the applications route): the same answer.
pub fn ibc_applications_transfer_params() -> (r: String)
    ensures
        r@ == transfer_params_response(),
{
    transfer_params()
}

/// The governance proposals: none.
pub open spec fn proposals_response() -> Seq<char> {
    let pagination = object(Seq::empty().push(member("next_key"@, null())).push(member("total"@, decimal(0))));
    object(Seq::empty().push(member("proposals"@, array(Seq::empty()))).push(member("pagination"@, pagination)))
}

/// The governance proposals: there are none.
pub fn proposals() -> (r: String)
    ensures
        r@ == proposals_response(),
{
    let mut pagination = JsonObject::new();
    pagination.add("next_key", json_null());
    pagination.add("total", u64_text(0));
    let mut o = JsonObject::new();
    o.add("proposals", JsonArray::new().finish());
    o.add("pagination", pagination.finish());
    o.finish()
}

/// When a fairing of the web server runs.
#[derive(Clone, Copy, Debug, PartialEq, Eq, Structural)]
pub enum FairingKind {
    /// On every response.
    Response,
}

/// The name of a fairing and when it runs.
#[derive(Debug)]
pub struct FairingInfo {
    pub name: String,
    pub kind: FairingKind,
}

/// A response header.
#[derive(Debug)]
pub struct Header {
    pub name: String,
    pub value: String,
}

/// The fairing that allows cross-origin requests.
pub struct CORS;

/// Whether `h` is the header `name: value`.
pub open spec fn is_header(h: Header, name: Seq<char>, value: Seq<char>) -> bool {
    h.name@ == name && h.value@ == value
}

fn header(name: &str, value: &str) -> (r: Header)
    ensures
        is_header(r, name@, value@),
{
    Header { name: name.to_owned(), value: value.to_owned() }
}

impl CORS {
    /// Its name, and that it runs on responses.
    pub fn info(&self) -> (r: FairingInfo)
        ensures
            r.name@ == "Add CORS headers to responses"@,
            r.kind == FairingKind::Response,
    {
        FairingInfo { name: "Add CORS headers to responses".to_owned(), kind: FairingKind::Response }
    }

    /// The headers it sets on every response, in order: any origin, the
    /// methods POST, GET, PATCH and OPTIONS, any header, and credentials.
    pub fn on_response(&self) -> (r: Vec<Header>)
        ensures
            r@.len() == 4,
            is_header(r@[0], "Access-Control-Allow-Origin"@, "*"@),
            is_header(r@[1], "Access-Control-Allow-Methods"@, "POST, GET, PATCH, OPTIONS"@),
            is_header(r@[2], "Access-Control-Allow-Headers"@, "*"@),
            is_header(r@[3], "Access-Control-Allow-Credentials"@, "true"@),
    {
        let mut headers: Vec<Header> = Vec::new();
        headers.push(header("Access-Control-Allow-Origin", "*"));
        headers.push(header("Access-Control-Allow-Methods", "POST, GET, PATCH, OPTIONS"));
        headers.push(header("Access-Control-Allow-Headers", "*"));
        headers.push(header("Access-Control-Allow-Credentials", "true"));
        headers
    }
}

} // verus!
