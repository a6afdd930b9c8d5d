//! The Bitcoin bridge: checkpoints, their sizes, and addresses.
use vstd::prelude::*;
use crate::codec::{
    address_of_script, base64_encode, base64_standard, script_address_text, script_pubkey_of,
    address_script_pubkey, text_eq, BtcNetwork,
};
use crate::json::{
    array, boolean, json_bool, json_null, json_string, member, null, object, quoted, JsonArray,
    JsonObject,
};
use crate::number::{decimal, u64_text};

verus! {

/// The JSON number of `n`, or `null`.
pub open spec fn optional_number(n: Option<u32>) -> Seq<char> {
    match n {
        Some(v) => decimal(v as nat),
        None => null(),
    }
}

fn optional_number_text(n: Option<u32>) -> (r: String)
    ensures
        r@ == optional_number(n),
{
    match n {
        Some(v) => u64_text(v as u64),
        None => json_null(),
    }
}

/// The value locked in the bridge.
pub open spec fn value_locked_response(value: u64) -> Seq<char> {
    object(seq![member("value"@, decimal(value as nat))])
}

/// The value locked in the bridge, in satoshis.
pub fn bitcoin_value_locked(value: u64) -> (r: String)
    ensures
        r@ == value_locked_response(value),
{
    let mut o = JsonObject::new();
    o.add("value", u64_text(value));
    o.finish()
}

/// The last confirmed checkpoint: its index and transaction id, or zero and
/// the empty text where no checkpoint is confirmed.
pub open spec fn last_confirmed_response(confirmed: Option<(u32, Seq<char>)>) -> Seq<char> {
    let (index, txid) = match confirmed {
        Some((i, t)) => (i, t),
        None => (0u32, Seq::<char>::empty()),
    };
    object(
        Seq::empty().push(member("last_confirmed_index"@, decimal(index as nat))).push(
            member("last_confirmed_cp_tx"@, quoted(txid)),
        ),
    )
}

/// The view of a confirmed checkpoint's index and transaction id.
pub open spec fn confirmed_view(c: Option<(u32, String)>) -> Option<(u32, Seq<char>)> {
    match c {
        Some((i, t)) => Some((i, t@)),
        None => None,
    }
}

/// The last confirmed checkpoint, given the confirmed index and the id of that
/// checkpoint's transaction, if a checkpoint is confirmed.
pub fn bitcoin_last_confirmed_checkpoint(confirmed: &Option<(u32, String)>) -> (r: String)
    ensures
        r@ == last_confirmed_response(confirmed_view(*confirmed)),
{
    let mut o = JsonObject::new();
    match confirmed {
        Some((i, t)) => {
            o.add("last_confirmed_index", u64_text(*i as u64));
            o.add("last_confirmed_cp_tx", json_string(t.as_str()));
        },
        None => {
            o.add("last_confirmed_index", u64_text(0));
            o.add("last_confirmed_cp_tx", json_string(""));
            proof {
                reveal_strlit("");
            }
        },
    }
    o.finish()
}

/// The checkpoint queue: its index and confirmed index.
pub open spec fn checkpoint_queue_response(index: u32, confirmed_index: Option<u32>) -> Seq<char> {
    object(
        Seq::empty().push(member("index"@, decimal(index as nat))).push(
            member("confirmed_index"@, optional_number(confirmed_index)),
        ),
    )
}

/// The checkpoint queue's index and confirmed index.
pub fn bitcoin_checkpoint_queue(index: u32, confirmed_index: Option<u32>) -> (r: String)
    ensures
        r@ == checkpoint_queue_response(index, confirmed_index),
{
    let mut o = JsonObject::new();
    o.add("index", u64_text(index as u64));
    o.add("confirmed_index", optional_number_text(confirmed_index));
    o.finish()
}

/// The emergency disbursal transactions: their JSON text, and their ids.
pub open spec fn disbursal_response(data: Seq<char>, txids: Seq<Seq<char>>) -> Seq<char> {
    object(
        Seq::empty().push(member("data"@, data)).push(
            member("txids"@, array(txids.map_values(|t: Seq<char>| quoted(t)))),
        ),
    )
}

/// The emergency disbursal transactions, given as JSON text `data`, and the
/// ids of those transactions.
pub fn checkpoint_disbursal_txs(data: &str, txids: &Vec<String>) -> (r: String)
    ensures
        r@ == disbursal_response(data@, txids@.map_values(|t: String| t@)),
{
    let ghost ids = txids@.map_values(|t: String| t@);
    let ghost f = |t: Seq<char>| quoted(t);
    let mut items = JsonArray::new();
    let mut i: usize = 0;
    while i < txids.len()
        invariant
            i <= txids.len(),
            ids == txids@.map_values(|t: String| t@),
            f == (|t: Seq<char>| quoted(t)),
            items.items() == ids.take(i as int).map_values(f),
        decreases txids.len() - i,
    {
        items.add(json_string(txids[i].as_str()));
        proof {
            assert(ids.take(i + 1).map_values(f) =~= ids.take(i as int).map_values(f).push(f(ids[i as int])));
        }
        i = i + 1;
    }
    proof {
        assert(ids.take(txids.len() as int) =~= ids);
    }
    let mut o = JsonObject::new();
    o.add("data", data.to_owned());
    o.add("txids", items.finish());
    o.finish()
}

/// The stage of a checkpoint.
#[derive(Clone, Copy, Debug, PartialEq, Eq, Structural)]
pub enum CheckpointStatus {
    Building,
    Signing,
    Complete,
}

/// The JSON text of a checkpoint status: its name as a string.
pub open spec fn status_json(s: CheckpointStatus) -> Seq<char> {
    match s {
        CheckpointStatus::Building => quoted("Building"@),
        CheckpointStatus::Signing => quoted("Signing"@),
        CheckpointStatus::Complete => quoted("Complete"@),
    }
}

fn status_text(s: CheckpointStatus) -> (r: String)
    ensures
        r@ == status_json(s),
{
    match s {
        CheckpointStatus::Building => json_string("Building"),
        CheckpointStatus::Signing => json_string("Signing"),
        CheckpointStatus::Complete => json_string("Complete"),
    }
}

/// What the checkpoint listing says of one completed checkpoint.
#[derive(Debug)]
pub struct CheckpointQuery {
    pub create_time: u64,
    pub checkpoint_tx: String,
    pub reserved_output: u64,
    pub status: CheckpointStatus,
    pub fee_rate: u64,
    pub signed_at_btc_height: Option<u32>,
    pub deposits_enabled: bool,
}

/// The JSON object of a checkpoint, its fields in declaration order.
pub open spec fn checkpoint_json(c: CheckpointQuery) -> Seq<char> {
    object(
        Seq::empty().push(member("create_time"@, decimal(c.create_time as nat))).push(
            member("checkpoint_tx"@, quoted(c.checkpoint_tx@)),
        ).push(member("reserved_output"@, decimal(c.reserved_output as nat))).push(
            member("status"@, status_json(c.status)),
        ).push(member("fee_rate"@, decimal(c.fee_rate as nat))).push(
            member("signed_at_btc_height"@, optional_number(c.signed_at_btc_height)),
        ).push(member("deposits_enabled"@, boolean(c.deposits_enabled))),
    )
}

/// The checkpoint listing: an empty object where there is no completed
/// checkpoint, else the checkpoints in order.
pub open spec fn checkpoints_response(cs: Seq<CheckpointQuery>) -> Seq<char> {
    if cs.len() == 0 {
        object(Seq::empty())
    } else {
        object(
            seq![member("checkpoints"@, array(cs.map_values(|c: CheckpointQuery| checkpoint_json(c))))],
        )
    }
}

fn checkpoint_entry(c: &CheckpointQuery) -> (r: String)
    ensures
        r@ == checkpoint_json(*c),
{
    let mut o = JsonObject::new();
    o.add("create_time", u64_text(c.create_time));
    o.add("checkpoint_tx", json_string(c.checkpoint_tx.as_str()));
    o.add("reserved_output", u64_text(c.reserved_output));
    o.add("status", status_text(c.status));
    o.add("fee_rate", u64_text(c.fee_rate));
    o.add("signed_at_btc_height", optional_number_text(c.signed_at_btc_height));
    o.add("deposits_enabled", json_bool(c.deposits_enabled));
    o.finish()
}

/// The completed checkpoints.
pub fn bitcoin_checkpoints(cs: &Vec<CheckpointQuery>) -> (r: String)
    ensures
        r@ == checkpoints_response(cs@),
{
    if cs.len() == 0 {
        return JsonObject::new().finish();
    }
    let ghost f = |c: CheckpointQuery| checkpoint_json(c);
    let mut items = JsonArray::new();
    let mut i: usize = 0;
    while i < cs.len()
        invariant
            i <= cs.len(),
            f == (|c: CheckpointQuery| checkpoint_json(c)),
            items.items() == cs@.take(i as int).map_values(f),
        decreases cs.len() - i,
    {
        items.add(checkpoint_entry(&cs[i]));
        proof {
            assert(cs@.take(i + 1).map_values(f) =~= cs@.take(i as int).map_values(f).push(f(cs@[i as int])));
        }
        i = i + 1;
    }
    proof {
        assert(cs@.take(cs.len() as int) =~= cs@);
    }
    let mut o = JsonObject::new();
    o.add("checkpoints", items.finish());
    o.finish()
}

/// The state of the unconfirmed checkpoints.
pub open spec fn unconfirmed_response(
    first_unconfirmed: Option<u32>,
    num_unconfirmed: u32,
    last_completed: u32,
    last_completed_tx: Seq<char>,
) -> Seq<char> {
    object(
        Seq::empty().push(member("first_unconfirmed"@, optional_number(first_unconfirmed))).push(
            member("num_unconfirmed"@, decimal(num_unconfirmed as nat)),
        ).push(member("last_completed_index"@, decimal(last_completed as nat))).push(
            member("last_completex_tx"@, quoted(last_completed_tx)),
        ),
    )
}

/// The first unconfirmed index, the number of unconfirmed checkpoints, and the
/// last completed index and transaction id.
pub fn bitcoin_checkpoint_unconfirmed_data(
    first_unconfirmed: Option<u32>,
    num_unconfirmed: u32,
    last_completed: u32,
    last_completed_tx: &str,
) -> (r: String)
    ensures
        r@ == unconfirmed_response(first_unconfirmed, num_unconfirmed, last_completed, last_completed_tx@),
{
    let mut o = JsonObject::new();
    o.add("first_unconfirmed", optional_number_text(first_unconfirmed));
    o.add("num_unconfirmed", u64_text(num_unconfirmed as u64));
    o.add("last_completed_index", u64_text(last_completed as u64));
    o.add("last_completex_tx", json_string(last_completed_tx));
    o.finish()
}

/// The size of a checkpoint transaction: its virtual size and its number of
/// inputs.
pub open spec fn checkpoint_size_response(vsize: nat, inputs: nat) -> Seq<char> {
    object(
        Seq::empty().push(member("checkpoint_vsize"@, decimal(vsize))).push(
            member("total_input_size"@, decimal(inputs)),
        ),
    )
}

fn checkpoint_size(vsize: usize, inputs: usize) -> (r: String)
    ensures
        r@ == checkpoint_size_response(vsize as nat, inputs as nat),
{
    let mut o = JsonObject::new();
    o.add("checkpoint_vsize", u64_text(vsize as u64));
    o.add("total_input_size", u64_text(inputs as u64));
    o.finish()
}

/// The size of the checkpoint being built.
pub fn bitcoin_checkpoint_size(vsize: usize, inputs: usize) -> (r: String)
    ensures
        r@ == checkpoint_size_response(vsize as nat, inputs as nat),
{
    checkpoint_size(vsize, inputs)
}

/// The size of the last completed checkpoint.
pub fn bitcoin_last_checkpoint_size(vsize: usize, inputs: usize) -> (r: String)
    ensures
        r@ == checkpoint_size_response(vsize as nat, inputs as nat),
{
    checkpoint_size(vsize, inputs)
}

/// The size of the checkpoint at a given index.
pub fn bitcoin_checkpoint_size_with_index(vsize: usize, inputs: usize) -> (r: String)
    ensures
        r@ == checkpoint_size_response(vsize as nat, inputs as nat),
{
    checkpoint_size(vsize, inputs)
}

/// The network named `name`; any other name means the main network.
pub open spec fn network_named(name: Seq<char>) -> BtcNetwork {
    if name == "bitcoin"@ {
        BtcNetwork::Bitcoin
    } else if name == "regtest"@ {
        BtcNetwork::Regtest
    } else if name == "testnet"@ {
        BtcNetwork::Testnet
    } else if name == "signet"@ {
        BtcNetwork::Signet
    } else {
        BtcNetwork::Bitcoin
    }
}

/// The network named `name`; any other name means the main network.
pub fn network_of(name: &str) -> (r: BtcNetwork)
    ensures
        r == network_named(name@),
{
    if text_eq(name, "bitcoin") {
        BtcNetwork::Bitcoin
    } else if text_eq(name, "regtest") {
        BtcNetwork::Regtest
    } else if text_eq(name, "testnet") {
        BtcNetwork::Testnet
    } else if text_eq(name, "signet") {
        BtcNetwork::Signet
    } else {
        BtcNetwork::Bitcoin
    }
}

/// The view of an optional script.
pub open spec fn script_view(s: Option<Vec<u8>>) -> Option<Seq<u8>> {
    match s {
        Some(v) => Some(v@),
        None => None,
    }
}

/// Whether the recovery address can be written: the account set no recovery
/// script, or its script has an address form on the named network.
pub open spec fn recovery_address_writable(network: Seq<char>, script: Option<Seq<u8>>) -> bool {
    match script {
        None => true,
        Some(s) => script_address_text(s, network_named(network)) is Some,
    }
}

/// The recovery address response: the empty string where the account set no
/// recovery script, else the script's address on the named network.
pub open spec fn recovery_address_response(network: Seq<char>, script: Option<Seq<u8>>) -> Seq<char> {
    match script {
        None => quoted(Seq::empty()),
        Some(s) => quoted(script_address_text(s, network_named(network))->0),
    }
}

/// The recovery address of an account, given the network name and the
/// account's recovery script, if it set one. Requires the script to have an
/// address form on that network.
pub fn get_bitcoin_recovery_address(network: &str, script: &Option<Vec<u8>>) -> (r: String)
    requires
        recovery_address_writable(network@, script_view(*script)),
    ensures
        r@ == recovery_address_response(network@, script_view(*script)),
{
    let net = network_of(network);
    match script {
        None => {
            proof {
                reveal_strlit("");
            }
            json_string("")
        },
        Some(s) => match address_of_script(s.as_slice(), net) {
            Some(a) => json_string(a.as_str()),
            None => JsonObject::new().finish(),
        },
    }
}

/// The recovery address of an account, where it can be written: `None` where
/// the account's script has no address form on the named network.
pub fn recovery_address_if_writable(network: &str, script: &Option<Vec<u8>>) -> (r: Option<String>)
    ensures
        match r {
            Some(t) => recovery_address_writable(network@, script_view(*script)) && t@
                == recovery_address_response(network@, script_view(*script)),
            None => !recovery_address_writable(network@, script_view(*script)),
        },
{
    if let Some(s) = script {
        if address_of_script(s.as_slice(), network_of(network)).is_none() {
            return None;
        }
    }
    Some(get_bitcoin_recovery_address(network, script))
}

/// The script pubkey response: the base64 of the script of the address
/// written `address`, or `None` where it does not parse.
pub open spec fn script_pubkey_response(address: Seq<char>) -> Option<Seq<char>> {
    match address_script_pubkey(address) {
        Some(s) => Some(quoted(base64_standard(s))),
        None => None,
    }
}

/// The script pubkey of a Bitcoin address, in base64.
pub fn get_script_pubkey(address: &str) -> (r: Option<String>)
    ensures
        match r {
            Some(t) => script_pubkey_response(address@) == Some(t@),
            None => script_pubkey_response(address@) is None,
        },
{
    match script_pubkey_of(address) {
        Some(bytes) => {
            let text = base64_encode(bytes.as_slice());
            Some(json_string(text.as_str()))
        },
        None => None,
    }
}

} // verus!
