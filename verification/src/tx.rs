//! Transaction broadcast: reading the submitted body and reporting the result.
use vstd::prelude::*;
use crate::codec::{base64_decode, base64_standard_decoding, first_char};
use vstd::slice::slice_to_vec;
use vstd::utf8::encode_utf8;
use vstd::string::*;
use crate::json::{array, json_null, json_string, member, null, object, quoted, JsonArray, JsonObject};
use crate::number::{decimal, i64_text, signed_decimal, u64_text};

verus! {

/// How a submitted transaction body is written.
#[derive(Clone, Copy, Debug, PartialEq, Eq, Structural)]
pub enum TxBodyFormat {
    /// A JSON request object: the body starts with `{`.
    Json,
    /// The transaction bytes in base64.
    Base64,
}

/// The format of a body: JSON exactly when its first character is `{`.
pub open spec fn body_format(body: Seq<char>) -> TxBodyFormat {
    if body.len() > 0 && body[0] == '{' {
        TxBodyFormat::Json
    } else {
        TxBodyFormat::Base64
    }
}

/// The format of a submitted body.
pub fn tx_body_format(body: &str) -> (r: TxBodyFormat)
    ensures
        r == body_format(body@),
{
    match first_char(body) {
        Some(c) => if c == '{' {
            TxBodyFormat::Json
        } else {
            TxBodyFormat::Base64
        },
        None => TxBodyFormat::Base64,
    }
}

/// The transaction bytes written in base64 by `text`, or the decoder's error
/// text.
pub fn tx_bytes_from_base64(text: &str) -> (r: Result<Vec<u8>, String>)
    ensures
        match r {
            Ok(v) => base64_standard_decoding(text@) == Ok::<Seq<u8>, Seq<char>>(v@),
            Err(e) => base64_standard_decoding(text@) == Err::<Seq<u8>, Seq<char>>(e@),
        },
{
    base64_decode(text)
}

/// The legacy route's JSON request: the transaction as JSON text (the `tx`
/// value written compactly, as serde_json writes it) and the broadcast mode.
#[derive(Debug)]
pub struct TxRequest {
    pub tx: String,
    pub mode: String,
}

/// The broadcast route's JSON request: the transaction bytes in base64 and the
/// broadcast mode.
#[derive(Debug)]
pub struct TxRequest2 {
    pub tx_bytes: String,
    pub mode: String,
}

/// The bytes the legacy route broadcasts for `body`: for a JSON body, the
/// UTF-8 bytes of the request's `tx` text (`request` is that body's parse);
/// for any other body, the body decoded from base64, or the decoder's error
/// text.
pub open spec fn txs_body_bytes(body: Seq<char>, request: Option<Seq<char>>) -> Result<Seq<u8>, Seq<char>> {
    match body_format(body) {
        TxBodyFormat::Json => Ok(encode_utf8(request->0)),
        TxBodyFormat::Base64 => base64_standard_decoding(body),
    }
}

/// The bytes the broadcast route broadcasts for `body`: for a JSON body, the
/// request's `tx_bytes` decoded from base64 (`request` is that body's parse);
/// for any other body, the body itself decoded; or the decoder's error text.
pub open spec fn txs2_body_bytes(body: Seq<char>, request: Option<Seq<char>>) -> Result<Seq<u8>, Seq<char>> {
    match body_format(body) {
        TxBodyFormat::Json => base64_standard_decoding(request->0),
        TxBodyFormat::Base64 => base64_standard_decoding(body),
    }
}

/// The view of a decoded body.
pub open spec fn bytes_result_view(r: Result<Vec<u8>, String>) -> Result<Seq<u8>, Seq<char>> {
    match r {
        Ok(v) => Ok(v@),
        Err(e) => Err(e@),
    }
}

/// The bytes the legacy route broadcasts for `body`, or the error it answers
/// with. `request` is the body parsed as a JSON request, where it is JSON;
/// requires that parse where the body is JSON.
pub fn txs_bytes(body: &str, request: &Option<TxRequest>) -> (r: Result<Vec<u8>, String>)
    requires
        body_format(body@) == TxBodyFormat::Json ==> request is Some,
    ensures
        bytes_result_view(r) == txs_body_bytes(
            body@,
            match request {
                Some(q) => Some(q.tx@),
                None => None,
            },
        ),
{
    match tx_body_format(body) {
        TxBodyFormat::Json => {
            let q = request.as_ref().unwrap();
            Ok(slice_to_vec(q.tx.as_str().as_bytes()))
        },
        TxBodyFormat::Base64 => base64_decode(body),
    }
}

/// The bytes the broadcast route broadcasts for `body`, or the error it
/// answers with. `request` is the body parsed as a JSON request, where it is
/// JSON; requires that parse where the body is JSON.
pub fn tx2_bytes(body: &str, request: &Option<TxRequest2>) -> (r: Result<Vec<u8>, String>)
    requires
        body_format(body@) == TxBodyFormat::Json ==> request is Some,
    ensures
        bytes_result_view(r) == txs2_body_bytes(
            body@,
            match request {
                Some(q) => Some(q.tx_bytes@),
                None => None,
            },
        ),
{
    match tx_body_format(body) {
        TxBodyFormat::Json => {
            let q = request.as_ref().unwrap();
            base64_decode(q.tx_bytes.as_str())
        },
        TxBodyFormat::Base64 => base64_decode(body),
    }
}

/// A body wrapped in a JSON request broadcasts the same bytes, and fails with
/// the same error, as the raw base64 body it wraps.
pub proof fn lemma_wrapped_body_same_bytes(
    wrapped: Seq<char>,
    raw: Seq<char>,
    request: Option<Seq<char>>,
)
    requires
        body_format(wrapped) == TxBodyFormat::Json,
        body_format(raw) == TxBodyFormat::Base64,
    ensures
        txs2_body_bytes(wrapped, Some(raw)) == txs2_body_bytes(raw, request),
{
}

/// One ABCI result of a broadcast transaction. `data` holds the JSON text of
/// the result data as the node's types write it.
#[derive(Debug)]
pub struct TxResult {
    pub code: u32,
    pub data: String,
    pub log: String,
    pub info: String,
    pub gas_wanted: i64,
    pub gas_used: i64,
    pub codespace: String,
}

/// The result reported of a broadcast: the check result where its code is an
/// error (nonzero), else the delivery result.
pub open spec fn reported(check: TxResult, deliver: TxResult) -> TxResult {
    if check.code != 0 {
        check
    } else {
        deliver
    }
}

/// The result reported of a broadcast.
pub fn reported_result<'a>(check: &'a TxResult, deliver: &'a TxResult) -> (r: &'a TxResult)
    ensures
        *r == reported(*check, *deliver),
{
    if check.code != 0 {
        check
    } else {
        deliver
    }
}

/// The members of a broadcast response from `codespace` on, which both
/// routes share after their own `data` and `raw_log`.
pub open spec fn tail_members(
    head: Seq<Seq<char>>,
    r: TxResult,
) -> Seq<Seq<char>> {
    head.push(member("logs"@, array(seq![quoted(r.log@)]))).push(member("info"@, quoted(r.info@))).push(
        member("gas_wanted"@, signed_decimal(r.gas_wanted as int)),
    ).push(member("gas_used"@, signed_decimal(r.gas_used as int))).push(member("tx"@, null())).push(
        member("timestamp"@, quoted(Seq::empty())),
    )
}

/// The response of the legacy broadcast route.
pub open spec fn txs_response(hash: Seq<char>, r: TxResult) -> Seq<char> {
    object(
        tail_members(
            Seq::empty().push(member("height"@, quoted("0"@))).push(member("txhash"@, hash)).push(
                member("codespace"@, quoted(r.codespace@)),
            ).push(member("code"@, decimal(r.code as nat))).push(member("data"@, quoted(Seq::empty()))).push(
                member("raw_log"@, quoted("[]"@)),
            ),
            r,
        ),
    )
}

/// The response of the broadcast route.
pub open spec fn txs2_response(height: Seq<char>, hash: Seq<char>, r: TxResult) -> Seq<char> {
    object(
        tail_members(
            Seq::empty().push(member("height"@, height)).push(member("txhash"@, hash)).push(
                member("codespace"@, quoted(r.codespace@)),
            ).push(member("code"@, decimal(r.code as nat))).push(member("data"@, r.data@)).push(
                member("raw_log"@, quoted(r.log@)),
            ),
            r,
        ),
    )
}

fn add_tail(o: &mut JsonObject, r: &TxResult)
    ensures
        final(o).members() == tail_members(old(o).members(), *r),
{
    let mut logs = JsonArray::new();
    logs.add(json_string(r.log.as_str()));
    o.add("logs", logs.finish());
    o.add("info", json_string(r.info.as_str()));
    o.add("gas_wanted", i64_text(r.gas_wanted));
    o.add("gas_used", i64_text(r.gas_used));
    o.add("tx", json_null());
    o.add("timestamp", json_string(""));
    proof {
        reveal_strlit("");
    }
}

/// The legacy broadcast response: `hash` is the JSON text of the transaction
/// hash; the reported result is the check result where its code is an error,
/// else the delivery result.
pub fn txs(hash: &str, check: &TxResult, deliver: &TxResult) -> (r: String)
    ensures
        r@ == txs_response(hash@, reported(*check, *deliver)),
{
    let res = reported_result(check, deliver);
    let mut o = JsonObject::new();
    o.add("height", json_string("0"));
    o.add("txhash", hash.to_owned());
    o.add("codespace", json_string(res.codespace.as_str()));
    o.add("code", u64_text(res.code as u64));
    o.add("data", json_string(""));
    o.add("raw_log", json_string("[]"));
    add_tail(&mut o, res);
    proof {
        reveal_strlit("");
    }
    o.finish()
}

/// The broadcast response: `height` and `hash` are the JSON texts of the
/// block height and transaction hash; the reported result is the check
/// result where its code is an error, else the delivery result.
pub fn txs2(height: &str, hash: &str, check: &TxResult, deliver: &TxResult) -> (r: String)
    ensures
        r@ == txs2_response(height@, hash@, reported(*check, *deliver)),
{
    let res = reported_result(check, deliver);
    let mut o = JsonObject::new();
    o.add("height", height.to_owned());
    o.add("txhash", hash.to_owned());
    o.add("codespace", json_string(res.codespace.as_str()));
    o.add("code", u64_text(res.code as u64));
    o.add("data", res.data.clone());
    o.add("raw_log", json_string(res.log.as_str()));
    add_tail(&mut o, res);
    o.finish()
}

/// The reported result is the check result exactly when its code is nonzero,
/// and both broadcast responses carry, member by member, the reported result's
/// fields: its codespace, its code, its log (also as the only log), its info,
/// its gas wanted under `gas_wanted` and its gas used under `gas_used`.
pub proof fn lemma_broadcast_members(height: Seq<char>, hash: Seq<char>, check: TxResult, deliver: TxResult)
    ensures
        check.code != 0 ==> reported(check, deliver) == check,
        check.code == 0 ==> reported(check, deliver) == deliver,
        ({
            let r = reported(check, deliver);
            txs2_response(height, hash, r) == object(
                Seq::empty().push(member("height"@, height)).push(member("txhash"@, hash)).push(
                    member("codespace"@, quoted(r.codespace@)),
                ).push(member("code"@, decimal(r.code as nat))).push(member("data"@, r.data@)).push(
                    member("raw_log"@, quoted(r.log@)),
                ).push(member("logs"@, array(seq![quoted(r.log@)]))).push(member("info"@, quoted(r.info@))).push(
                    member("gas_wanted"@, signed_decimal(r.gas_wanted as int)),
                ).push(member("gas_used"@, signed_decimal(r.gas_used as int))).push(member("tx"@, null())).push(
                    member("timestamp"@, quoted(Seq::empty())),
                ),
            )
        }),
        ({
            let r = reported(check, deliver);
            txs_response(hash, r) == object(
                Seq::empty().push(member("height"@, quoted("0"@))).push(member("txhash"@, hash)).push(
                    member("codespace"@, quoted(r.codespace@)),
                ).push(member("code"@, decimal(r.code as nat))).push(member("data"@, quoted(Seq::empty()))).push(
                    member("raw_log"@, quoted("[]"@)),
                ).push(member("logs"@, array(seq![quoted(r.log@)]))).push(member("info"@, quoted(r.info@))).push(
                    member("gas_wanted"@, signed_decimal(r.gas_wanted as int)),
                ).push(member("gas_used"@, signed_decimal(r.gas_used as int))).push(member("tx"@, null())).push(
                    member("timestamp"@, quoted(Seq::empty())),
                ),
            )
        }),
{
}

} // verus!
