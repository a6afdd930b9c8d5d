use nomic_rest::query::{query_bytes, query_response, query_route, QueryCache};
use nomic_rest::tx::{
    reported_result, tx2_bytes, tx_body_format, tx_bytes_from_base64, txs, txs2, txs_bytes, TxBodyFormat,
    TxRequest, TxRequest2, TxResult,
};

fn result(code: u32, log: &str) -> TxResult {
    TxResult {
        code,
        data: "\"\"".to_string(),
        log: log.to_string(),
        info: "".to_string(),
        gas_wanted: 100,
        gas_used: -1,
        codespace: "sdk".to_string(),
    }
}

#[test]
fn body_format_by_first_char() {
    assert_eq!(tx_body_format("{\"tx\":1}"), TxBodyFormat::Json);
    assert_eq!(tx_body_format("aGVsbG8="), TxBodyFormat::Base64);
    assert_eq!(tx_body_format(""), TxBodyFormat::Base64);
    assert_eq!(tx_body_format(" {"), TxBodyFormat::Base64);
}

#[test]
fn base64_body_decodes() {
    assert_eq!(tx_bytes_from_base64("aGVsbG8=").unwrap(), b"hello".to_vec());
    assert_eq!(tx_bytes_from_base64("!!").unwrap_err(), "InvalidByte(0, 33)");
    assert_eq!(tx_bytes_from_base64("a").unwrap_err(), "InvalidLength");
}

#[test]
fn check_error_is_reported() {
    let check = result(5, "check failed");
    let deliver = result(0, "delivered");
    assert_eq!(reported_result(&check, &deliver).log, "check failed");
    let ok_check = result(0, "checked");
    assert_eq!(reported_result(&ok_check, &deliver).log, "delivered");
}

#[test]
fn legacy_broadcast_text() {
    let check = result(0, "checked");
    let deliver = result(0, "delivered");
    assert_eq!(
        txs("\"ABCD\"", &check, &deliver),
        [
            "{\"height\":\"0\",\"txhash\":\"ABCD\",\"codespace\":\"sdk\",\"code\":0,\"data\":\"\",",
            "\"raw_log\":\"[]\",\"logs\":[\"delivered\"],\"info\":\"\",\"gas_wanted\":100,",
            "\"gas_used\":-1,\"tx\":null,\"timestamp\":\"\"}"
        ].concat()
    );
}

#[test]
fn broadcast_text() {
    let check = result(7, "bad");
    let deliver = result(0, "delivered");
    let j: serde_json::Value = serde_json::from_str(&txs2("\"12\"", "\"ABCD\"", &check, &deliver)).unwrap();
    assert_eq!(j["height"], "12");
    assert_eq!(j["code"], 7);
    assert_eq!(j["raw_log"], "bad");
    assert_eq!(j["logs"][0], "bad");
    assert_eq!(j["data"], "");
}

#[test]
fn query_key_from_hex() {
    assert_eq!(query_bytes("0a0B").unwrap(), vec![10, 11]);
    assert_eq!(query_bytes("").unwrap(), Vec::<u8>::new());
    assert_eq!(query_bytes("abc").unwrap_err(), "OddLength");
    assert_eq!(query_bytes("zz").unwrap_err(), "InvalidHexCharacter { c: 'z', index: 0 }");
}

#[test]
fn query_reply_prefixes_height() {
    assert_eq!(query_response(5, 0, "", &vec![1, 2]).unwrap(), "AAAABQEC");
    assert_eq!(query_response(0, 0, "", &vec![]).unwrap(), "AAAAAA==");
    assert_eq!(query_response(5, 3, "boom", &vec![1]).unwrap_err(), "code 3: boom");
}

#[test]
fn cache_read_after_write() {
    let mut cache = QueryCache::new();
    assert!(cache.get("k").is_none());
    cache.insert("k".to_string(), 10, "first".to_string());
    cache.insert("j".to_string(), 11, "other".to_string());
    assert_eq!(cache.get("k"), Some((10, "first".to_string())));
    cache.insert("k".to_string(), 12, "second".to_string());
    assert_eq!(cache.get("k"), Some((12, "second".to_string())));
    assert_eq!(cache.get("j"), Some((11, "other".to_string())));
    assert!(cache.get("x").is_none());
}

#[test]
fn legacy_body_bytes() {
    let json_body = "{\"tx\":{\"a\":1},\"mode\":\"block\"}";
    let request = Some(TxRequest { tx: "{\"a\":1}".to_string(), mode: "block".to_string() });
    assert_eq!(txs_bytes(json_body, &request).unwrap(), b"{\"a\":1}".to_vec());
    assert_eq!(txs_bytes("aGVsbG8=", &None).unwrap(), b"hello".to_vec());
    assert_eq!(txs_bytes("!!", &None).unwrap_err(), "InvalidByte(0, 33)");
}

#[test]
fn wrapped_body_broadcasts_same_bytes() {
    let raw = "aGVsbG8=";
    let wrapped = "{\"tx_bytes\":\"aGVsbG8=\",\"mode\":\"sync\"}";
    let request = Some(TxRequest2 { tx_bytes: raw.to_string(), mode: "sync".to_string() });
    assert_eq!(tx2_bytes(wrapped, &request), tx2_bytes(raw, &None));
    assert_eq!(tx2_bytes(raw, &None).unwrap(), b"hello".to_vec());
    let bad = Some(TxRequest2 { tx_bytes: "!!".to_string(), mode: "sync".to_string() });
    assert_eq!(tx2_bytes("{\"tx_bytes\":\"!!\"}", &bad), tx2_bytes("!!", &None));
}

#[test]
fn query_route_ignores_cache_and_records_reply() {
    let mut fresh = QueryCache::new();
    let mut stale = QueryCache::new();
    stale.insert("0a".to_string(), 1, "old".to_string());
    let a = query_route(&mut fresh, "0a", 50, 5, 0, "", &vec![1, 2]);
    let b = query_route(&mut stale, "0a", 50, 5, 0, "", &vec![1, 2]);
    assert_eq!(a, b);
    assert_eq!(a.unwrap(), "AAAABQEC");
    assert_eq!(stale.get("0a"), Some((50, "AAAABQEC".to_string())));
    let e = query_route(&mut fresh, "0b", 60, 5, 3, "boom", &vec![]);
    assert_eq!(e.unwrap_err(), "code 3: boom");
    assert!(fresh.get("0b").is_none());
}
