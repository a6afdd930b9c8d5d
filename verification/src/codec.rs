//! The encodings the endpoints use, through the crates that implement them:
//! base64 and hex for bytes, chrono for timestamps, bitcoin for addresses,
//! and the system clock.
use vstd::prelude::*;
use vstd::string::*;
use chrono::TimeZone;

verus! {

broadcast use vstd::string::group_string_axioms;

/// What `base64::encode` (standard alphabet, with padding) returns for `bytes`.
pub uninterp spec fn base64_standard(bytes: Seq<u8>) -> Seq<char>;

/// What `base64::decode` (standard alphabet) makes of `text`: the bytes, or
/// the `Debug` text of its `DecodeError`.
pub uninterp spec fn base64_standard_decoding(text: Seq<char>) -> Result<Seq<u8>, Seq<char>>;

/// The `Debug` text of the error `hex::decode` returns for `text`.
pub uninterp spec fn hex_error(text: Seq<char>) -> Seq<char>;

/// The RFC 3339 text (`SecondsFormat::AutoSi`, `Z` for UTC) that chrono gives
/// the UTC time `secs` seconds after the Unix epoch, or `None` where chrono has
/// no such time.
pub uninterp spec fn utc_rfc3339(secs: int) -> Option<Seq<char>>;

/// The script pubkey of the Bitcoin address written `address`, or `None` where
/// the bitcoin crate does not parse it.
pub uninterp spec fn address_script_pubkey(address: Seq<char>) -> Option<Seq<u8>>;

/// The text of the Bitcoin address for `script` on `network`, or `None` where
/// the bitcoin crate finds no address form for the script.
pub uninterp spec fn script_address_text(script: Seq<u8>, network: BtcNetwork) -> Option<Seq<char>>;

/// The Bitcoin networks an address can be written for.
#[derive(Clone, Copy, Debug, PartialEq, Eq, Structural)]
pub enum BtcNetwork {
    Bitcoin,
    Regtest,
    Testnet,
    Signet,
}

/// The value of one hexadecimal digit, upper or lower case.
pub open spec fn hex_value(c: char) -> Option<u8> {
    if '0' <= c && c <= '9' {
        Some(((c as u32) - ('0' as u32)) as u8)
    } else if 'a' <= c && c <= 'f' {
        Some(((c as u32) - ('a' as u32) + 10) as u8)
    } else if 'A' <= c && c <= 'F' {
        Some(((c as u32) - ('A' as u32) + 10) as u8)
    } else {
        None
    }
}

/// The bytes that the hexadecimal text `s` spells, two digits a byte, high
/// digit first; `None` where the length is odd or a character is no digit.
pub open spec fn hex_bytes(s: Seq<char>) -> Option<Seq<u8>> {
    if s.len() % 2 == 0 && (forall|i: int| 0 <= i < s.len() ==> #[trigger] hex_value(s[i]) is Some) {
        Some(
            Seq::new(
                s.len() / 2,
                |i: int| (hex_value(s[2 * i])->0 * 16 + hex_value(s[2 * i + 1])->0) as u8,
            ),
        )
    } else {
        None
    }
}

/// `base64::encode` on `bytes`: their base64 text in the standard alphabet,
/// padded; the contract ties the text to the bytes by name only.
#[verifier::external_body]
pub(crate) fn base64_encode(bytes: &[u8]) -> (r: String)
    ensures
        r@ == base64_standard(bytes@),
{
    base64::encode(bytes)
}

/// `base64::decode` on the bytes of `text`: the decoded bytes, or the error
/// in its `Debug` form; the contract ties either to the text by name only.
#[verifier::external_body]
pub(crate) fn base64_decode(text: &str) -> (r: Result<Vec<u8>, String>)
    ensures
        match r {
            Ok(v) => base64_standard_decoding(text@) == Ok::<Seq<u8>, Seq<char>>(v@),
            Err(e) => base64_standard_decoding(text@) == Err::<Seq<u8>, Seq<char>>(e@),
        },
{
    match base64::decode(text) {
        Ok(v) => Ok(v),
        Err(e) => Err(format!("{:?}", e)),
    }
}

/// `hex::decode` on the bytes of `text`. As the crate's source shows, it
/// succeeds exactly when the length is even and every character is a hex
/// digit, and then pairs the digits into bytes; its error is returned in its
/// `Debug` form, which the contract names only.
#[verifier::external_body]
pub(crate) fn hex_decode(text: &str) -> (r: Result<Vec<u8>, String>)
    ensures
        match r {
            Ok(v) => hex_bytes(text@) == Some(v@),
            Err(e) => hex_bytes(text@) is None && e@ == hex_error(text@),
        },
{
    match hex::decode(text) {
        Ok(v) => Ok(v),
        Err(e) => Err(format!("{:?}", e)),
    }
}

/// chrono's `Utc.timestamp_opt(secs, 0)` written by `to_rfc3339_opts(AutoSi,
/// true)`, the form chrono's `Serialize` gives a `DateTime<Utc>`. `None` where
/// `timestamp_opt` gives no single time. The text is named, not stated.
#[verifier::external_body]
pub(crate) fn utc_timestamp_text(secs: i64) -> (r: Option<String>)
    ensures
        match r {
            Some(t) => utc_rfc3339(secs as int) == Some(t@),
            None => utc_rfc3339(secs as int) is None,
        },
{
    match chrono::Utc.timestamp_opt(secs, 0) {
        chrono::LocalResult::Single(t) => Some(t.to_rfc3339_opts(chrono::SecondsFormat::AutoSi, true)),
        _ => None,
    }
}

/// bitcoin's `Address::from_str` on `address`, then `script_pubkey` of the
/// parsed address as bytes; `None` where the text does not parse.
#[verifier::external_body]
pub(crate) fn script_pubkey_of(address: &str) -> (r: Option<Vec<u8>>)
    ensures
        match r {
            Some(v) => address_script_pubkey(address@) == Some(v@),
            None => address_script_pubkey(address@) is None,
        },
{
    match address.parse::<bitcoin::Address>() {
        Ok(a) => Some(a.script_pubkey().as_bytes().to_vec()),
        Err(_) => None,
    }
}

/// bitcoin's `Address::from_script` on `script` and `network`, written with
/// `to_string`; `None` where `from_script` returns an error.
#[verifier::external_body]
pub(crate) fn address_of_script(script: &[u8], network: BtcNetwork) -> (r: Option<String>)
    ensures
        match r {
            Some(t) => script_address_text(script@, network) == Some(t@),
            None => script_address_text(script@, network) is None,
        },
{
    let net = match network {
        BtcNetwork::Bitcoin => bitcoin::Network::Bitcoin,
        BtcNetwork::Regtest => bitcoin::Network::Regtest,
        BtcNetwork::Testnet => bitcoin::Network::Testnet,
        BtcNetwork::Signet => bitcoin::Network::Signet,
    };
    match bitcoin::Address::from_script(&bitcoin::Script::from(script.to_vec()), net) {
        Ok(a) => Some(a.to_string()),
        Err(_) => None,
    }
}

#[verifier::external_type_specification]
#[verifier::external_body]
pub struct ExSystemTime(std::time::SystemTime);

#[verifier::external_type_specification]
#[verifier::external_body]
pub struct ExSystemTimeError(std::time::SystemTimeError);

/// `SystemTime::now()`: the clock's reading, of which nothing is claimed.
#[verifier::external_body]
fn system_now() -> std::time::SystemTime {
    std::time::SystemTime::now()
}

/// `SystemTime::duration_since(UNIX_EPOCH)`: an error where `t` is before the
/// epoch; nothing is claimed of the duration.
#[verifier::external_body]
fn since_unix_epoch(t: &std::time::SystemTime) -> Result<core::time::Duration, std::time::SystemTimeError> {
    t.duration_since(std::time::SystemTime::UNIX_EPOCH)
}

/// `Duration::as_secs`: the whole seconds of `d`; `Duration` is opaque here, so
/// nothing is claimed of the number.
#[verifier::external_body]
fn whole_seconds(d: &core::time::Duration) -> u64 {
    d.as_secs()
}

/// The seconds since the Unix epoch by the system clock; `None` where the clock
/// reads a time before the epoch.
pub fn time_now() -> (r: Option<u64>) {
    let now = system_now();
    match since_unix_epoch(&now) {
        Ok(d) => Some(whole_seconds(&d)),
        Err(_) => None,
    }
}

/// Whether two texts are equal.
pub fn text_eq(a: &str, b: &str) -> (r: bool)
    ensures
        r == (a@ == b@),
{
    let a_owned = a.to_owned();
    let b_owned = b.to_owned();
    a_owned == b_owned
}

/// The first character of `s`, if any.
pub fn first_char(s: &str) -> (r: Option<char>)
    ensures
        match r {
            Some(c) => s@.len() > 0 && c == s@[0],
            None => s@.len() == 0,
        },
{
    let mut it = s.chars();
    it.next()
}

} // verus!
