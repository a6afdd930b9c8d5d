//! Raw ABCI queries: the hex query key, the encoded reply, and the cache of
//! replies by query.
use vstd::prelude::*;
use vstd::hash_map::StringHashMap;
use crate::codec::{base64_encode, base64_standard, hex_bytes, hex_decode, hex_error};
use crate::number::{decimal, u64_text};

verus! {

/// The query key written in hexadecimal by `query`, or the decoder's error
/// text.
pub fn query_bytes(query: &str) -> (r: Result<Vec<u8>, String>)
    ensures
        match r {
            Ok(v) => hex_bytes(query@) == Some(v@),
            Err(e) => hex_bytes(query@) is None && e@ == hex_error(query@),
        },
{
    hex_decode(query)
}

/// The big-endian bytes of a height.
pub open spec fn be_bytes(h: u32) -> Seq<u8> {
    seq![
        (h / 0x1000000) as u8,
        ((h / 0x10000) % 0x100) as u8,
        ((h / 0x100) % 0x100) as u8,
        (h % 0x100) as u8,
    ]
}

/// The number that four big-endian bytes stand for.
pub open spec fn be_value(b: Seq<u8>) -> int {
    b[0] * 0x1000000 + b[1] * 0x10000 + b[2] * 0x100 + b[3]
}

/// The bytes a successful query answers with: the height, big-endian in four
/// bytes, then the value.
pub open spec fn query_payload(height: u32, value: Seq<u8>) -> Seq<u8> {
    be_bytes(height) + value
}

/// The message of a query the application answered with an error code.
pub open spec fn query_error_text(code: u32, log: Seq<char>) -> Seq<char> {
    "code "@ + decimal(code as nat) + ": "@ + log
}

/// What the query route answers: the error message where `code` is nonzero,
/// else the payload in base64.
pub open spec fn query_result(height: u32, code: u32, log: Seq<char>, value: Seq<u8>) -> Result<Seq<char>, Seq<char>> {
    if code != 0 {
        Err(query_error_text(code, log))
    } else {
        Ok(base64_standard(query_payload(height, value)))
    }
}

/// The answer to a query from the node's reply: its height, code, log and
/// value. Requires the height to fit in a `u32`.
pub fn query_response(height: u64, code: u32, log: &str, value: &Vec<u8>) -> (r: Result<String, String>)
    requires
        height <= u32::MAX,
    ensures
        match r {
            Ok(t) => query_result(height as u32, code, log@, value@) == Ok::<Seq<char>, Seq<char>>(t@),
            Err(e) => query_result(height as u32, code, log@, value@) == Err::<Seq<char>, Seq<char>>(e@),
        },
{
    let h: u32 = height as u32;
    if code != 0 {
        let mut msg = String::new();
        msg.append("code ");
        msg.append(u64_text(code as u64).as_str());
        msg.append(": ");
        msg.append(log);
        return Err(msg);
    }
    let mut payload: Vec<u8> = Vec::new();
    payload.push((h / 0x1000000) as u8);
    payload.push(((h / 0x10000) % 0x100) as u8);
    payload.push(((h / 0x100) % 0x100) as u8);
    payload.push((h % 0x100) as u8);
    let ghost head = payload@;
    proof {
        assert(head =~= be_bytes(h));
    }
    let mut i: usize = 0;
    while i < value.len()
        invariant
            i <= value.len(),
            payload@ == head + value@.take(i as int),
        decreases value.len() - i,
    {
        payload.push(value[i]);
        i = i + 1;
        proof {
            assert(payload@ =~= head + value@.take(i as int));
        }
    }
    proof {
        assert(value@.take(value.len() as int) =~= value@);
    }
    Ok(base64_encode(payload.as_slice()))
}

/// The payload of a query begins with the height in four big-endian bytes,
/// and the value follows them unchanged.
pub proof fn lemma_query_payload_splits(height: u32, value: Seq<u8>)
    ensures
        query_payload(height, value).len() == value.len() + 4,
        be_value(query_payload(height, value).take(4)) == height,
        query_payload(height, value).skip(4) == value,
{
    let p = query_payload(height, value);
    assert(p.take(4) =~= be_bytes(height));
    assert(p.skip(4) =~= value);
    let h = height as int;
    assert(h == (h / 0x1000000) * 0x1000000 + ((h / 0x10000) % 0x100) * 0x10000 + ((h / 0x100) % 0x100)
        * 0x100 + h % 0x100) by (nonlinear_arith)
        requires
            0 <= h < 0x100000000,
    ;
}

/// The replies to queries, by query: the cache the query route writes. Each
/// reply is kept with the time it was made.
pub struct QueryCache {
    entries: StringHashMap<(u64, String)>,
}

/// The cache contents of a map of entries: each query's time and reply text.
pub open spec fn entries_view(m: Map<Seq<char>, (u64, String)>) -> Map<Seq<char>, (u64, Seq<char>)> {
    m.map_values(|e: (u64, String)| (e.0, e.1@))
}

impl View for QueryCache {
    type V = Map<Seq<char>, (u64, Seq<char>)>;

    closed spec fn view(&self) -> Map<Seq<char>, (u64, Seq<char>)> {
        entries_view(self.entries@)
    }
}

impl QueryCache {
    /// An empty cache.
    pub fn new() -> (r: Self)
        ensures
            r@ == Map::<Seq<char>, (u64, Seq<char>)>::empty(),
    {
        let r = QueryCache { entries: StringHashMap::new() };
        assert(entries_view(r.entries@) =~= Map::<Seq<char>, (u64, Seq<char>)>::empty());
        r
    }

    /// The cached reply to `query`, if any.
    pub fn get(&self, query: &str) -> (r: Option<(u64, String)>)
        ensures
            match r {
                None => !self@.contains_key(query@),
                Some((t, v)) => self@.contains_key(query@) && self@[query@] == (t, v@),
            },
    {
        match self.entries.get(query) {
            None => None,
            Some(e) => Some((e.0, e.1.clone())),
        }
    }

    /// Records `response`, made at `time`, as the reply to `query`, in place
    /// of any earlier one.
    pub fn insert(&mut self, query: String, time: u64, response: String)
        ensures
            final(self)@ == old(self)@.insert(query@, (time, response@)),
    {
        let ghost q = query@;
        let ghost resp = response@;
        self.entries.insert(query, (time, response));
        assert(entries_view(self.entries@) =~= entries_view(old(self).entries@).insert(q, (time, resp)));
    }
}

/// After a reply is written, a read of its query gives that reply, and the
/// replies to other queries are as they were.
pub proof fn lemma_cache_read_after_write(
    before: &QueryCache,
    after: &QueryCache,
    query: Seq<char>,
    time: u64,
    response: Seq<char>,
    other: Seq<char>,
)
    requires
        after@ == before@.insert(query, (time, response)),
    ensures
        after@.contains_key(query),
        after@[query] == (time, response),
        other != query ==> after@.contains_key(other) == before@.contains_key(other),
        other != query && before@.contains_key(other) ==> after@[other] == before@[other],
{
}

/// What the query route answers and how it leaves the cache: the answer
/// depends on the node's reply alone, never on what the cache held; a
/// successful answer is recorded, made at `now`, as the reply to `query`, and
/// an error leaves the cache as it was. Requires the height to fit in a `u32`.
pub fn query_route(
    cache: &mut QueryCache,
    query: &str,
    now: u64,
    height: u64,
    code: u32,
    log: &str,
    value: &Vec<u8>,
) -> (r: Result<String, String>)
    requires
        height <= u32::MAX,
    ensures
        match r {
            Ok(t) => query_result(height as u32, code, log@, value@) == Ok::<Seq<char>, Seq<char>>(t@)
                && final(cache)@ == old(cache)@.insert(query@, (now, t@)),
            Err(e) => query_result(height as u32, code, log@, value@) == Err::<Seq<char>, Seq<char>>(e@)
                && final(cache)@ == old(cache)@,
        },
{
    let r = query_response(height, code, log, value);
    match r {
        Ok(t) => {
            cache.insert(query.to_owned(), now, t.clone());
            Ok(t)
        },
        Err(e) => Err(e),
    }
}

} // verus!
