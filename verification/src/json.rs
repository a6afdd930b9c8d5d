//! JSON text: the response format of every endpoint.
//!
//! Responses are built as text from members, items and scalars. The spec
//! functions here say what that text is; the executable builders are proved
//! to produce exactly it.
use vstd::prelude::*;
use vstd::string::*;

verus! {

broadcast use vstd::string::group_string_axioms;

pub assume_specification[ String::push ](s: &mut String, ch: char)
    ensures
        final(s)@ == old(s)@.push(ch),
;

/// The lower-case hexadecimal digit for `d` (`d < 16`).
pub open spec fn hex_digit(d: u32) -> char {
    if d == 0 { '0' } else if d == 1 { '1' } else if d == 2 { '2' } else if d == 3 { '3' }
    else if d == 4 { '4' } else if d == 5 { '5' } else if d == 6 { '6' } else if d == 7 { '7' }
    else if d == 8 { '8' } else if d == 9 { '9' } else if d == 10 { 'a' } else if d == 11 { 'b' }
    else if d == 12 { 'c' } else if d == 13 { 'd' } else if d == 14 { 'e' } else { 'f' }
}

/// How one character is written inside a JSON string literal.
pub open spec fn escaped_char(c: char) -> Seq<char> {
    if c == '"' {
        seq!['\\', '"']
    } else if c == '\\' {
        seq!['\\', '\\']
    } else if c == '\n' {
        seq!['\\', 'n']
    } else if c == '\r' {
        seq!['\\', 'r']
    } else if c == '\t' {
        seq!['\\', 't']
    } else if c == '\u{08}' {
        seq!['\\', 'b']
    } else if c == '\u{0c}' {
        seq!['\\', 'f']
    } else if (c as u32) < 0x20 {
        seq!['\\', 'u', '0', '0', hex_digit((c as u32) / 16), hex_digit((c as u32) % 16)]
    } else {
        seq![c]
    }
}

/// The characters of `s`, each escaped for a JSON string literal.
pub open spec fn escaped(s: Seq<char>) -> Seq<char>
    decreases s.len(),
{
    if s.len() == 0 {
        Seq::empty()
    } else {
        escaped(s.drop_last()) + escaped_char(s.last())
    }
}

/// The JSON string literal for `s`.
pub open spec fn quoted(s: Seq<char>) -> Seq<char> {
    seq!['"'] + escaped(s) + seq!['"']
}

/// The texts in `items`, separated by commas.
pub open spec fn joined(items: Seq<Seq<char>>) -> Seq<char>
    decreases items.len(),
{
    if items.len() == 0 {
        Seq::empty()
    } else if items.len() == 1 {
        items[0]
    } else {
        joined(items.drop_last()) + seq![','] + items.last()
    }
}

/// A JSON object whose members (each already `"key":value`) are `members`.
pub open spec fn object(members: Seq<Seq<char>>) -> Seq<char> {
    seq!['{'] + joined(members) + seq!['}']
}

/// A JSON array of the values `items`.
pub open spec fn array(items: Seq<Seq<char>>) -> Seq<char> {
    seq!['['] + joined(items) + seq![']']
}

/// The member `"key":value` of a JSON object.
pub open spec fn member(key: Seq<char>, value: Seq<char>) -> Seq<char> {
    quoted(key) + seq![':'] + value
}

/// The JSON literal for a boolean.
pub open spec fn boolean(b: bool) -> Seq<char> {
    if b {
        seq!['t', 'r', 'u', 'e']
    } else {
        seq!['f', 'a', 'l', 's', 'e']
    }
}

/// The JSON literal `null`.
pub open spec fn null() -> Seq<char> {
    seq!['n', 'u', 'l', 'l']
}

/// The texts of a sequence of strings.
pub open spec fn views(v: Seq<String>) -> Seq<Seq<char>> {
    v.map_values(|s: String| s@)
}

fn hex_digit_char(d: u32) -> (c: char)
    requires
        d < 16,
    ensures
        c == hex_digit(d),
{
    if d == 0 { '0' } else if d == 1 { '1' } else if d == 2 { '2' } else if d == 3 { '3' }
    else if d == 4 { '4' } else if d == 5 { '5' } else if d == 6 { '6' } else if d == 7 { '7' }
    else if d == 8 { '8' } else if d == 9 { '9' } else if d == 10 { 'a' } else if d == 11 { 'b' }
    else if d == 12 { 'c' } else if d == 13 { 'd' } else if d == 14 { 'e' } else { 'f' }
}

fn push_escaped(out: &mut String, c: char)
    ensures
        final(out)@ == old(out)@ + escaped_char(c),
{
    let code = c as u32;
    if c == '"' {
        out.push('\\');
        out.push('"');
    } else if c == '\\' {
        out.push('\\');
        out.push('\\');
    } else if c == '\n' {
        out.push('\\');
        out.push('n');
    } else if c == '\r' {
        out.push('\\');
        out.push('r');
    } else if c == '\t' {
        out.push('\\');
        out.push('t');
    } else if c == '\u{08}' {
        out.push('\\');
        out.push('b');
    } else if c == '\u{0c}' {
        out.push('\\');
        out.push('f');
    } else if code < 0x20 {
        out.push('\\');
        out.push('u');
        out.push('0');
        out.push('0');
        out.push(hex_digit_char(code / 16));
        out.push(hex_digit_char(code % 16));
    } else {
        out.push(c);
    }
    assert(final(out)@ =~= old(out)@ + escaped_char(c));
}

/// The JSON string literal for `s`.
pub fn json_string(s: &str) -> (r: String)
    ensures
        r@ == quoted(s@),
{
    let mut out = String::new();
    out.push('"');
    let ghost text = s@;
    for c in it: s.chars()
        invariant
            it.seq() == text,
            out@ == seq!['"'] + escaped(text.take(it.index() as int)),
    {
        let ghost i = it.index() as int;
        proof {
            assert(text.take(i + 1).drop_last() =~= text.take(i));
        }
        push_escaped(&mut out, c);
    }
    proof {
        assert(text.take(text.len() as int) =~= text);
    }
    out.push('"');
    out
}

/// The member `"key":value` of a JSON object.
pub fn json_member(key: &str, value: String) -> (r: String)
    ensures
        r@ == member(key@, value@),
{
    let mut out = json_string(key);
    out.push(':');
    out.append(value.as_str());
    out
}

fn json_joined(open: char, items: &Vec<String>, close: char) -> (r: String)
    ensures
        r@ == seq![open] + joined(views(items@)) + seq![close],
{
    let mut out = String::new();
    out.push(open);
    let ghost all = views(items@);
    let mut i: usize = 0;
    while i < items.len()
        invariant
            all == views(items@),
            i <= items.len(),
            out@ == seq![open] + joined(all.take(i as int)),
        decreases items.len() - i,
    {
        proof {
            assert(all.take(i + 1).drop_last() =~= all.take(i as int));
            assert(all.take(1) =~= seq![all[0]]);
        }
        if i > 0 {
            out.push(',');
        }
        out.append(items[i].as_str());
        i = i + 1;
    }
    proof {
        assert(all.take(items.len() as int) =~= all);
    }
    out.push(close);
    out
}

/// The JSON object with the given members.
pub fn json_object(members: Vec<String>) -> (r: String)
    ensures
        r@ == object(views(members@)),
{
    json_joined('{', &members, '}')
}

/// The JSON array of the given values.
pub fn json_array(items: Vec<String>) -> (r: String)
    ensures
        r@ == array(views(items@)),
{
    json_joined('[', &items, ']')
}

/// The JSON literal for a boolean.
pub fn json_bool(b: bool) -> (r: String)
    ensures
        r@ == boolean(b),
{
    let mut out = String::new();
    if b {
        out.push('t');
        out.push('r');
        out.push('u');
        out.push('e');
    } else {
        out.push('f');
        out.push('a');
        out.push('l');
        out.push('s');
        out.push('e');
    }
    assert(out@ =~= boolean(b));
    out
}

/// The JSON literal `null`.
pub fn json_null() -> (r: String)
    ensures
        r@ == null(),
{
    let mut out = String::new();
    out.push('n');
    out.push('u');
    out.push('l');
    out.push('l');
    assert(out@ =~= null());
    out
}

/// A JSON object being built, member by member.
pub struct JsonObject {
    members: Vec<String>,
}

impl JsonObject {
    /// The members added so far, in order.
    pub closed spec fn members(&self) -> Seq<Seq<char>> {
        views(self.members@)
    }

    /// An object with no members yet.
    pub fn new() -> (r: Self)
        ensures
            r.members() == Seq::<Seq<char>>::empty(),
    {
        let r = JsonObject { members: Vec::new() };
        assert(r.members() =~= Seq::<Seq<char>>::empty());
        r
    }

    /// Adds the member `"key":value`.
    pub fn add(&mut self, key: &str, value: String)
        ensures
            final(self).members() == old(self).members().push(member(key@, value@)),
    {
        let m = json_member(key, value);
        self.members.push(m);
        assert(views(self.members@) =~= views(old(self).members@).push(m@));
    }

    /// The text of the object.
    pub fn finish(self) -> (r: String)
        ensures
            r@ == object(self.members()),
    {
        json_object(self.members)
    }
}

/// A JSON array being built, item by item.
pub struct JsonArray {
    items: Vec<String>,
}

impl JsonArray {
    /// The items added so far, in order.
    pub closed spec fn items(&self) -> Seq<Seq<char>> {
        views(self.items@)
    }

    /// An array with no items yet.
    pub fn new() -> (r: Self)
        ensures
            r.items() == Seq::<Seq<char>>::empty(),
    {
        let r = JsonArray { items: Vec::new() };
        assert(r.items() =~= Seq::<Seq<char>>::empty());
        r
    }

    /// Adds the value `item`.
    pub fn add(&mut self, item: String)
        ensures
            final(self).items() == old(self).items().push(item@),
    {
        let ghost t = item@;
        self.items.push(item);
        assert(views(self.items@) =~= views(old(self).items@).push(t));
    }

    /// The number of items added so far.
    pub fn len(&self) -> (r: usize)
        ensures
            r == self.items().len(),
    {
        self.items.len()
    }

    /// The text of the array.
    pub fn finish(self) -> (r: String)
        ensures
            r@ == array(self.items()),
    {
        json_array(self.items)
    }
}

} // verus!
