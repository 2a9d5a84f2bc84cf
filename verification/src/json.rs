//! A plain-value model of JSON documents and a verified serializer.
//!
//! The library frames every request body itself, so the exact characters
//! put on the wire are pinned down by the spec functions below; nothing
//! about the wire format is taken on trust.

use vstd::prelude::*;
use vstd::string::StrSliceExecFns;
use vstd::string::StringExecFns;

verus! {

/// A JSON document held as plain values: the shape the library's logic
/// reads and writes. Keys of an object keep their insertion order.
#[derive(Debug, PartialEq)]
pub enum JsonValue {
    Null,
    Bool(bool),
    Int(i64),
    Text(String),
    Array(Vec<JsonValue>),
    Object(Vec<(String, JsonValue)>),
}

/// The character for one decimal digit.
pub open spec fn dec_digit(d: nat) -> char {
    ((d + 48) as u8) as char
}

/// The character for one hexadecimal digit, lower case.
pub open spec fn hex_digit(d: nat) -> char {
    if d < 10 {
        ((d + 48) as u8) as char
    } else {
        ((d + 87) as u8) as char
    }
}

/// The decimal digits of `n`, most significant first.
pub open spec fn digits_of(n: nat) -> Seq<char>
    decreases n,
{
    if n < 10 {
        seq![dec_digit(n)]
    } else {
        digits_of(n / 10) + seq![dec_digit(n % 10)]
    }
}

/// The decimal rendering of an integer, with a leading minus sign when
/// it is negative.
pub open spec fn int_chars(i: int) -> Seq<char> {
    if i < 0 {
        seq!['-'] + digits_of((-i) as nat)
    } else {
        digits_of(i as nat)
    }
}

/// How one character appears inside a JSON string literal.
pub open spec fn escaped_char(c: char) -> Seq<char> {
    if c == '"' {
        seq!['\\', '"']
    } else if c == '\\' {
        seq!['\\', '\\']
    } else if c == '\n' {
        seq!['\\', 'n']
    } else if c == '\r' {
        seq!['\\', 'r']
    } else if c == '\t' {
        seq!['\\', 't']
    } else if (c as u32) < 32 {
        seq!['\\', 'u', '0', '0', hex_digit(((c as u32) / 16) as nat), hex_digit(
            ((c as u32) % 16) as nat,
        )]
    } else {
        seq![c]
    }
}

/// A whole character sequence escaped for a JSON string literal.
pub open spec fn escaped(s: Seq<char>) -> Seq<char>
    decreases s.len(),
{
    if s.len() == 0 {
        Seq::empty()
    } else {
        escaped_char(s[0]) + escaped(s.drop_first())
    }
}

/// A JSON string literal: the escaped characters between double quotes.
pub open spec fn quoted(s: Seq<char>) -> Seq<char> {
    seq!['"'] + escaped(s) + seq!['"']
}

/// The exact characters of the serialized form of a JSON value.
pub open spec fn json_chars(v: JsonValue) -> Seq<char>
    decreases v, 0nat,
{
    match v {
        JsonValue::Null => seq!['n', 'u', 'l', 'l'],
        JsonValue::Bool(b) => if b {
            seq!['t', 'r', 'u', 'e']
        } else {
            seq!['f', 'a', 'l', 's', 'e']
        },
        JsonValue::Int(i) => int_chars(i as int),
        JsonValue::Text(s) => quoted(s@),
        JsonValue::Array(a) => seq!['['] + items_chars(a@, 0) + seq![']'],
        JsonValue::Object(m) => seq!['{'] + members_chars(m@, 0) + seq!['}'],
    }
}

/// The comma-separated serialized forms of the array items from `i` on.
pub open spec fn items_chars(s: Seq<JsonValue>, i: int) -> Seq<char>
    decreases s, s.len() - i,
{
    if i < 0 || i >= s.len() {
        Seq::empty()
    } else if i == s.len() - 1 {
        json_chars(s[i])
    } else {
        json_chars(s[i]) + seq![','] + items_chars(s, i + 1)
    }
}

/// The comma-separated serialized `"key":value` members from `i` on.
pub open spec fn members_chars(s: Seq<(String, JsonValue)>, i: int) -> Seq<char>
    decreases s, s.len() - i,
{
    if i < 0 || i >= s.len() {
        Seq::empty()
    } else if i == s.len() - 1 {
        quoted(s[i].0@) + seq![':'] + json_chars(s[i].1)
    } else {
        quoted(s[i].0@) + seq![':'] + json_chars(s[i].1) + seq![','] + members_chars(s, i + 1)
    }
}

/// The value under `key` in an object member list: the first member with
/// that key, if any.
pub open spec fn lookup_spec(m: Seq<(String, JsonValue)>, key: Seq<char>) -> Option<JsonValue>
    decreases m.len(),
{
    if m.len() == 0 {
        None
    } else if m[0].0@ == key {
        Some(m[0].1)
    } else {
        lookup_spec(m.drop_first(), key)
    }
}

fn push_digits(n: u64, out: &mut Vec<char>)
    ensures
        final(out)@ == old(out)@ + digits_of(n as nat),
    decreases n,
{
    if n < 10 {
        out.push(((n as u8) + 48) as char);
        assert(out@ =~= old(out)@ + digits_of(n as nat));
    } else {
        push_digits(n / 10, out);
        out.push((((n % 10) as u8) + 48) as char);
        assert(out@ =~= old(out)@ + digits_of(n as nat));
    }
}

fn push_int(i: i64, out: &mut Vec<char>)
    ensures
        final(out)@ == old(out)@ + int_chars(i as int),
{
    if i < 0 {
        out.push('-');
        let wide: i128 = i as i128;
        let magnitude: u64 = (-wide) as u64;
        assert(magnitude as nat == (-(i as int)) as nat);
        push_digits(magnitude, out);
        assert(out@ =~= old(out)@ + int_chars(i as int));
    } else {
        push_digits(i as u64, out);
    }
}

fn hex_digit_char(d: u8) -> (r: char)
    requires
        d < 16,
    ensures
        r == hex_digit(d as nat),
{
    if d < 10 {
        (d + 48) as char
    } else {
        (d + 87) as char
    }
}

fn push_escaped_char(c: char, out: &mut Vec<char>)
    ensures
        final(out)@ == old(out)@ + escaped_char(c),
{
    if c == '"' {
        out.push('\\');
        out.push('"');
    } else if c == '\\' {
        out.push('\\');
        out.push('\\');
    } else if c == '\n' {
        out.push('\\');
        out.push('n');
    } else if c == '\r' {
        out.push('\\');
        out.push('r');
    } else if c == '\t' {
        out.push('\\');
        out.push('t');
    } else if (c as u32) < 32 {
        out.push('\\');
        out.push('u');
        out.push('0');
        out.push('0');
        out.push(hex_digit_char(((c as u32) / 16) as u8));
        out.push(hex_digit_char(((c as u32) % 16) as u8));
    } else {
        out.push(c);
    }
    assert(out@ =~= old(out)@ + escaped_char(c));
}

proof fn lemma_escaped_snoc(s: Seq<char>, c: char)
    ensures
        escaped(s.push(c)) == escaped(s) + escaped_char(c),
    decreases s.len(),
{
    if s.len() == 0 {
        assert(s.push(c)[0] == c);
        assert(s.push(c).drop_first() =~= Seq::<char>::empty());
        assert(escaped(Seq::<char>::empty()) == Seq::<char>::empty());
        assert(escaped(s.push(c)) =~= escaped(s) + escaped_char(c));
    } else {
        assert(s.push(c).drop_first() =~= s.drop_first().push(c));
        lemma_escaped_snoc(s.drop_first(), c);
        assert(escaped(s.push(c)) =~= escaped(s) + escaped_char(c));
    }
}

pub(crate) fn push_quoted(s: &str, out: &mut Vec<char>)
    ensures
        final(out)@ == old(out)@ + quoted(s@),
{
    out.push('"');
    let n = s.unicode_len();
    let mut i: usize = 0;
    while i < n
        invariant
            n == s@.len(),
            i <= n,
            out@ == old(out)@ + seq!['"'] + escaped(s@.subrange(0, i as int)),
        decreases n - i,
    {
        let c = s.get_char(i);
        proof {
            assert(s@.subrange(0, i as int + 1) =~= s@.subrange(0, i as int).push(s@[i as int]));
            lemma_escaped_snoc(s@.subrange(0, i as int), s@[i as int]);
        }
        push_escaped_char(c, out);
        assert(out@ =~= old(out)@ + seq!['"'] + escaped(s@.subrange(0, i as int + 1)));
        i = i + 1;
    }
    assert(s@.subrange(0, n as int) =~= s@);
    out.push('"');
    assert(out@ =~= old(out)@ + quoted(s@));
}

pub(crate) fn push_json(v: &JsonValue, out: &mut Vec<char>)
    ensures
        final(out)@ == old(out)@ + json_chars(*v),
    decreases *v, 0nat,
{
    match v {
        JsonValue::Null => {
            out.push('n');
            out.push('u');
            out.push('l');
            out.push('l');
            assert(out@ =~= old(out)@ + json_chars(*v));
        },
        JsonValue::Bool(b) => {
            if *b {
                out.push('t');
                out.push('r');
                out.push('u');
                out.push('e');
            } else {
                out.push('f');
                out.push('a');
                out.push('l');
                out.push('s');
                out.push('e');
            }
            assert(out@ =~= old(out)@ + json_chars(*v));
        },
        JsonValue::Int(i) => {
            push_int(*i, out);
        },
        JsonValue::Text(s) => {
            push_quoted(s.as_str(), out);
        },
        JsonValue::Array(a) => {
            out.push('[');
            push_items(a, 0, out);
            out.push(']');
            assert(out@ =~= old(out)@ + json_chars(*v));
        },
        JsonValue::Object(m) => {
            out.push('{');
            push_members(m, 0, out);
            out.push('}');
            assert(out@ =~= old(out)@ + json_chars(*v));
        },
    }
}

fn push_items(a: &Vec<JsonValue>, i: usize, out: &mut Vec<char>)
    requires
        i <= a@.len(),
    ensures
        final(out)@ == old(out)@ + items_chars(a@, i as int),
    decreases a@, a@.len() - i,
{
    if i < a.len() {
        push_json(&a[i], out);
        if i + 1 < a.len() {
            out.push(',');
            push_items(a, i + 1, out);
            assert(out@ =~= old(out)@ + items_chars(a@, i as int));
        } else {
            assert(out@ =~= old(out)@ + items_chars(a@, i as int));
        }
    } else {
        assert(out@ =~= old(out)@ + items_chars(a@, i as int));
    }
}

fn push_members(m: &Vec<(String, JsonValue)>, i: usize, out: &mut Vec<char>)
    requires
        i <= m@.len(),
    ensures
        final(out)@ == old(out)@ + members_chars(m@, i as int),
    decreases m@, m@.len() - i,
{
    if i < m.len() {
        push_quoted(m[i].0.as_str(), out);
        out.push(':');
        push_json(&m[i].1, out);
        if i + 1 < m.len() {
            out.push(',');
            push_members(m, i + 1, out);
            assert(out@ =~= old(out)@ + members_chars(m@, i as int));
        } else {
            assert(out@ =~= old(out)@ + members_chars(m@, i as int));
        }
    } else {
        assert(out@ =~= old(out)@ + members_chars(m@, i as int));
    }
}

/// Relies on `String::from_iter` of std: collecting characters yields the
/// string holding exactly those characters in order.
#[verifier::external_body]
pub(crate) fn chars_to_string(chars: Vec<char>) -> (r: String)
    ensures
        r@ == chars@,
{
    chars.into_iter().collect()
}

impl JsonValue {
    /// The serialized form of this value, exactly `json_chars` of it.
    pub fn to_json_string(&self) -> (r: String)
        ensures
            r@ == json_chars(*self),
    {
        let mut out: Vec<char> = Vec::new();
        push_json(self, &mut out);
        proof {
            assert(out@ =~= Seq::<char>::empty() + json_chars(*self));
        }
        chars_to_string(out)
    }

    /// The value under `key` when this is an object holding that key.
    pub fn get<'a>(&'a self, key: &str) -> (r: Option<&'a JsonValue>)
        ensures
            match *self {
                JsonValue::Object(m) => match r {
                    Some(v) => lookup_spec(m@, key@) == Some(*v),
                    None => lookup_spec(m@, key@) is None,
                },
                _ => r is None,
            },
    {
        match self {
            JsonValue::Object(m) => {
                assert(*self == JsonValue::Object(*m));
                let wanted = String::from_str(key);
                proof {
                    assert(m@.subrange(0, m@.len() as int) =~= m@);
                }
                let mut i: usize = 0;
                while i < m.len()
                    invariant
                        *self == JsonValue::Object(*m),
                        i <= m@.len(),
                        wanted@ == key@,
                        forall|j: int| 0 <= j < i ==> m@[j].0@ != key@,
                        lookup_spec(m@, key@) == lookup_spec(m@.subrange(i as int, m@.len() as int), key@),
                    decreases m@.len() - i,
                {
                    proof {
                        let rest = m@.subrange(i as int, m@.len() as int);
                        assert(rest[0] == m@[i as int]);
                        assert(rest.drop_first() =~= m@.subrange(i as int + 1, m@.len() as int));
                    }
                    if m[i].0 == wanted {
                        proof {
                            let rest = m@.subrange(i as int, m@.len() as int);
                            assert(rest[0].0@ == key@);
                            assert(lookup_spec(rest, key@) == Some(rest[0].1));
                            assert(rest[0] == m@[i as int]);
                            assert(lookup_spec(m@, key@) == Some(m@[i as int].1));
                        }
                        let found: &JsonValue = &m[i].1;
                        assert(*found == m@[i as int].1);
                        return Some(found);
                    }
                    i = i + 1;
                }
                proof {
                    assert(m@.subrange(m@.len() as int, m@.len() as int) =~= Seq::<(String, JsonValue)>::empty());
                }
                None
            },
            _ => None,
        }
    }
}

} // verus!
