//! Emission of JSON text, the syntax the provider's wire format is
//! written in.
//!
//! The functions here build JSON fragments as character vectors, each
//! proved to emit exactly the text that the corresponding spec function
//! describes.
use vstd::prelude::*;

verus! {

/// The hexadecimal digit for `n`.
pub open spec fn hex_digit(n: int) -> char {
    seq!['0', '1', '2', '3', '4', '5', '6', '7', '8', '9', 'a', 'b', 'c', 'd', 'e', 'f'][n]
}

/// How one character is written inside a JSON string literal: quotes
/// and backslashes get a backslash escape, control characters a
/// `\u00XX` escape, every other character stands for itself.
pub open spec fn escape_char(c: char) -> Seq<char> {
    if c == '"' {
        seq!['\\', '"']
    } else if c == '\\' {
        seq!['\\', '\\']
    } else if (c as u32) < 32 {
        seq!['\\', 'u', '0', '0', hex_digit((c as int) / 16), hex_digit((c as int) % 16)]
    } else {
        seq![c]
    }
}

/// The body of a JSON string literal holding the text `s`.
pub open spec fn escaped(s: Seq<char>) -> Seq<char>
    decreases s.len(),
{
    if s.len() == 0 {
        Seq::empty()
    } else {
        escape_char(s[0]) + escaped(s.drop_first())
    }
}

/// The JSON string literal holding the text `s`.
pub open spec fn quoted(s: Seq<char>) -> Seq<char> {
    seq!['"'] + escaped(s) + seq!['"']
}

/// An object member: a quoted key, a colon, and the value's JSON text.
pub open spec fn member(key: Seq<char>, val: Seq<char>) -> Seq<char> {
    quoted(key) + seq![':'] + val
}

/// The items joined into one text with a comma between neighbours.
pub open spec fn comma_joined(items: Seq<Seq<char>>) -> Seq<char>
    decreases items.len(),
{
    if items.len() == 0 {
        Seq::empty()
    } else if items.len() == 1 {
        items[0]
    } else {
        items[0] + seq![','] + comma_joined(items.drop_first())
    }
}

/// Escaping distributes over appending one character at the end.
pub proof fn lemma_escaped_push(s: Seq<char>, c: char)
    ensures
        escaped(s.push(c)) == escaped(s) + escape_char(c),
    decreases s.len(),
{
    if s.len() == 0 {
        assert(s.push(c)[0] == c);
        assert(s.push(c).drop_first() =~= Seq::<char>::empty());
        assert(escaped(Seq::<char>::empty()) =~= Seq::<char>::empty());
        assert(escaped(s.push(c)) =~= escaped(s) + escape_char(c));
    } else {
        assert(s.push(c).drop_first() =~= s.drop_first().push(c));
        lemma_escaped_push(s.drop_first(), c);
        assert(escaped(s.push(c)) =~= escaped(s) + escape_char(c));
    }
}

/// Joining distributes over appending one item at the end.
pub proof fn lemma_comma_joined_push(items: Seq<Seq<char>>, x: Seq<char>)
    ensures
        items.len() == 0 ==> comma_joined(items.push(x)) == x,
        items.len() > 0 ==> comma_joined(items.push(x)) == comma_joined(items) + seq![','] + x,
    decreases items.len(),
{
    if items.len() == 0 {
        assert(items.push(x)[0] == x);
    } else if items.len() == 1 {
        assert(items.push(x)[0] == items[0]);
        assert(items.push(x).drop_first() =~= seq![x]);
        assert(comma_joined(seq![x]) == x);
        assert(comma_joined(items.push(x)) =~= comma_joined(items) + seq![','] + x);
    } else {
        assert(items.push(x).drop_first() =~= items.drop_first().push(x));
        lemma_comma_joined_push(items.drop_first(), x);
        assert(comma_joined(items.push(x)) =~= comma_joined(items) + seq![','] + x);
    }
}

/// The hexadecimal digit for `n`, as executable code.
fn hex_char(n: u8) -> (c: char)
    requires
        n < 16,
    ensures
        c == hex_digit(n as int),
{
    match n {
        0 => '0',
        1 => '1',
        2 => '2',
        3 => '3',
        4 => '4',
        5 => '5',
        6 => '6',
        7 => '7',
        8 => '8',
        9 => '9',
        10 => 'a',
        11 => 'b',
        12 => 'c',
        13 => 'd',
        14 => 'e',
        _ => 'f',
    }
}

/// Appends the escape of one character.
fn push_escaped_char(out: &mut Vec<char>, c: char)
    ensures
        final(out)@ == old(out)@ + escape_char(c),
{
    if c == '"' {
        out.push('\\');
        out.push('"');
    } else if c == '\\' {
        out.push('\\');
        out.push('\\');
    } else if (c as u32) < 32 {
        let n = c as u32;
        out.push('\\');
        out.push('u');
        out.push('0');
        out.push('0');
        out.push(hex_char((n / 16) as u8));
        out.push(hex_char((n % 16) as u8));
    } else {
        out.push(c);
    }
    proof {
        assert(out@ =~= old(out)@ + escape_char(c));
    }
}

/// Appends one punctuation character, stated as concatenation so that
/// callers can chain fragments.
pub fn push_ch(out: &mut Vec<char>, c: char)
    ensures
        final(out)@ == old(out)@ + seq![c],
{
    out.push(c);
    proof {
        assert(out@ =~= old(out)@ + seq![c]);
    }
}

/// Appends the body of the JSON string literal holding `s`.
pub fn append_escaped(out: &mut Vec<char>, s: &str)
    ensures
        final(out)@ == old(out)@ + escaped(s@),
{
    let n = s.unicode_len();
    let mut i: usize = 0;
    while i < n
        invariant
            0 <= i <= n,
            n == s@.len(),
            out@ == old(out)@ + escaped(s@.take(i as int)),
        decreases n - i,
    {
        let c = s.get_char(i);
        push_escaped_char(out, c);
        proof {
            assert(s@.take(i as int).push(s@[i as int]) =~= s@.take(i as int + 1));
            lemma_escaped_push(s@.take(i as int), s@[i as int]);
        }
        i += 1;
    }
    proof {
        assert(s@.take(n as int) =~= s@);
    }
}

/// Appends the JSON string literal holding `s`.
pub fn append_quoted(out: &mut Vec<char>, s: &str)
    ensures
        final(out)@ == old(out)@ + quoted(s@),
{
    out.push('"');
    append_escaped(out, s);
    out.push('"');
    proof {
        assert(out@ =~= old(out)@ + quoted(s@));
    }
}

/// Appends an object member whose value is the string `val`.
pub fn append_member_str(out: &mut Vec<char>, key: &str, val: &str)
    ensures
        final(out)@ == old(out)@ + member(key@, quoted(val@)),
{
    append_quoted(out, key);
    out.push(':');
    append_quoted(out, val);
    proof {
        assert(out@ =~= old(out)@ + member(key@, quoted(val@)));
    }
}

/// Joins the items into one string with a comma between neighbours.
pub fn join_comma(items: &Vec<String>) -> (r: String)
    ensures
        r@ == comma_joined(items.deep_view()),
{
    let mut r = String::new();
    let mut i: usize = 0;
    while i < items.len()
        invariant
            0 <= i <= items@.len(),
            r@ == comma_joined(items.deep_view().take(i as int)),
        decreases items@.len() - i,
    {
        if i > 0 {
            r.append(",");
        }
        r.append(items[i].as_str());
        proof {
            reveal_strlit(",");
            assert(","@ =~= seq![',']);
            assert(items.deep_view().take(i as int).push(items.deep_view()[i as int])
                =~= items.deep_view().take(i as int + 1));
            lemma_comma_joined_push(items.deep_view().take(i as int), items.deep_view()[i as int]);
        }
        i += 1;
    }
    proof {
        assert(items.deep_view().take(items@.len() as int) =~= items.deep_view());
    }
    r
}

/// Relies on String's FromIterator impl over char: collecting an
/// iterator of characters yields a string holding exactly those
/// characters.
#[verifier::external_body]
pub fn chars_to_string(chars: &Vec<char>) -> (r: String)
    ensures
        r@ == chars@,
{
    chars.iter().collect()
}

/// Whether the bytes parse as one JSON document.
pub uninterp spec fn json_parses(bytes: Seq<u8>) -> bool;

/// The string member under `key` when the bytes parse as a JSON object
/// holding one, read as serde_json reads it.
pub uninterp spec fn receipt_str_field(bytes: Seq<u8>, key: Seq<char>) -> Option<Seq<char>>;

/// The unsigned-number member under `key` when the bytes parse as a
/// JSON object holding one, read as serde_json reads it.
pub uninterp spec fn receipt_u64_field(bytes: Seq<u8>, key: Seq<char>) -> Option<u64>;

/// Relies on serde_json::from_slice at type Value: it parses the bytes
/// as a JSON document, and whether it succeeds depends on the bytes
/// alone.  A failure is handed back as the parse error's display text.
#[verifier::external_body]
pub(crate) fn parse_json(bytes: &[u8]) -> (r: Result<(), String>)
    ensures
        r is Ok <==> json_parses(bytes@),
{
    serde_json::from_slice::<serde_json::Value>(bytes).map(|_| ()).map_err(|e| e.to_string())
}

/// Relies on serde_json::from_slice, Value::get and Value::as_str: the
/// member found under the key depends on the bytes and the key alone,
/// and bytes that do not parse hold no member.
#[verifier::external_body]
pub(crate) fn read_str_field(bytes: &[u8], key: &str) -> (r: Option<String>)
    ensures
        r is Some <==> receipt_str_field(bytes@, key@) is Some,
        r matches Some(s) ==> Some(s@) == receipt_str_field(bytes@, key@),
        !json_parses(bytes@) ==> r is None,
{
    serde_json::from_slice::<serde_json::Value>(bytes)
        .ok()
        .and_then(|v| v.get(key).and_then(|f| f.as_str()).map(str::to_owned))
}

/// Relies on serde_json::from_slice, Value::get and Value::as_u64: the
/// member found under the key depends on the bytes and the key alone,
/// and bytes that do not parse hold no member.
#[verifier::external_body]
pub(crate) fn read_u64_field(bytes: &[u8], key: &str) -> (r: Option<u64>)
    ensures
        r == receipt_u64_field(bytes@, key@),
        !json_parses(bytes@) ==> r is None,
{
    serde_json::from_slice::<serde_json::Value>(bytes)
        .ok()
        .and_then(|v| v.get(key).and_then(|f| f.as_u64()))
}

} // verus!
