//! The JSON wire form of archive items and response envelopes.
//!
//! The wire grammar is fixed and small: an item is an object with the fields
//! `category`, `itemUrl` and `title` in that order, a list of items is a JSON
//! array, and the envelopes carry their fields in declaration order. String
//! content is escaped as JSON asks: quote, backslash, and control characters.

use vstd::prelude::*;

use crate::category::label;
use crate::item::{ArchiveItem, ArchiveItemView};
use crate::responses::{FailureResponse, SuccessResponse};

verus! {

/// Relies on str::chars: yields exactly the characters of the string, in order.
#[verifier::external_body]
fn chars_of(s: &str) -> (r: Vec<char>)
    ensures
        r@ == s@,
{
    s.chars().collect()
}

/// Relies on String::from_iter over characters: builds the string holding
/// exactly these characters, in order.
#[verifier::external_body]
fn string_of(v: Vec<char>) -> (r: String)
    ensures
        r@ == v@,
{
    String::from_iter(v)
}

/// The lower-case hexadecimal digit of a value below sixteen.
pub open spec fn hex_digit(n: int) -> char {
    if n == 0 {
        '0'
    } else if n == 1 {
        '1'
    } else if n == 2 {
        '2'
    } else if n == 3 {
        '3'
    } else if n == 4 {
        '4'
    } else if n == 5 {
        '5'
    } else if n == 6 {
        '6'
    } else if n == 7 {
        '7'
    } else if n == 8 {
        '8'
    } else if n == 9 {
        '9'
    } else if n == 10 {
        'a'
    } else if n == 11 {
        'b'
    } else if n == 12 {
        'c'
    } else if n == 13 {
        'd'
    } else if n == 14 {
        'e'
    } else {
        'f'
    }
}

fn hex_char(n: u32) -> (r: char)
    requires
        n < 16,
    ensures
        r == hex_digit(n as int),
{
    if n == 0 {
        '0'
    } else if n == 1 {
        '1'
    } else if n == 2 {
        '2'
    } else if n == 3 {
        '3'
    } else if n == 4 {
        '4'
    } else if n == 5 {
        '5'
    } else if n == 6 {
        '6'
    } else if n == 7 {
        '7'
    } else if n == 8 {
        '8'
    } else if n == 9 {
        '9'
    } else if n == 10 {
        'a'
    } else if n == 11 {
        'b'
    } else if n == 12 {
        'c'
    } else if n == 13 {
        'd'
    } else if n == 14 {
        'e'
    } else {
        'f'
    }
}

/// How one character appears inside a JSON string literal.
pub open spec fn escape_char(c: char) -> Seq<char> {
    if c == '"' {
        seq!['\\', '"']
    } else if c == '\\' {
        seq!['\\', '\\']
    } else if c == '\u{8}' {
        seq!['\\', 'b']
    } else if c == '\t' {
        seq!['\\', 't']
    } else if c == '\n' {
        seq!['\\', 'n']
    } else if c == '\u{c}' {
        seq!['\\', 'f']
    } else if c == '\r' {
        seq!['\\', 'r']
    } else if (c as u32) < 0x20 {
        seq!['\\', 'u', '0', '0', hex_digit(c as u32 as int / 16), hex_digit(c as u32 as int % 16)]
    } else {
        seq![c]
    }
}

/// How a whole string's characters appear inside a JSON string literal.
pub open spec fn escape_string(s: Seq<char>) -> Seq<char>
    decreases s.len(),
{
    if s.len() == 0 {
        Seq::<char>::empty()
    } else {
        escape_string(s.drop_last()) + escape_char(s.last())
    }
}

/// A JSON string literal: the escaped content between double quotes.
pub open spec fn quoted(s: Seq<char>) -> Seq<char> {
    seq!['"'] + escape_string(s) + seq!['"']
}

/// The JSON object form of one archive item.
pub open spec fn item_json(v: ArchiveItemView) -> Seq<char> {
    "{\"category\":\""@ + label(v.category) + "\",\"itemUrl\":"@ + quoted(v.url) + ",\"title\":"@
        + quoted(v.title) + seq!['}']
}

/// The comma-separated bodies of a list of items.
pub open spec fn items_body(s: Seq<ArchiveItem>) -> Seq<char>
    decreases s.len(),
{
    if s.len() == 0 {
        Seq::<char>::empty()
    } else if s.len() == 1 {
        item_json(s.last()@)
    } else {
        items_body(s.drop_last()) + seq![','] + item_json(s.last()@)
    }
}

/// The JSON array form of a list of archive items.
pub open spec fn items_json(s: Seq<ArchiveItem>) -> Seq<char> {
    seq!['['] + items_body(s) + seq![']']
}

/// The JSON object form of a success envelope.
pub open spec fn success_json(req_id: Seq<char>, body: Seq<char>) -> Seq<char> {
    "{\"req_id\":"@ + quoted(req_id) + ",\"body\":"@ + quoted(body) + seq!['}']
}

/// The JSON object form of a failure envelope.
pub open spec fn failure_json(body: Seq<char>) -> Seq<char> {
    "{\"body\":"@ + quoted(body) + seq!['}']
}

proof fn lemma_escape_take_succ(s: Seq<char>, i: int)
    requires
        0 <= i < s.len(),
    ensures
        escape_string(s.take(i + 1)) == escape_string(s.take(i)) + escape_char(s[i]),
{
    let t = s.take(i + 1);
    assert(t.drop_last() =~= s.take(i));
    assert(t.last() == s[i]);
}

fn push_escaped_char(out: &mut Vec<char>, c: char)
    ensures
        final(out)@ == old(out)@ + escape_char(c),
{
    if c == '"' {
        out.push('\\');
        out.push('"');
        assert(out@ =~= old(out)@ + escape_char(c));
    } else if c == '\\' {
        out.push('\\');
        out.push('\\');
        assert(out@ =~= old(out)@ + escape_char(c));
    } else if c == '\u{8}' {
        out.push('\\');
        out.push('b');
        assert(out@ =~= old(out)@ + escape_char(c));
    } else if c == '\t' {
        out.push('\\');
        out.push('t');
        assert(out@ =~= old(out)@ + escape_char(c));
    } else if c == '\n' {
        out.push('\\');
        out.push('n');
        assert(out@ =~= old(out)@ + escape_char(c));
    } else if c == '\u{c}' {
        out.push('\\');
        out.push('f');
        assert(out@ =~= old(out)@ + escape_char(c));
    } else if c == '\r' {
        out.push('\\');
        out.push('r');
        assert(out@ =~= old(out)@ + escape_char(c));
    } else if (c as u32) < 0x20 {
        out.push('\\');
        out.push('u');
        out.push('0');
        out.push('0');
        out.push(hex_char((c as u32) / 16));
        out.push(hex_char((c as u32) % 16));
        assert(out@ =~= old(out)@ + escape_char(c));
    } else {
        out.push(c);
        assert(out@ =~= old(out)@ + escape_char(c));
    }
}

/// Appends the escaped content of `s` to `out`.
fn push_escaped(out: &mut Vec<char>, s: &Vec<char>)
    ensures
        final(out)@ == old(out)@ + escape_string(s@),
{
    let ghost out0 = out@;
    let n = s.len();
    let mut i: usize = 0;
    while i < n
        invariant
            i <= n,
            n == s@.len(),
            out@ == out0 + escape_string(s@.take(i as int)),
        decreases n - i,
    {
        push_escaped_char(out, s[i]);
        proof {
            lemma_escape_take_succ(s@, i as int);
        }
        i = i + 1;
    }
    proof {
        assert(s@.take(n as int) =~= s@);
    }
}

/// Appends the JSON string literal for `s` to `out`.
fn push_quoted(out: &mut Vec<char>, s: &String)
    ensures
        final(out)@ == old(out)@ + quoted(s@),
{
    let content = chars_of(s.as_str());
    out.push('"');
    push_escaped(out, &content);
    out.push('"');
    assert(out@ =~= old(out)@ + quoted(s@));
}

fn encode_item_chars(item: &ArchiveItem) -> (r: Vec<char>)
    ensures
        r@ == item_json(item@),
{
    let mut out: Vec<char> = Vec::new();
    let mut head = chars_of("{\"category\":\"");
    out.append(&mut head);
    let lbl = item.category.wire_label();
    let mut lbl_chars = chars_of(lbl.as_str());
    out.append(&mut lbl_chars);
    let mut mid = chars_of("\",\"itemUrl\":");
    out.append(&mut mid);
    push_quoted(&mut out, &item.url);
    let mut tail = chars_of(",\"title\":");
    out.append(&mut tail);
    push_quoted(&mut out, &item.title);
    out.push('}');
    assert(out@ =~= item_json(item@));
    out
}

/// Encodes one archive item as its JSON object text.
pub fn encode_item(item: &ArchiveItem) -> (r: String)
    ensures
        r@ == item_json(item@),
{
    string_of(encode_item_chars(item))
}

proof fn lemma_items_body_take_succ(s: Seq<ArchiveItem>, i: int)
    requires
        0 < i < s.len(),
    ensures
        items_body(s.take(i + 1)) == items_body(s.take(i)) + seq![','] + item_json(s[i]@),
{
    let t = s.take(i + 1);
    assert(t.drop_last() =~= s.take(i));
    assert(t.last() == s[i]);
}

/// Encodes a list of archive items as a JSON array text. The result is always
/// an array — at least `[` and `]` — never empty and never the text `null`.
pub fn encode_items(items: &Vec<ArchiveItem>) -> (r: String)
    ensures
        r@ == items_json(items@),
        r@.len() >= 2,
        r@[0] == '[',
        r@.last() == ']',
{
    let mut out: Vec<char> = Vec::new();
    out.push('[');
    let n = items.len();
    let mut i: usize = 0;
    while i < n
        invariant
            i <= n,
            n == items@.len(),
            out@ == seq!['['] + items_body(items@.take(i as int)),
        decreases n - i,
    {
        if i > 0 {
            out.push(',');
        }
        let mut piece = encode_item_chars(&items[i]);
        out.append(&mut piece);
        proof {
            if i == 0 {
                assert(items@.take(1int).drop_last() =~= Seq::<ArchiveItem>::empty());
                assert(items@.take(1int).last() == items@[0]);
                assert(out@ =~= seq!['['] + items_body(items@.take(1int)));
            } else {
                lemma_items_body_take_succ(items@, i as int);
                assert(out@ =~= seq!['['] + items_body(items@.take(i + 1int)));
            }
        }
        i = i + 1;
    }
    out.push(']');
    proof {
        assert(items@.take(n as int) =~= items@);
        assert(out@ =~= items_json(items@));
    }
    string_of(out)
}

/// Encodes a success envelope as its JSON object text.
pub fn encode_success(resp: &SuccessResponse) -> (r: String)
    ensures
        r@ == success_json(resp.req_id@, resp.body@),
{
    let mut out: Vec<char> = Vec::new();
    let mut head = chars_of("{\"req_id\":");
    out.append(&mut head);
    push_quoted(&mut out, &resp.req_id);
    let mut mid = chars_of(",\"body\":");
    out.append(&mut mid);
    push_quoted(&mut out, &resp.body);
    out.push('}');
    assert(out@ =~= success_json(resp.req_id@, resp.body@));
    string_of(out)
}

/// Encodes a failure envelope as its JSON object text.
pub fn encode_failure(resp: &FailureResponse) -> (r: String)
    ensures
        r@ == failure_json(resp.body@),
{
    let mut out: Vec<char> = Vec::new();
    let mut head = chars_of("{\"body\":");
    out.append(&mut head);
    push_quoted(&mut out, &resp.body);
    out.push('}');
    assert(out@ =~= failure_json(resp.body@));
    string_of(out)
}

} // verus!
