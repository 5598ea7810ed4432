//! Assembly of JSON object text from already-encoded pieces.
//!
//! Keys and string values are escaped here; other values arrive as raw
//! JSON text and are inserted verbatim.

use vstd::prelude::*;
use vstd::string::StrSliceExecFns;
use vstd::string::StringExecFns;

verus! {

/// Relies on `str`'s `PartialEq`: string slices compare equal exactly when
/// their character sequences are equal.
#[verifier::external_body]
pub(crate) fn str_eq(a: &str, b: &str) -> (r: bool)
    ensures
        r == (a@ == b@),
{
    a == b
}

/// Relies on `String::push`: appends one character at the end.
#[verifier::external_body]
pub(crate) fn string_push(s: &mut String, c: char)
    ensures
        final(s)@ == old(s)@.push(c),
{
    s.push(c)
}

/// The lower-case hexadecimal digit for a value below 16.
pub open spec fn hex_digit(d: int) -> char {
    if d == 0 {
        '0'
    } else if d == 1 {
        '1'
    } else if d == 2 {
        '2'
    } else if d == 3 {
        '3'
    } else if d == 4 {
        '4'
    } else if d == 5 {
        '5'
    } else if d == 6 {
        '6'
    } else if d == 7 {
        '7'
    } else if d == 8 {
        '8'
    } else if d == 9 {
        '9'
    } else if d == 10 {
        'a'
    } else if d == 11 {
        'b'
    } else if d == 12 {
        'c'
    } else if d == 13 {
        'd'
    } else if d == 14 {
        'e'
    } else {
        'f'
    }
}

fn hex_digit_exec(d: u8) -> (r: char)
    requires
        d < 16,
    ensures
        r == hex_digit(d as int),
{
    match d {
        0 => '0',
        1 => '1',
        2 => '2',
        3 => '3',
        4 => '4',
        5 => '5',
        6 => '6',
        7 => '7',
        8 => '8',
        9 => '9',
        10 => 'a',
        11 => 'b',
        12 => 'c',
        13 => 'd',
        14 => 'e',
        _ => 'f',
    }
}

/// How one character is written inside a JSON string literal.
pub open spec fn escape_char(c: char) -> Seq<char> {
    if c == '"' {
        seq!['\\', '"']
    } else if c == '\\' {
        seq!['\\', '\\']
    } else if c == '\n' {
        seq!['\\', 'n']
    } else if c == '\r' {
        seq!['\\', 'r']
    } else if c == '\t' {
        seq!['\\', 't']
    } else if (c as u32) < 32 {
        seq!['\\', 'u', '0', '0', hex_digit((c as u32 / 16) as int), hex_digit(
            (c as u32 % 16) as int,
        )]
    } else {
        seq![c]
    }
}

/// The body of a JSON string literal for `s`: each character escaped.
pub open spec fn escape_string(s: Seq<char>) -> Seq<char>
    decreases s.len(),
{
    if s.len() == 0 {
        Seq::empty()
    } else {
        escape_char(s[0]) + escape_string(s.drop_first())
    }
}

/// A complete JSON string literal for `s`, quotes included.
pub open spec fn quoted(s: Seq<char>) -> Seq<char> {
    seq!['"'] + escape_string(s) + seq!['"']
}

proof fn lemma_escape_push(s: Seq<char>, c: char)
    ensures
        escape_string(s.push(c)) == escape_string(s) + escape_char(c),
    decreases s.len(),
{
    if s.len() == 0 {
        assert(s.push(c)[0] == c);
        assert(s.push(c).drop_first() =~= Seq::<char>::empty());
        assert(escape_string(s.push(c)) =~= escape_char(c) + escape_string(
            Seq::<char>::empty(),
        ));
        assert(escape_string(s.push(c)) =~= escape_char(c));
        assert(escape_string(s) + escape_char(c) =~= escape_char(c));
    } else {
        assert(s.push(c)[0] == s[0]);
        assert(s.push(c).drop_first() =~= s.drop_first().push(c));
        lemma_escape_push(s.drop_first(), c);
        assert(escape_string(s.push(c)) =~= escape_string(s) + escape_char(c));
    }
}

fn push_escaped_char(out: &mut String, c: char)
    ensures
        final(out)@ == old(out)@ + escape_char(c),
{
    if c == '"' {
        proof {
            reveal_strlit("\\\"");
        }
        out.append("\\\"");
        assert(final(out)@ =~= old(out)@ + escape_char(c));
    } else if c == '\\' {
        proof {
            reveal_strlit("\\\\");
        }
        out.append("\\\\");
        assert(final(out)@ =~= old(out)@ + escape_char(c));
    } else if c == '\n' {
        proof {
            reveal_strlit("\\n");
        }
        out.append("\\n");
        assert(final(out)@ =~= old(out)@ + escape_char(c));
    } else if c == '\r' {
        proof {
            reveal_strlit("\\r");
        }
        out.append("\\r");
        assert(final(out)@ =~= old(out)@ + escape_char(c));
    } else if c == '\t' {
        proof {
            reveal_strlit("\\t");
        }
        out.append("\\t");
        assert(final(out)@ =~= old(out)@ + escape_char(c));
    } else if (c as u32) < 32 {
        proof {
            reveal_strlit("\\u00");
        }
        out.append("\\u00");
        let code: u32 = c as u32;
        string_push(out, hex_digit_exec((code / 16) as u8));
        string_push(out, hex_digit_exec((code % 16) as u8));
        assert(final(out)@ =~= old(out)@ + escape_char(c));
    } else {
        string_push(out, c);
        assert(final(out)@ =~= old(out)@ + escape_char(c));
    }
}

/// Append the escaped form of `s` to `out`.
pub fn append_escaped(out: &mut String, s: &str)
    ensures
        final(out)@ == old(out)@ + escape_string(s@),
{
    let n = s.unicode_len();
    let mut i: usize = 0;
    while i < n
        invariant
            i <= n,
            n == s@.len(),
            out@ == old(out)@ + escape_string(s@.take(i as int)),
        decreases n - i,
    {
        let c = s.get_char(i);
        push_escaped_char(out, c);
        proof {
            lemma_escape_push(s@.take(i as int), s@[i as int]);
            assert(s@.take(i as int).push(s@[i as int]) =~= s@.take(i as int + 1));
        }
        i += 1;
    }
    proof {
        assert(s@.take(n as int) =~= s@);
        assert(escape_string(s@.take(0int)) =~= Seq::<char>::empty());
    }
}

/// Append a complete JSON string literal for `s` to `out`.
pub fn append_quoted(out: &mut String, s: &str)
    ensures
        final(out)@ == old(out)@ + quoted(s@),
{
    proof {
        reveal_strlit("\"");
    }
    out.append("\"");
    append_escaped(out, s);
    out.append("\"");
    assert(final(out)@ =~= old(out)@ + quoted(s@));
}

/// The JSON string literal for `s` on its own.
pub fn quote_string(s: &str) -> (r: String)
    ensures
        r@ == quoted(s@),
{
    let mut out = String::new();
    append_quoted(&mut out, s);
    proof {
        assert(out@ =~= quoted(s@));
    }
    out
}

/// The decimal digit character for a value below 10.
pub open spec fn dec_digit(d: int) -> char {
    hex_digit(d)
}

/// The decimal writing of a non-negative number, without sign or padding.
pub open spec fn dec_str(n: int) -> Seq<char>
    decreases n,
{
    if n < 10 {
        seq![dec_digit(n)]
    } else {
        dec_str(n / 10).push(dec_digit(n % 10))
    }
}

/// The decimal writing of `n`.
pub fn u32_to_dec(n: u32) -> (r: String)
    ensures
        r@ == dec_str(n as int),
    decreases n,
{
    if n < 10 {
        let mut out = String::new();
        string_push(&mut out, hex_digit_exec(n as u8));
        proof {
            assert(out@ =~= dec_str(n as int));
        }
        out
    } else {
        let mut out = u32_to_dec(n / 10);
        string_push(&mut out, hex_digit_exec((n % 10) as u8));
        out
    }
}

/// One `"key":value` entry, the key escaped and the value raw JSON.
pub open spec fn entry_text(key: Seq<char>, raw: Seq<char>) -> Seq<char> {
    quoted(key) + seq![':'] + raw
}

/// The comma-separated entries of an object, in order.
pub open spec fn entries_text(pairs: Seq<(Seq<char>, Seq<char>)>) -> Seq<char>
    decreases pairs.len(),
{
    if pairs.len() == 0 {
        Seq::empty()
    } else if pairs.len() == 1 {
        entry_text(pairs[0].0, pairs[0].1)
    } else {
        entry_text(pairs[0].0, pairs[0].1) + seq![','] + entries_text(pairs.drop_first())
    }
}

/// The complete object text `{...}` for the given entries.
pub open spec fn object_text(pairs: Seq<(Seq<char>, Seq<char>)>) -> Seq<char> {
    seq!['{'] + entries_text(pairs) + seq!['}']
}

proof fn lemma_entries_push(pairs: Seq<(Seq<char>, Seq<char>)>, e: (Seq<char>, Seq<char>))
    ensures
        pairs.len() == 0 ==> entries_text(pairs.push(e)) == entry_text(e.0, e.1),
        pairs.len() > 0 ==> entries_text(pairs.push(e)) == entries_text(pairs) + seq![',']
            + entry_text(e.0, e.1),
    decreases pairs.len(),
{
    if pairs.len() == 0 {
        assert(entries_text(pairs.push(e)) =~= entry_text(e.0, e.1));
    } else {
        assert(pairs.push(e).drop_first() =~= pairs.drop_first().push(e));
        lemma_entries_push(pairs.drop_first(), e);
        if pairs.len() == 1 {
            assert(entries_text(pairs.push(e)) =~= entries_text(pairs) + seq![','] + entry_text(
                e.0,
                e.1,
            ));
        } else {
            assert(entries_text(pairs.push(e)) =~= entries_text(pairs) + seq![','] + entry_text(
                e.0,
                e.1,
            ));
        }
    }
}

/// Append one `"key":value` entry to `out`, preceded by a comma when
/// `out` already holds an entry.
pub fn append_entry(out: &mut String, first: bool, key: &str, raw: &str)
    ensures
        first ==> final(out)@ == old(out)@ + entry_text(key@, raw@),
        !first ==> final(out)@ == old(out)@ + seq![','] + entry_text(key@, raw@),
{
    if !first {
        proof {
            reveal_strlit(",");
        }
        out.append(",");
    }
    append_quoted(out, key);
    proof {
        reveal_strlit(":");
    }
    out.append(":");
    out.append(raw);
    assert(final(out)@ =~= if first {
        old(out)@ + entry_text(key@, raw@)
    } else {
        (old(out)@ + seq![',']) + entry_text(key@, raw@)
    });
    assert(!first ==> (old(out)@ + seq![',']) + entry_text(key@, raw@) =~= old(out)@ + seq![',']
        + entry_text(key@, raw@));
}

/// The character sequences behind a list of string pairs.
pub open spec fn pairs_view(s: Seq<(String, String)>) -> Seq<(Seq<char>, Seq<char>)> {
    s.map_values(|kv: (String, String)| (kv.0@, kv.1@))
}

/// The first position of `key` among the pairs, or their number when it
/// is absent.
pub open spec fn key_index(pairs: Seq<(Seq<char>, Seq<char>)>, key: Seq<char>) -> int
    decreases pairs.len(),
{
    if pairs.len() == 0 {
        0
    } else if pairs[0].0 == key {
        0
    } else {
        1 + key_index(pairs.drop_first(), key)
    }
}

/// Whether some pair carries `key`.
pub open spec fn has_key(pairs: Seq<(Seq<char>, Seq<char>)>, key: Seq<char>) -> bool {
    key_index(pairs, key) < pairs.len()
}

/// `key_index` is the first position carrying the key, when there is one.
pub proof fn lemma_key_index(pairs: Seq<(Seq<char>, Seq<char>)>, key: Seq<char>)
    ensures
        0 <= key_index(pairs, key) <= pairs.len(),
        key_index(pairs, key) < pairs.len() ==> pairs[key_index(pairs, key)].0 == key,
        forall|t: int| 0 <= t < key_index(pairs, key) ==> pairs[t].0 != key,
    decreases pairs.len(),
{
    if pairs.len() > 0 && pairs[0].0 != key {
        lemma_key_index(pairs.drop_first(), key);
        assert forall|t: int| 0 <= t < key_index(pairs, key) implies pairs[t].0 != key by {
            if t > 0 {
                assert(pairs.drop_first()[t - 1] == pairs[t]);
            }
        }
    }
}

/// `pairs` with `kv` folded in: when the key is already present, the new
/// value replaces the old one at the key's first position; otherwise the
/// pair is appended.
pub open spec fn upsert(
    pairs: Seq<(Seq<char>, Seq<char>)>,
    kv: (Seq<char>, Seq<char>),
) -> Seq<(Seq<char>, Seq<char>)> {
    if has_key(pairs, kv.0) {
        pairs.update(key_index(pairs, kv.0), kv)
    } else {
        pairs.push(kv)
    }
}

/// The entries reduced to one per key: each key keeps the position of
/// its first appearance and holds the last value the list gives it.
pub open spec fn dedup_pairs(pairs: Seq<(Seq<char>, Seq<char>)>) -> Seq<(Seq<char>, Seq<char>)>
    decreases pairs.len(),
{
    if pairs.len() == 0 {
        Seq::empty()
    } else {
        upsert(dedup_pairs(pairs.drop_last()), pairs.last())
    }
}

/// The first position of `key` in `out`, if it carries the key at all.
fn find_key(out: &Vec<(String, String)>, key: &str) -> (r: Option<usize>)
    ensures
        r matches Some(i) ==> i < out@.len() && i == key_index(pairs_view(out@), key@),
        r is None ==> !has_key(pairs_view(out@), key@),
{
    proof {
        assert(forall|j: int|
            0 <= j < out@.len() ==> #[trigger] pairs_view(out@)[j] == (out@[j].0@, out@[j].1@));
    }
    let n = out.len();
    let mut i: usize = 0;
    while i < n
        invariant
            i <= n,
            n == out@.len(),
            forall|t: int| 0 <= t < i ==> pairs_view(out@)[t].0 != key@,
            forall|j: int|
                0 <= j < out@.len() ==> #[trigger] pairs_view(out@)[j] == (out@[j].0@, out@[j].1@),
        decreases n - i,
    {
        if str_eq(out[i].0.as_str(), key) {
            proof {
                lemma_key_index(pairs_view(out@), key@);
                let ki = key_index(pairs_view(out@), key@);
                assert(pairs_view(out@)[i as int].0 == key@);
                if ki < i as int {
                    assert(pairs_view(out@)[ki].0 != key@);
                    assert(pairs_view(out@)[ki].0 == key@);
                }
                if ki > i as int {
                    assert(pairs_view(out@)[i as int].0 != key@);
                }
                assert(ki == i as int);
            }
            return Some(i);
        }
        i += 1;
    }
    proof {
        lemma_key_index(pairs_view(out@), key@);
    }
    None
}

/// The entries reduced to one per key, the last value winning and each
/// key keeping the position of its first appearance.
pub fn dedup_last_wins(pairs: &Vec<(String, String)>) -> (r: Vec<(String, String)>)
    ensures
        pairs_view(r@) == dedup_pairs(pairs_view(pairs@)),
{
    let mut out: Vec<(String, String)> = Vec::new();
    let n = pairs.len();
    let mut i: usize = 0;
    proof {
        assert(pairs_view(pairs@).take(0int) =~= Seq::<(Seq<char>, Seq<char>)>::empty());
        assert(pairs_view(out@) =~= dedup_pairs(pairs_view(pairs@).take(0int)));
    }
    while i < n
        invariant
            i <= n,
            n == pairs@.len(),
            pairs_view(pairs@).len() == n,
            pairs_view(out@) == dedup_pairs(pairs_view(pairs@).take(i as int)),
        decreases n - i,
    {
        let ghost pv = pairs_view(pairs@);
        let ghost before = pairs_view(out@);
        proof {
            assert(pv[i as int] == (pairs@[i as int].0@, pairs@[i as int].1@));
        }
        let kv = (pairs[i].0.clone(), pairs[i].1.clone());
        match find_key(&out, pairs[i].0.as_str()) {
            Some(j) => {
                out[j] = kv;
                proof {
                    assert(pairs_view(out@) =~= before.update(j as int, pv[i as int]));
                }
            },
            None => {
                out.push(kv);
                proof {
                    assert(pairs_view(out@) =~= before.push(pv[i as int]));
                }
            },
        }
        proof {
            assert(pv.take(i as int + 1).drop_last() =~= pv.take(i as int));
            assert(pv.take(i as int + 1).last() == pv[i as int]);
            assert(pairs_view(out@) =~= dedup_pairs(pv.take(i as int + 1)));
        }
        i += 1;
    }
    proof {
        assert(pairs_view(pairs@).take(n as int) =~= pairs_view(pairs@));
    }
    out
}

/// The object text for a list of key/raw-value pairs: keys escaped,
/// values inserted verbatim, entries in list order.
pub fn json_object(pairs: &Vec<(String, String)>) -> (r: String)
    ensures
        r@ == object_text(pairs_view(pairs@)),
{
    proof {
        reveal_strlit("{");
        reveal_strlit("}");
    }
    let mut out = String::new();
    out.append("{");
    let n = pairs.len();
    let mut i: usize = 0;
    while i < n
        invariant
            i <= n,
            n == pairs.len(),
            pairs_view(pairs@).len() == n,
            forall|j: int|
                0 <= j < n ==> #[trigger] pairs_view(pairs@)[j] == (pairs@[j].0@, pairs@[j].1@),
            out@ == seq!['{'] + entries_text(pairs_view(pairs@).take(i as int)),
        decreases n - i,
    {
        let first = i == 0;
        append_entry(&mut out, first, pairs[i].0.as_str(), pairs[i].1.as_str());
        proof {
            let pv = pairs_view(pairs@);
            lemma_entries_push(pv.take(i as int), pv[i as int]);
            assert(pv.take(i as int).push(pv[i as int]) =~= pv.take(i as int + 1));
            assert(out@ =~= seq!['{'] + entries_text(pv.take(i as int + 1)));
        }
        i += 1;
    }
    out.append("}");
    proof {
        assert(pairs_view(pairs@).take(n as int) =~= pairs_view(pairs@));
        assert(out@ =~= object_text(pairs_view(pairs@)));
    }
    out
}

} // verus!
