//! Rendering of parameter mappings and request bodies as JSON text.
//!
//! The broker takes JSON bodies; the library renders them itself so that the
//! dry-run output and every outgoing body are pinned down exactly. Keys and
//! values are escaped as JSON strings: quote and backslash get a backslash,
//! other control characters become a `\u00XX` escape.

use vstd::prelude::*;
use crate::params::Params;

verus! {

/// The lower-case hex digit for `v` (0 to 15).
pub open spec fn hex_digit(v: int) -> char {
    if v == 0 {
        '0'
    } else if v == 1 {
        '1'
    } else if v == 2 {
        '2'
    } else if v == 3 {
        '3'
    } else if v == 4 {
        '4'
    } else if v == 5 {
        '5'
    } else if v == 6 {
        '6'
    } else if v == 7 {
        '7'
    } else if v == 8 {
        '8'
    } else if v == 9 {
        '9'
    } else if v == 10 {
        'a'
    } else if v == 11 {
        'b'
    } else if v == 12 {
        'c'
    } else if v == 13 {
        'd'
    } else if v == 14 {
        'e'
    } else {
        'f'
    }
}

/// How one character appears inside a JSON string literal.
pub open spec fn escaped_char(c: char) -> Seq<char> {
    if c == '"' {
        seq!['\\', '"']
    } else if c == '\\' {
        seq!['\\', '\\']
    } else if (c as u32) < 0x20 {
        seq!['\\', 'u', '0', '0', hex_digit(c as u32 as int / 16), hex_digit(c as u32 as int % 16)]
    } else {
        seq![c]
    }
}

/// A whole character sequence escaped for a JSON string literal.
pub open spec fn escaped(s: Seq<char>) -> Seq<char>
    decreases s.len(),
{
    if s.len() == 0 {
        Seq::empty()
    } else {
        escaped_char(s[0]) + escaped(s.drop_first())
    }
}

/// `s` as a JSON string literal, quotes included.
pub open spec fn quoted(s: Seq<char>) -> Seq<char> {
    seq!['"'] + escaped(s) + seq!['"']
}

/// One `"key":"value"` member.
pub open spec fn member(kv: (Seq<char>, Seq<char>)) -> Seq<char> {
    quoted(kv.0) + seq![':'] + quoted(kv.1)
}

/// The members of a JSON object, comma-separated.
pub open spec fn object_body(ps: Seq<(Seq<char>, Seq<char>)>) -> Seq<char>
    decreases ps.len(),
{
    if ps.len() == 0 {
        Seq::empty()
    } else if ps.len() == 1 {
        member(ps[0])
    } else {
        object_body(ps.drop_last()) + seq![','] + member(ps.last())
    }
}

/// An ordered pair sequence as a JSON object.
pub open spec fn object(ps: Seq<(Seq<char>, Seq<char>)>) -> Seq<char> {
    seq!['{'] + object_body(ps) + seq!['}']
}

pub proof fn lemma_escaped_snoc(s: Seq<char>, c: char)
    ensures
        escaped(s.push(c)) == escaped(s) + escaped_char(c),
    decreases s.len(),
{
    if s.len() == 0 {
        assert(s.push(c)[0] == c);
        assert(s.push(c).drop_first() =~= Seq::<char>::empty());
        assert(escaped(s.push(c)) == escaped_char(c) + escaped(Seq::<char>::empty()));
        assert(escaped_char(c) + Seq::<char>::empty() =~= escaped_char(c));
        assert(escaped(s) + escaped_char(c) =~= escaped_char(c));
    } else {
        assert(s.push(c).drop_first() =~= s.drop_first().push(c));
        lemma_escaped_snoc(s.drop_first(), c);
        assert(escaped(s.push(c)) =~= escaped(s) + escaped_char(c));
    }
}

/// Relies on std's `String::push`: appends the given character.
#[verifier::external_body]
fn push_char(out: &mut String, c: char)
    ensures
        final(out)@ == old(out)@.push(c),
{
    out.push(c);
}

/// The lower-case hex digit for `v` (0 to 15, larger values map to `f`).
fn hex_digit_char(v: u32) -> (r: char)
    ensures
        v < 16 ==> r == hex_digit(v as int),
{
    match v {
        0 => '0',
        1 => '1',
        2 => '2',
        3 => '3',
        4 => '4',
        5 => '5',
        6 => '6',
        7 => '7',
        8 => '8',
        9 => '9',
        10 => 'a',
        11 => 'b',
        12 => 'c',
        13 => 'd',
        14 => 'e',
        _ => 'f',
    }
}

/// Appends `c` to `out` in its escaped form.
fn append_escaped_char(out: &mut String, c: char)
    ensures
        final(out)@ == old(out)@ + escaped_char(c),
{
    if c == '"' {
        out.append("\\\"");
        proof {
            reveal_strlit("\\\"");
            assert(old(out)@ + "\\\""@ =~= old(out)@ + escaped_char(c));
        }
    } else if c == '\\' {
        out.append("\\\\");
        proof {
            reveal_strlit("\\\\");
            assert(old(out)@ + "\\\\"@ =~= old(out)@ + escaped_char(c));
        }
    } else if (c as u32) < 0x20 {
        let v = c as u32;
        out.append("\\u00");
        push_char(out, hex_digit_char(v / 16));
        push_char(out, hex_digit_char(v % 16));
        proof {
            reveal_strlit("\\u00");
            assert(old(out)@ + "\\u00"@.push(hex_digit(v as int / 16)).push(
                hex_digit(v as int % 16),
            ) =~= old(out)@ + escaped_char(c));
        }
    } else {
        push_char(out, c);
        proof {
            assert(old(out)@.push(c) =~= old(out)@ + escaped_char(c));
        }
    }
}

/// Appends `s`, escaped, to `out`.
pub fn append_escaped(out: &mut String, s: &str)
    ensures
        final(out)@ == old(out)@ + escaped(s@),
{
    let n = s.unicode_len();
    let mut i: usize = 0;
    while i < n
        invariant
            i <= n,
            n == s@.len(),
            out@ == old(out)@ + escaped(s@.take(i as int)),
        decreases n - i,
    {
        let c = s.get_char(i);
        append_escaped_char(out, c);
        proof {
            assert(s@.take(i + 1).drop_last() =~= s@.take(i as int));
            assert(s@.take(i + 1) =~= s@.take(i as int).push(s@[i as int]));
            lemma_escaped_snoc(s@.take(i as int), s@[i as int]);
        }
        i += 1;
    }
    proof {
        assert(s@.take(n as int) =~= s@);
    }
}

/// Appends `s` as a JSON string literal to `out`.
pub fn append_quoted(out: &mut String, s: &str)
    ensures
        final(out)@ == old(out)@ + quoted(s@),
{
    push_char(out, '"');
    append_escaped(out, s);
    push_char(out, '"');
    proof {
        assert(old(out)@.push('"') =~= old(out)@ + seq!['"']);
        assert(((old(out)@ + seq!['"']) + escaped(s@)).push('"') =~= old(out)@ + quoted(s@));
    }
}

/// Appends `params` as a JSON object to `out`.
pub fn append_object(out: &mut String, params: &Params)
    ensures
        final(out)@ == old(out)@ + object(params@),
{
    push_char(out, '{');
    proof {
        assert(old(out)@.push('{') =~= old(out)@ + seq!['{']);
        assert(params@.take(0) =~= Seq::<(Seq<char>, Seq<char>)>::empty());
    }
    let n = params.pairs.len();
    let mut i: usize = 0;
    while i < n
        invariant
            i <= n,
            n == params.pairs.len(),
            out@ == old(out)@ + seq!['{'] + object_body(params@.take(i as int)),
        decreases n - i,
    {
        if i > 0 {
            push_char(out, ',');
        }
        append_quoted(out, params.pairs[i].key.as_str());
        push_char(out, ':');
        append_quoted(out, params.pairs[i].value.as_str());
        proof {
            assert(params@.take(i + 1).drop_last() =~= params@.take(i as int));
            assert(params@.take(i + 1).last() == params@[i as int]);
            let ghost w = i as int;
            assert(params@[w] == (params.pairs[w].key@, params.pairs[w].value@));
            if i == 0 {
                assert(out@ =~= old(out)@ + seq!['{'] + object_body(params@.take(i + 1)));
            } else {
                assert(out@ =~= old(out)@ + seq!['{'] + object_body(params@.take(i + 1)));
            }
        }
        i += 1;
    }
    push_char(out, '}');
    proof {
        assert(params@.take(n as int) =~= params@);
        assert((old(out)@ + seq!['{'] + object_body(params@)).push('}') =~= old(out)@ + object(
            params@,
        ));
    }
}

/// `params` rendered as a JSON object.
pub fn object_string(params: &Params) -> (r: String)
    ensures
        r@ == object(params@),
{
    let mut out = String::new();
    append_object(&mut out, params);
    proof {
        assert(Seq::<char>::empty() + object(params@) =~= object(params@));
    }
    out
}

} // verus!
