//! Byte-level URL encodings: `application/x-www-form-urlencoded` (as used
//! for query strings and form bodies) and percent-encoding of path
//! segments.
//!
//! Each encoder maps every UTF-8 byte of its input independently, so each
//! is specified by a per-byte rule ([`byte_out`]).

use vstd::prelude::*;
use vstd::string::StringSliceAdditionalSpecFns;
use vstd::utf8::encode_utf8;

use crate::text::push_char;

verus! {

/// Uppercase hexadecimal digit for `d < 16`.
pub open spec fn hex_upper(d: nat) -> char {
    if d < 10 {
        ((d + 48) as u32) as char
    } else {
        ((d + 55) as u32) as char
    }
}

fn hex_upper_exec(d: u8) -> (c: char)
    requires
        d < 16,
    ensures
        c == hex_upper(d as nat),
{
    if d < 10 {
        (d + 48) as char
    } else {
        (d + 55) as char
    }
}

/// `%XX` with uppercase hex digits.
pub open spec fn pct(b: u8) -> Seq<char> {
    seq!['%', hex_upper((b / 16) as nat), hex_upper((b % 16) as nat)]
}

/// The byte rule of an encoder.
#[derive(Debug, Clone, Copy, PartialEq, Eq, Structural)]
pub enum ByteRule {
    /// `application/x-www-form-urlencoded`: ASCII letters, digits and
    /// `*-._` are kept, space becomes `+`, every other byte is `%XX`.
    Form,
    /// Wikipedia article path: control bytes, non-ASCII bytes and
    /// `` #?%<>"`^{}|\`` plus space are `%XX`; `(`, `)`, `,`, `'` … are kept.
    WikiPath,
    /// Form-value escaping: control bytes, non-ASCII bytes and `"#<>&+=`
    /// plus space are `%XX`.
    FormValue,
}

/// ASCII letters, digits and `*-._`.
pub open spec fn form_unreserved(b: u8) -> bool {
    ||| b == 0x2a
    ||| b == 0x2d
    ||| b == 0x2e
    ||| b == 0x5f
    ||| (0x30 <= b && b <= 0x39)
    ||| (0x41 <= b && b <= 0x5a)
    ||| (0x61 <= b && b <= 0x7a)
}

/// Control bytes: `0x00..=0x1f` and `0x7f`.
pub open spec fn is_control(b: u8) -> bool {
    b < 0x20 || b == 0x7f
}

/// The bytes a [`ByteRule::WikiPath`] encoder escapes besides controls and
/// non-ASCII bytes.
pub open spec fn in_wiki_set(b: u8) -> bool {
    ||| b == 0x20
    ||| b == 0x23
    ||| b == 0x3f
    ||| b == 0x25
    ||| b == 0x3c
    ||| b == 0x3e
    ||| b == 0x22
    ||| b == 0x60
    ||| b == 0x5e
    ||| b == 0x7b
    ||| b == 0x7d
    ||| b == 0x7c
    ||| b == 0x5c
}

/// The bytes a [`ByteRule::FormValue`] encoder escapes besides controls
/// and non-ASCII bytes.
pub open spec fn in_form_value_set(b: u8) -> bool {
    ||| b == 0x20
    ||| b == 0x22
    ||| b == 0x23
    ||| b == 0x3c
    ||| b == 0x3e
    ||| b == 0x26
    ||| b == 0x2b
    ||| b == 0x3d
}

/// Output of one byte under a rule.
pub open spec fn byte_out(rule: ByteRule, b: u8) -> Seq<char> {
    match rule {
        ByteRule::Form => if form_unreserved(b) {
            seq![b as char]
        } else if b == 0x20 {
            seq!['+']
        } else {
            pct(b)
        },
        ByteRule::WikiPath => if b >= 0x80 || is_control(b) || in_wiki_set(b) {
            pct(b)
        } else {
            seq![b as char]
        },
        ByteRule::FormValue => if b >= 0x80 || is_control(b) || in_form_value_set(b) {
            pct(b)
        } else {
            seq![b as char]
        },
    }
}

/// Encoding of a byte sequence, byte by byte.
pub open spec fn encode_bytes(rule: ByteRule, bs: Seq<u8>) -> Seq<char>
    decreases bs.len(),
{
    if bs.len() == 0 {
        Seq::empty()
    } else {
        encode_bytes(rule, bs.drop_last()) + byte_out(rule, bs.last())
    }
}

/// Encoding of the UTF-8 form of a string.
pub open spec fn encode_str(rule: ByteRule, s: Seq<char>) -> Seq<char> {
    encode_bytes(rule, encode_utf8(s))
}

fn push_byte(out: &mut String, rule: ByteRule, b: u8)
    ensures
        final(out)@ == old(out)@ + byte_out(rule, b),
{
    let keep = match rule {
        ByteRule::Form => b == 0x2a || b == 0x2d || b == 0x2e || b == 0x5f || (0x30 <= b && b
            <= 0x39) || (0x41 <= b && b <= 0x5a) || (0x61 <= b && b <= 0x7a),
        ByteRule::WikiPath => !(b >= 0x80 || b < 0x20 || b == 0x7f || b == 0x20 || b == 0x23
            || b == 0x3f || b == 0x25 || b == 0x3c || b == 0x3e || b == 0x22 || b == 0x60 || b
            == 0x5e || b == 0x7b || b == 0x7d || b == 0x7c || b == 0x5c),
        ByteRule::FormValue => !(b >= 0x80 || b < 0x20 || b == 0x7f || b == 0x20 || b == 0x22
            || b == 0x23 || b == 0x3c || b == 0x3e || b == 0x26 || b == 0x2b || b == 0x3d),
    };
    if keep {
        push_char(out, b as char);
    } else if rule == ByteRule::Form && b == 0x20 {
        push_char(out, '+');
    } else {
        push_char(out, '%');
        push_char(out, hex_upper_exec(b / 16));
        push_char(out, hex_upper_exec(b % 16));
    }
    assert(final(out)@ =~= old(out)@ + byte_out(rule, b));
}

/// Appends the encoding of `s` under `rule`.
pub fn push_encoded(out: &mut String, rule: ByteRule, s: &str)
    ensures
        final(out)@ == old(out)@ + encode_str(rule, s@),
{
    let bytes = s.as_bytes();
    let ghost start = out@;
    let mut i: usize = 0;
    while i < bytes.len()
        invariant
            bytes@ == encode_utf8(s@),
            0 <= i <= bytes@.len(),
            out@ == start + encode_bytes(rule, bytes@.take(i as int)),
        decreases bytes@.len() - i,
    {
        push_byte(out, rule, bytes[i]);
        proof {
            assert(bytes@.take(i + 1).drop_last() =~= bytes@.take(i as int));
            assert(start + encode_bytes(rule, bytes@.take(i as int)) + byte_out(rule, bytes@[i as int])
                =~= start + encode_bytes(rule, bytes@.take(i + 1)));
        }
        i += 1;
    }
    assert(bytes@.take(bytes@.len() as int) =~= bytes@);
}

/// The encoding of `s` under `rule`.
pub fn encode(s: &str, rule: ByteRule) -> (r: String)
    ensures
        r@ == encode_str(rule, s@),
{
    let mut r = String::new();
    push_encoded(&mut r, rule, s);
    assert(r@ =~= encode_str(rule, s@));
    r
}

/// A name/value pair of a query string or form body.
pub open spec fn pair_text(name: Seq<char>, value: Seq<char>) -> Seq<char> {
    encode_str(ByteRule::Form, name) + seq!['='] + encode_str(ByteRule::Form, value)
}

/// `name=value&name=value…`, every name and value form-encoded (what
/// `form_urlencoded::Serializer::append_pair` builds).
pub open spec fn pairs_text(pairs: Seq<(Seq<char>, Seq<char>)>) -> Seq<char>
    decreases pairs.len(),
{
    if pairs.len() == 0 {
        Seq::empty()
    } else if pairs.len() == 1 {
        pair_text(pairs[0].0, pairs[0].1)
    } else {
        pairs_text(pairs.drop_last()) + seq!['&'] + pair_text(pairs.last().0, pairs.last().1)
    }
}

/// The text view of a list of pairs.
pub open spec fn pairs_view(pairs: Seq<(String, String)>) -> Seq<(Seq<char>, Seq<char>)> {
    pairs.map_values(|p: (String, String)| (p.0@, p.1@))
}

/// Serialises name/value pairs as a form-encoded string.
pub fn encode_pairs(pairs: &Vec<(String, String)>) -> (r: String)
    ensures
        r@ == pairs_text(pairs_view(pairs@)),
{
    let mut r = String::new();
    let mut i: usize = 0;
    while i < pairs.len()
        invariant
            0 <= i <= pairs@.len(),
            r@ == pairs_text(pairs_view(pairs@.take(i as int))),
        decreases pairs@.len() - i,
    {
        let ghost before = r@;
        if i > 0 {
            push_char(&mut r, '&');
        }
        push_encoded(&mut r, ByteRule::Form, pairs[i].0.as_str());
        push_char(&mut r, '=');
        push_encoded(&mut r, ByteRule::Form, pairs[i].1.as_str());
        proof {
            let pv = pairs_view(pairs@.take(i + 1));
            assert(pairs_view(pairs@.take(i + 1)).drop_last() =~= pairs_view(pairs@.take(i as int)));
            assert(pv.last() == (pairs@[i as int].0@, pairs@[i as int].1@));
            if i == 0 {
                assert(r@ =~= pairs_text(pv));
            } else {
                assert(r@ =~= pairs_text(pv));
            }
        }
        i += 1;
    }
    assert(pairs@.take(pairs@.len() as int) =~= pairs@);
    r
}

} // verus!
