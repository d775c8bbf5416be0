//! The `application/x-www-form-urlencoded` wire format for query strings.
//!
//! `enc_query` states exactly how a sequence of key/value pairs is rendered:
//! each string is taken to its UTF-8 bytes, every byte outside the serializer's
//! unreserved set (`0-9 A-Z a-z * - . _`) is written as `+` (for a space) or as
//! a percent escape with uppercase hex digits, pairs are joined with `=`, and
//! the pairs with `&`. The encoding is done by the `url` crate; the spec here
//! pins its output down. `decode_query` is the matching mathematical decoder,
//! and `lemma_query_round_trip` proves that decoding an encoded query string
//! recovers the parameter pairs exactly.

use vstd::prelude::*;
use vstd::utf8::{decode_utf8, encode_utf8};

verus! {

/// Bytes that the form-urlencoded byte serializer passes through unchanged.
pub open spec fn is_form_unreserved(b: u8) -> bool {
    b == 42 || b == 45 || b == 46 || b == 95 || (48 <= b && b <= 57) || (65 <= b && b <= 90) || (
    97 <= b && b <= 122)
}

/// Uppercase hex digit character for a value in `0..16`.
pub open spec fn hex_upper_char(d: int) -> char {
    if d < 10 {
        ((48 + d) as u8) as char
    } else {
        ((55 + d) as u8) as char
    }
}

/// Serialization of one byte: space becomes `+`, unreserved bytes stand as
/// themselves, every other byte is percent-escaped.
pub open spec fn enc_byte(b: u8) -> Seq<char> {
    if b == 32 {
        seq!['+']
    } else if is_form_unreserved(b) {
        seq![b as char]
    } else {
        seq!['%', hex_upper_char(b as int / 16), hex_upper_char(b as int % 16)]
    }
}

/// Serialization of a byte sequence.
pub open spec fn enc_bytes(bs: Seq<u8>) -> Seq<char>
    decreases bs.len(),
{
    if bs.len() == 0 {
        Seq::empty()
    } else {
        enc_byte(bs[0]) + enc_bytes(bs.skip(1))
    }
}

/// Serialization of one key or value: its UTF-8 bytes, serialized.
pub open spec fn enc_component(s: Seq<char>) -> Seq<char> {
    enc_bytes(encode_utf8(s))
}

/// Serialization of one `key=value` pair.
pub open spec fn enc_pair(p: (Seq<char>, Seq<char>)) -> Seq<char> {
    enc_component(p.0) + seq!['='] + enc_component(p.1)
}

/// Serialization of a whole query string: pairs joined with `&`.
pub open spec fn enc_query(ps: Seq<(Seq<char>, Seq<char>)>) -> Seq<char>
    decreases ps.len(),
{
    if ps.len() == 0 {
        Seq::empty()
    } else if ps.len() == 1 {
        enc_pair(ps[0])
    } else {
        enc_query(ps.drop_last()) + seq!['&'] + enc_pair(ps.last())
    }
}

/// Relies on `url::form_urlencoded::byte_serialize`, the
/// application/x-www-form-urlencoded byte serializer: it keeps alphanumerics
/// and `*-._`, writes a space as `+`, and percent-escapes every other byte of
/// the argument's UTF-8 form with uppercase hex digits.
#[verifier::external_body]
pub(crate) fn urlencode_component(s: &str) -> (r: String)
    ensures
        r@ == enc_component(s@),
{
    url::form_urlencoded::byte_serialize(s.as_bytes()).collect()
}

/// Whether an uppercase-hex percent escape can use `c`.
pub open spec fn is_hex_upper(c: char) -> bool {
    (48 <= c as u32 && c as u32 <= 57) || (65 <= c as u32 && c as u32 <= 70)
}

/// Value of an uppercase hex digit character.
pub open spec fn unhex(c: char) -> int {
    if c as u32 <= 57 {
        c as u32 - 48
    } else {
        c as u32 - 55
    }
}

/// Byte value of a two-digit percent escape.
pub open spec fn hex_pair_val(c1: char, c2: char) -> u8 {
    (16 * unhex(c1) + unhex(c2)) as u8
}

/// Low byte of a character's code point.
pub open spec fn char_byte(c: char) -> u8 {
    (c as u32) as u8
}

/// Decoding of a serialized component back to bytes: `+` means a space, a
/// percent escape means its byte, any other character means its code point.
pub open spec fn dec_bytes(s: Seq<char>) -> Seq<u8>
    decreases s.len(),
{
    if s.len() == 0 {
        Seq::empty()
    } else if s[0] == '%' && s.len() >= 3 && is_hex_upper(s[1]) && is_hex_upper(s[2]) {
        seq![hex_pair_val(s[1], s[2])] + dec_bytes(s.skip(3))
    } else if s[0] == '+' {
        seq![32u8] + dec_bytes(s.skip(1))
    } else {
        seq![char_byte(s[0])] + dec_bytes(s.skip(1))
    }
}

/// Split a query string at every `&`.
pub open spec fn split_amp(s: Seq<char>) -> Seq<Seq<char>>
    decreases s.len(),
{
    if s.len() == 0 {
        seq![Seq::<char>::empty()]
    } else if s[0] == '&' {
        seq![Seq::<char>::empty()] + split_amp(s.skip(1))
    } else {
        let r = split_amp(s.skip(1));
        seq![seq![s[0]] + r[0]] + r.skip(1)
    }
}

/// Split one segment at its first `=`; a segment without one is all key.
pub open spec fn split_eq(s: Seq<char>) -> (Seq<char>, Seq<char>)
    decreases s.len(),
{
    if s.len() == 0 {
        (Seq::<char>::empty(), Seq::<char>::empty())
    } else if s[0] == '=' {
        (Seq::<char>::empty(), s.skip(1))
    } else {
        let r = split_eq(s.skip(1));
        (seq![s[0]] + r.0, r.1)
    }
}

/// Decoding of one `key=value` segment.
pub open spec fn decode_pair(seg: Seq<char>) -> (Seq<char>, Seq<char>) {
    (decode_utf8(dec_bytes(split_eq(seg).0)), decode_utf8(dec_bytes(split_eq(seg).1)))
}

/// Decoding of a whole query string back to its key/value pairs.
pub open spec fn decode_query(s: Seq<char>) -> Seq<(Seq<char>, Seq<char>)> {
    split_amp(s).map_values(|seg: Seq<char>| decode_pair(seg))
}

/// Whether `c` occurs nowhere in `s`.
pub open spec fn avoids(s: Seq<char>, c: char) -> bool {
    forall|i: int| 0 <= i < s.len() ==> #[trigger] s[i] != c
}

proof fn lemma_enc_byte_avoids(b: u8)
    ensures
        avoids(enc_byte(b), '&'),
        avoids(enc_byte(b), '='),
{
}

proof fn lemma_enc_bytes_avoids(bs: Seq<u8>)
    ensures
        avoids(enc_bytes(bs), '&'),
        avoids(enc_bytes(bs), '='),
    decreases bs.len(),
{
    if bs.len() > 0 {
        lemma_enc_byte_avoids(bs[0]);
        lemma_enc_bytes_avoids(bs.skip(1));
        assert forall|i: int|
            0 <= i < enc_bytes(bs).len() implies #[trigger] enc_bytes(bs)[i] != '&' && enc_bytes(
            bs,
        )[i] != '=' by {
            let head = enc_byte(bs[0]);
            if i >= head.len() {
                assert(enc_bytes(bs)[i] == enc_bytes(bs.skip(1))[i - head.len()]);
            }
        }
    }
}

/// Decoding undoes the serialization of a single byte, whatever follows it.
proof fn lemma_dec_enc_byte(b: u8, t: Seq<char>)
    ensures
        dec_bytes(enc_byte(b) + t) == seq![b] + dec_bytes(t),
{
    let s = enc_byte(b) + t;
    if b == 32 {
        assert(s.skip(1) =~= t);
    } else if is_form_unreserved(b) {
        assert(s.skip(1) =~= t);
        assert(char_byte(b as char) == b);
    } else {
        assert(s.skip(3) =~= t);
        let hi = b as int / 16;
        let lo = b as int % 16;
        assert(0 <= lo < 16 && 0 <= hi < 16 && 16 * hi + lo == b as int) by (nonlinear_arith)
            requires
                hi == b as int / 16,
                lo == b as int % 16,
                0 <= b as int <= 255,
        ;
        assert(unhex(hex_upper_char(hi)) == hi);
        assert(unhex(hex_upper_char(lo)) == lo);
        assert(s[0] == '%' && is_hex_upper(s[1]) && is_hex_upper(s[2]));
        assert(hex_pair_val(s[1], s[2]) == b);
    }
    assert(dec_bytes(enc_byte(b) + t) =~= seq![b] + dec_bytes(t));
}

/// Decoding undoes the serialization of a byte sequence, whatever follows it.
proof fn lemma_dec_enc_bytes(bs: Seq<u8>, t: Seq<char>)
    ensures
        dec_bytes(enc_bytes(bs) + t) == bs + dec_bytes(t),
    decreases bs.len(),
{
    if bs.len() == 0 {
        assert(enc_bytes(bs) + t =~= t);
        assert(bs + dec_bytes(t) =~= dec_bytes(t));
    } else {
        lemma_dec_enc_bytes(bs.skip(1), t);
        lemma_dec_enc_byte(bs[0], enc_bytes(bs.skip(1)) + t);
        assert(enc_bytes(bs) + t =~= enc_byte(bs[0]) + (enc_bytes(bs.skip(1)) + t));
        assert(seq![bs[0]] + (bs.skip(1) + dec_bytes(t)) =~= bs + dec_bytes(t));
    }
}

/// Decoding a serialized component recovers its UTF-8 bytes.
proof fn lemma_dec_enc_component(s: Seq<char>)
    ensures
        dec_bytes(enc_component(s)) == encode_utf8(s),
{
    lemma_dec_enc_bytes(encode_utf8(s), Seq::empty());
    assert(enc_bytes(encode_utf8(s)) + Seq::<char>::empty() =~= enc_component(s));
    assert(encode_utf8(s) + dec_bytes(Seq::<char>::empty()) =~= encode_utf8(s));
}

/// A string without `&` is a single segment.
proof fn lemma_split_amp_whole(s: Seq<char>)
    requires
        avoids(s, '&'),
    ensures
        split_amp(s) == seq![s],
    decreases s.len(),
{
    if s.len() == 0 {
        assert(s =~= Seq::<char>::empty());
        assert(split_amp(s) =~~= seq![s]);
    } else {
        assert(s[0] != '&');
        assert(avoids(s.skip(1), '&'));
        lemma_split_amp_whole(s.skip(1));
        let r = split_amp(s.skip(1));
        assert(r[0] == s.skip(1));
        assert(split_amp(s) == seq![seq![s[0]] + r[0]] + r.skip(1));
        assert(seq![s[0]] + r[0] =~= s);
        assert(r.skip(1) =~= Seq::<Seq<char>>::empty());
        assert(split_amp(s) =~~= seq![s]);
    }
}

/// Splitting takes off a leading `&`-free segment.
proof fn lemma_split_amp_concat(x: Seq<char>, y: Seq<char>)
    requires
        avoids(x, '&'),
    ensures
        split_amp(x + seq!['&'] + y) == seq![x] + split_amp(y),
    decreases x.len(),
{
    let s = x + seq!['&'] + y;
    if x.len() == 0 {
        assert(s =~= seq!['&'] + y);
        assert(s.skip(1) =~= y);
        assert(x =~= Seq::<char>::empty());
        assert(split_amp(s) =~~= seq![x] + split_amp(y));
    } else {
        assert(x[0] != '&');
        assert(s[0] == x[0]);
        assert(avoids(x.skip(1), '&'));
        lemma_split_amp_concat(x.skip(1), y);
        assert(s.skip(1) =~= x.skip(1) + seq!['&'] + y);
        let r = split_amp(s.skip(1));
        assert(r == seq![x.skip(1)] + split_amp(y));
        assert(r[0] == x.skip(1));
        assert(split_amp(s) == seq![seq![s[0]] + r[0]] + r.skip(1));
        assert(seq![s[0]] + r[0] =~= x);
        assert(r.skip(1) =~= split_amp(y));
        assert(split_amp(s) =~~= seq![x] + split_amp(y));
    }
}

/// Splitting at the first `=` separates an `=`-free key from the value.
proof fn lemma_split_eq_concat(x: Seq<char>, y: Seq<char>)
    requires
        avoids(x, '='),
    ensures
        split_eq(x + seq!['='] + y) == (x, y),
    decreases x.len(),
{
    let s = x + seq!['='] + y;
    if x.len() == 0 {
        assert(s =~= seq!['='] + y);
        assert(s.skip(1) =~= y);
    } else {
        assert(x[0] != '=');
        assert(s[0] == x[0]);
        assert(avoids(x.skip(1), '='));
        lemma_split_eq_concat(x.skip(1), y);
        assert(s.skip(1) =~= x.skip(1) + seq!['='] + y);
        assert(seq![x[0]] + x.skip(1) =~= x);
        assert(split_eq(s).0 =~= x);
    }
}

/// Decoding undoes the serialization of one pair.
proof fn lemma_decode_pair(p: (Seq<char>, Seq<char>))
    ensures
        decode_pair(enc_pair(p)) == p,
{
    lemma_enc_bytes_avoids(encode_utf8(p.0));
    lemma_split_eq_concat(enc_component(p.0), enc_component(p.1));
    assert(enc_pair(p) == enc_component(p.0) + seq!['='] + enc_component(p.1));
    lemma_dec_enc_component(p.0);
    lemma_dec_enc_component(p.1);
    vstd::utf8::encode_utf8_decode_utf8(p.0);
    vstd::utf8::encode_utf8_decode_utf8(p.1);
    assert(decode_pair(enc_pair(p)).0 == p.0);
    assert(decode_pair(enc_pair(p)).1 == p.1);
}

/// A serialized pair contains no `&`.
proof fn lemma_enc_pair_avoids_amp(p: (Seq<char>, Seq<char>))
    ensures
        avoids(enc_pair(p), '&'),
{
    lemma_enc_bytes_avoids(encode_utf8(p.0));
    lemma_enc_bytes_avoids(encode_utf8(p.1));
    assert forall|i: int| 0 <= i < enc_pair(p).len() implies #[trigger] enc_pair(p)[i] != '&' by {
        let k = enc_component(p.0);
        let v = enc_component(p.1);
        if i < k.len() {
            assert(enc_pair(p)[i] == k[i]);
        } else if i == k.len() {
            assert(enc_pair(p)[i] == '=');
        } else {
            assert(enc_pair(p)[i] == v[i - k.len() - 1]);
        }
    }
}

/// A serialized query string read from the front.
proof fn lemma_enc_query_front(ps: Seq<(Seq<char>, Seq<char>)>)
    requires
        ps.len() >= 2,
    ensures
        enc_query(ps) == enc_pair(ps[0]) + seq!['&'] + enc_query(ps.skip(1)),
    decreases ps.len(),
{
    if ps.len() == 2 {
        assert(ps.drop_last() =~= seq![ps[0]]);
        assert(ps.skip(1) =~= seq![ps[1]]);
        assert(enc_query(seq![ps[0]]) == enc_pair(ps[0]));
        assert(enc_query(seq![ps[1]]) == enc_pair(ps[1]));
    } else {
        let d = ps.drop_last();
        lemma_enc_query_front(d);
        assert(ps.skip(1).drop_last() =~= d.skip(1));
        assert(ps.skip(1).last() == ps.last());
        assert(d[0] == ps[0]);
        assert(enc_query(ps.skip(1)) == enc_query(d.skip(1)) + seq!['&'] + enc_pair(ps.last()));
        assert(enc_query(ps) =~= enc_pair(ps[0]) + seq!['&'] + enc_query(ps.skip(1)));
    }
}

/// Decoding an encoded query string recovers the parameter pairs exactly:
/// the rendered wire form loses nothing of the key/value mapping.
pub proof fn lemma_query_round_trip(ps: Seq<(Seq<char>, Seq<char>)>)
    requires
        ps.len() > 0,
    ensures
        decode_query(enc_query(ps)) == ps,
    decreases ps.len(),
{
    if ps.len() == 1 {
        lemma_enc_pair_avoids_amp(ps[0]);
        lemma_split_amp_whole(enc_pair(ps[0]));
        lemma_decode_pair(ps[0]);
        assert(decode_query(enc_query(ps)) =~= ps);
    } else {
        lemma_enc_query_front(ps);
        lemma_enc_pair_avoids_amp(ps[0]);
        lemma_split_amp_concat(enc_pair(ps[0]), enc_query(ps.skip(1)));
        lemma_query_round_trip(ps.skip(1));
        lemma_decode_pair(ps[0]);
        let sa = split_amp(enc_query(ps));
        assert(sa == seq![enc_pair(ps[0])] + split_amp(enc_query(ps.skip(1))));
        assert forall|i: int|
            0 <= i < decode_query(enc_query(ps)).len() implies #[trigger] decode_query(
            enc_query(ps),
        )[i] == ps[i] by {
            if i == 0 {
                assert(sa[0] == enc_pair(ps[0]));
            } else {
                assert(sa[i] == split_amp(enc_query(ps.skip(1)))[i - 1]);
                assert(decode_query(enc_query(ps.skip(1)))[i - 1] == ps.skip(1)[i - 1]);
            }
        }
        assert(decode_query(enc_query(ps)) =~= ps);
    }
}

} // verus!
