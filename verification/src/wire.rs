//! Wire format for the socket transport: every message travels as one
//! self-delimiting frame, a little-endian length followed by a tagged
//! payload, so a reader can find the message boundary without any
//! out-of-band signal. Strings travel as a length followed by their UTF-8
//! bytes. Both ends must agree on the exact tag set; compatibility beyond
//! that is checked only at the application layer by the version gate.

use vstd::prelude::*;
use vstd::slice::{slice_subrange, slice_to_vec};
use vstd::utf8::{encode_utf8, valid_utf8};
use crate::protocol::{
    FollowerMessage, FollowerMessageKind, LeaderMessageKind, SubgraphDefinition, SubgraphKey,
    SubgraphKeys,
};

verus! {

/// The eight little-endian bytes of a 64-bit length or count.
pub open spec fn spec_u64_le(n: u64) -> Seq<u8> {
    seq![
        (n & 0xff) as u8,
        ((n >> 8) & 0xff) as u8,
        ((n >> 16) & 0xff) as u8,
        ((n >> 24) & 0xff) as u8,
        ((n >> 32) & 0xff) as u8,
        ((n >> 40) & 0xff) as u8,
        ((n >> 48) & 0xff) as u8,
        ((n >> 56) & 0xff) as u8,
    ]
}

/// A string travels as its UTF-8 byte length, then its UTF-8 bytes.
pub open spec fn spec_encode_str(s: Seq<char>) -> Seq<u8> {
    spec_u64_le(encode_utf8(s).len() as u64) + encode_utf8(s)
}

/// The bytes at `pos` hold exactly the encoding of the string `s`.
pub open spec fn str_encoding_at(bytes: Seq<u8>, pos: int, s: Seq<char>) -> bool {
    &&& pos + spec_encode_str(s).len() <= bytes.len()
    &&& bytes.subrange(pos, pos + spec_encode_str(s).len()) == spec_encode_str(s)
}

proof fn lemma_subrange_split(s: Seq<u8>, a: int, b: int, c: int)
    requires
        0 <= a <= b <= c <= s.len(),
    ensures
        s.subrange(a, c) == s.subrange(a, b) + s.subrange(b, c),
{
    assert(s.subrange(a, c) =~= s.subrange(a, b) + s.subrange(b, c));
}

proof fn lemma_u64_le_injective(a: u64, b: u64)
    requires
        spec_u64_le(a) == spec_u64_le(b),
    ensures
        a == b,
{
    assert(spec_u64_le(a)[0] == spec_u64_le(b)[0]);
    assert(spec_u64_le(a)[1] == spec_u64_le(b)[1]);
    assert(spec_u64_le(a)[2] == spec_u64_le(b)[2]);
    assert(spec_u64_le(a)[3] == spec_u64_le(b)[3]);
    assert(spec_u64_le(a)[4] == spec_u64_le(b)[4]);
    assert(spec_u64_le(a)[5] == spec_u64_le(b)[5]);
    assert(spec_u64_le(a)[6] == spec_u64_le(b)[6]);
    assert(spec_u64_le(a)[7] == spec_u64_le(b)[7]);
    assert(a == b) by (bit_vector)
        requires
            (a & 0xff) as u8 == (b & 0xff) as u8,
            ((a >> 8) & 0xff) as u8 == ((b >> 8) & 0xff) as u8,
            ((a >> 16) & 0xff) as u8 == ((b >> 16) & 0xff) as u8,
            ((a >> 24) & 0xff) as u8 == ((b >> 24) & 0xff) as u8,
            ((a >> 32) & 0xff) as u8 == ((b >> 32) & 0xff) as u8,
            ((a >> 40) & 0xff) as u8 == ((b >> 40) & 0xff) as u8,
            ((a >> 48) & 0xff) as u8 == ((b >> 48) & 0xff) as u8,
            ((a >> 56) & 0xff) as u8 == ((b >> 56) & 0xff) as u8,
    ;
}

proof fn lemma_str_encoding_parts(bytes: Seq<u8>, pos: int, s: Seq<char>)
    requires
        0 <= pos,
        str_encoding_at(bytes, pos, s),
    ensures
        bytes.subrange(pos, pos + 8) == spec_u64_le(encode_utf8(s).len() as u64),
        bytes.subrange(pos + 8, pos + 8 + encode_utf8(s).len()) == encode_utf8(s),
{
    let e = spec_encode_str(s);
    assert(e.len() == 8 + encode_utf8(s).len());
    assert(forall|i: int| 0 <= i < e.len() ==> bytes[pos + i] == #[trigger] e[i]) by {
        assert(forall|i: int| 0 <= i < e.len() ==> #[trigger] bytes.subrange(
            pos,
            pos + e.len() as int,
        )[i] == e[i]);
    };
    assert(bytes.subrange(pos, pos + 8) =~= spec_u64_le(encode_utf8(s).len() as u64));
    assert(forall|i: int| 0 <= i < encode_utf8(s).len() ==> #[trigger] encode_utf8(s)[i] == e[8
        + i]);
    assert(bytes.subrange(pos + 8, pos + 8 + encode_utf8(s).len()) =~= encode_utf8(s));
}

fn push_u64_le(out: &mut Vec<u8>, n: u64)
    ensures
        final(out)@ == old(out)@ + spec_u64_le(n),
{
    out.push((n & 0xff) as u8);
    out.push(((n >> 8) & 0xff) as u8);
    out.push(((n >> 16) & 0xff) as u8);
    out.push(((n >> 24) & 0xff) as u8);
    out.push(((n >> 32) & 0xff) as u8);
    out.push(((n >> 40) & 0xff) as u8);
    out.push(((n >> 48) & 0xff) as u8);
    out.push(((n >> 56) & 0xff) as u8);
    proof {
        assert(out@ =~= old(out)@ + spec_u64_le(n));
    }
}

fn read_u64_le(bytes: &Vec<u8>, pos: usize) -> (r: Option<(u64, usize)>)
    ensures
        r matches Some((n, end)) ==> {
            &&& end == pos + 8
            &&& end <= bytes@.len()
            &&& bytes@.subrange(pos as int, end as int) == spec_u64_le(n)
        },
        pos + 8 <= bytes@.len() ==> r is Some,
{
    if bytes.len() < 8 || pos > bytes.len() - 8 {
        return None;
    }
    let b0 = bytes[pos];
    let b1 = bytes[pos + 1];
    let b2 = bytes[pos + 2];
    let b3 = bytes[pos + 3];
    let b4 = bytes[pos + 4];
    let b5 = bytes[pos + 5];
    let b6 = bytes[pos + 6];
    let b7 = bytes[pos + 7];
    let n: u64 = (b0 as u64) | ((b1 as u64) << 8) | ((b2 as u64) << 16) | ((b3 as u64) << 24)
        | ((b4 as u64) << 32) | ((b5 as u64) << 40) | ((b6 as u64) << 48) | ((b7 as u64) << 56);
    proof {
        assert((n & 0xff) as u8 == b0 && ((n >> 8) & 0xff) as u8 == b1 && ((n >> 16)
            & 0xff) as u8 == b2 && ((n >> 24) & 0xff) as u8 == b3 && ((n >> 32) & 0xff) as u8 == b4
            && ((n >> 40) & 0xff) as u8 == b5 && ((n >> 48) & 0xff) as u8 == b6 && ((n >> 56)
            & 0xff) as u8 == b7) by (bit_vector)
            requires
                n == (b0 as u64) | ((b1 as u64) << 8) | ((b2 as u64) << 16) | ((b3 as u64) << 24)
                    | ((b4 as u64) << 32) | ((b5 as u64) << 40) | ((b6 as u64) << 48) | ((
                b7 as u64) << 56),
        ;
        assert(bytes@.subrange(pos as int, (pos + 8) as int) =~= spec_u64_le(n));
    }
    Some((n, pos + 8))
}

/// Relies on String::from_utf8: it succeeds exactly on the byte sequences
/// that are valid UTF-8, and the returned string is the one those bytes
/// encode.
#[verifier::external_body]
fn string_from_utf8(bytes: Vec<u8>) -> (r: Option<String>)
    ensures
        r matches Some(s) ==> encode_utf8(s@) == bytes@,
        valid_utf8(bytes@) ==> r is Some,
{
    String::from_utf8(bytes).ok()
}

fn push_string(out: &mut Vec<u8>, s: &str)
    ensures
        final(out)@ == old(out)@ + spec_encode_str(s@),
{
    let bs: &[u8] = s.as_bytes();
    let len: u64 = bs.len() as u64;
    push_u64_le(out, len);
    let mut tail = slice_to_vec(bs);
    out.append(&mut tail);
    proof {
        assert(out@ =~= old(out)@ + spec_encode_str(s@));
    }
}

fn read_string(bytes: &Vec<u8>, pos: usize) -> (r: Option<(String, usize)>)
    ensures
        r matches Some((s, end)) ==> {
            &&& pos <= end <= bytes@.len()
            &&& bytes@.subrange(pos as int, end as int) == spec_encode_str(s@)
        },
        forall|s: Seq<char>| #[trigger] str_encoding_at(bytes@, pos as int, s) ==> (r matches Some(
            (s2, end),
        ) && end == pos + spec_encode_str(s).len()),
{
    let (len, p) = match read_u64_le(bytes, pos) {
        Some(x) => x,
        None => {
            proof {
                assert forall|s: Seq<char>| str_encoding_at(bytes@, pos as int, s) implies false by {
                    assert(spec_encode_str(s).len() >= 8);
                };
            }
            return None;
        },
    };
    if len > (bytes.len() - p) as u64 {
        proof {
            assert forall|s: Seq<char>| str_encoding_at(bytes@, pos as int, s) implies false by {
                lemma_str_encoding_parts(bytes@, pos as int, s);
                lemma_u64_le_injective(len, encode_utf8(s).len() as u64);
            };
        }
        return None;
    }
    let n = len as usize;
    let sub = slice_subrange(bytes.as_slice(), p, p + n);
    let buf = slice_to_vec(sub);
    match string_from_utf8(buf) {
        Some(s) => {
            proof {
                lemma_subrange_split(bytes@, pos as int, p as int, (p + n) as int);
                assert(bytes@.subrange(pos as int, (p + n) as int) =~= spec_encode_str(s@));
                assert forall|w: Seq<char>| str_encoding_at(bytes@, pos as int, w) implies p + n
                    == pos + spec_encode_str(w).len() by {
                    lemma_str_encoding_parts(bytes@, pos as int, w);
                    lemma_u64_le_injective(len, encode_utf8(w).len() as u64);
                };
            }
            Some((s, p + n))
        },
        None => {
            proof {
                assert forall|w: Seq<char>| str_encoding_at(bytes@, pos as int, w) implies false by {
                    lemma_str_encoding_parts(bytes@, pos as int, w);
                    lemma_u64_le_injective(len, encode_utf8(w).len() as u64);
                    vstd::utf8::encode_utf8_valid_utf8(w);
                    assert(buf@ == encode_utf8(w));
                };
            }
            None
        },
    }
}

/// A subgraph definition travels as its three strings in order.
pub open spec fn spec_encode_definition(d: SubgraphDefinition) -> Seq<u8> {
    spec_encode_str(d.name@) + spec_encode_str(d.url@) + spec_encode_str(d.sdl@)
}

/// The bytes at `pos` hold exactly the encoding of the definition `d`.
pub open spec fn definition_encoding_at(bytes: Seq<u8>, pos: int, d: SubgraphDefinition) -> bool {
    &&& pos + spec_encode_definition(d).len() <= bytes.len()
    &&& bytes.subrange(pos, pos + spec_encode_definition(d).len()) == spec_encode_definition(d)
}

proof fn lemma_definition_encoding_parts(bytes: Seq<u8>, pos: int, d: SubgraphDefinition)
    requires
        0 <= pos,
        definition_encoding_at(bytes, pos, d),
    ensures
        str_encoding_at(bytes, pos, d.name@),
        str_encoding_at(bytes, pos + spec_encode_str(d.name@).len(), d.url@),
        str_encoding_at(
            bytes,
            pos + spec_encode_str(d.name@).len() + spec_encode_str(d.url@).len(),
            d.sdl@,
        ),
{
    let e = spec_encode_definition(d);
    let e1 = spec_encode_str(d.name@);
    let e2 = spec_encode_str(d.url@);
    let e3 = spec_encode_str(d.sdl@);
    assert(forall|i: int| 0 <= i < e.len() ==> bytes[pos + i] == #[trigger] e[i]) by {
        assert(forall|i: int| 0 <= i < e.len() ==> #[trigger] bytes.subrange(
            pos,
            pos + e.len() as int,
        )[i] == e[i]);
    };
    assert(forall|i: int| 0 <= i < e1.len() ==> #[trigger] e1[i] == e[i]);
    assert(forall|i: int| 0 <= i < e2.len() ==> #[trigger] e2[i] == e[e1.len() + i]);
    assert(forall|i: int| 0 <= i < e3.len() ==> #[trigger] e3[i] == e[e1.len() + e2.len() + i]);
    assert(bytes.subrange(pos, pos + e1.len() as int) =~= e1);
    assert(bytes.subrange(pos + e1.len(), pos + e1.len() + e2.len() as int) =~= e2);
    assert(bytes.subrange(
        pos + e1.len() + e2.len(),
        pos + e1.len() + e2.len() + e3.len() as int,
    ) =~= e3);
}

fn push_definition(out: &mut Vec<u8>, d: &SubgraphDefinition)
    ensures
        final(out)@ == old(out)@ + spec_encode_definition(*d),
{
    push_string(out, d.name.as_str());
    push_string(out, d.url.as_str());
    push_string(out, d.sdl.as_str());
    proof {
        assert(out@ =~= old(out)@ + spec_encode_definition(*d));
    }
}

fn read_definition(bytes: &Vec<u8>, pos: usize) -> (r: Option<(SubgraphDefinition, usize)>)
    ensures
        r matches Some((d, end)) ==> {
            &&& pos <= end <= bytes@.len()
            &&& bytes@.subrange(pos as int, end as int) == spec_encode_definition(d)
        },
        forall|d: SubgraphDefinition| #[trigger] definition_encoding_at(bytes@, pos as int, d)
            ==> (r matches Some((d2, end)) && end == pos + spec_encode_definition(d).len()),
{
    let (name, p1) = match read_string(bytes, pos) {
        Some(x) => x,
        None => {
            proof {
                assert forall|d: SubgraphDefinition|
                    definition_encoding_at(bytes@, pos as int, d) implies false by {
                    lemma_definition_encoding_parts(bytes@, pos as int, d);
                };
            }
            return None;
        },
    };
    let (url, p2) = match read_string(bytes, p1) {
        Some(x) => x,
        None => {
            proof {
                assert forall|d: SubgraphDefinition|
                    definition_encoding_at(bytes@, pos as int, d) implies false by {
                    lemma_definition_encoding_parts(bytes@, pos as int, d);
                };
            }
            return None;
        },
    };
    let (sdl, p3) = match read_string(bytes, p2) {
        Some(x) => x,
        None => {
            proof {
                assert forall|d: SubgraphDefinition|
                    definition_encoding_at(bytes@, pos as int, d) implies false by {
                    lemma_definition_encoding_parts(bytes@, pos as int, d);
                };
            }
            return None;
        },
    };
    let d = SubgraphDefinition { name, url, sdl };
    proof {
        lemma_subrange_split(bytes@, pos as int, p1 as int, p2 as int);
        lemma_subrange_split(bytes@, pos as int, p2 as int, p3 as int);
        assert(bytes@.subrange(pos as int, p3 as int) =~= spec_encode_definition(d));
        assert forall|w: SubgraphDefinition|
            definition_encoding_at(bytes@, pos as int, w) implies p3 == pos
            + spec_encode_definition(w).len() by {
            lemma_definition_encoding_parts(bytes@, pos as int, w);
        };
    }
    Some((d, p3))
}

/// The session membership travels as a count, then each name and url.
pub open spec fn spec_encode_keys(keys: Seq<SubgraphKey>) -> Seq<u8>
    decreases keys.len(),
{
    if keys.len() == 0 {
        Seq::empty()
    } else {
        spec_encode_keys(keys.drop_last()) + spec_encode_str(keys.last().0@) + spec_encode_str(
            keys.last().1@,
        )
    }
}

/// The bytes at `pos` hold a count and then exactly the encoding of `ks`.
pub open spec fn keys_encoding_at(bytes: Seq<u8>, pos: int, ks: Seq<SubgraphKey>) -> bool {
    &&& pos + 8 + spec_encode_keys(ks).len() <= bytes.len()
    &&& bytes.subrange(pos, pos + 8) == spec_u64_le(ks.len() as u64)
    &&& bytes.subrange(pos + 8, pos + 8 + spec_encode_keys(ks).len()) == spec_encode_keys(ks)
}

proof fn lemma_encode_keys_first(ks: Seq<SubgraphKey>)
    requires
        ks.len() > 0,
    ensures
        spec_encode_keys(ks) == spec_encode_str(ks[0].0@) + spec_encode_str(ks[0].1@)
            + spec_encode_keys(ks.skip(1)),
    decreases ks.len(),
{
    if ks.len() == 1 {
        assert(ks.drop_last() =~= Seq::<SubgraphKey>::empty());
        assert(ks.skip(1) =~= Seq::<SubgraphKey>::empty());
        assert(spec_encode_keys(ks) =~= spec_encode_str(ks[0].0@) + spec_encode_str(ks[0].1@)
            + spec_encode_keys(ks.skip(1)));
    } else {
        lemma_encode_keys_first(ks.drop_last());
        assert(ks.skip(1).drop_last() =~= ks.drop_last().skip(1));
        assert(ks.skip(1).last() == ks.last());
        assert(ks.drop_last()[0] == ks[0]);
        assert(spec_encode_keys(ks) =~= spec_encode_str(ks[0].0@) + spec_encode_str(ks[0].1@)
            + spec_encode_keys(ks.skip(1)));
    }
}

proof fn lemma_encode_keys_len(ks: Seq<SubgraphKey>)
    ensures
        spec_encode_keys(ks).len() >= 16 * ks.len(),
    decreases ks.len(),
{
    if ks.len() > 0 {
        lemma_encode_keys_len(ks.drop_last());
    }
}

proof fn lemma_keys_step(bytes: Seq<u8>, p: int, ks: Seq<SubgraphKey>)
    requires
        0 <= p,
        ks.len() > 0,
        p + spec_encode_keys(ks).len() <= bytes.len(),
        bytes.subrange(p, p + spec_encode_keys(ks).len()) == spec_encode_keys(ks),
    ensures
        str_encoding_at(bytes, p, ks[0].0@),
        str_encoding_at(bytes, p + spec_encode_str(ks[0].0@).len(), ks[0].1@),
        spec_encode_keys(ks).len() == spec_encode_str(ks[0].0@).len() + spec_encode_str(
            ks[0].1@,
        ).len() + spec_encode_keys(ks.skip(1)).len(),
        bytes.subrange(
            p + spec_encode_str(ks[0].0@).len() + spec_encode_str(ks[0].1@).len(),
            p + spec_encode_keys(ks).len(),
        ) == spec_encode_keys(ks.skip(1)),
{
    lemma_encode_keys_first(ks);
    let e = spec_encode_keys(ks);
    let e1 = spec_encode_str(ks[0].0@);
    let e2 = spec_encode_str(ks[0].1@);
    let e3 = spec_encode_keys(ks.skip(1));
    assert(forall|i: int| 0 <= i < e.len() ==> bytes[p + i] == #[trigger] e[i]) by {
        assert(forall|i: int| 0 <= i < e.len() ==> #[trigger] bytes.subrange(
            p,
            p + e.len() as int,
        )[i] == e[i]);
    };
    assert(forall|i: int| 0 <= i < e1.len() ==> #[trigger] e1[i] == e[i]);
    assert(forall|i: int| 0 <= i < e2.len() ==> #[trigger] e2[i] == e[e1.len() + i]);
    assert(forall|i: int| 0 <= i < e3.len() ==> #[trigger] e3[i] == e[e1.len() + e2.len() + i]);
    assert(bytes.subrange(p, p + e1.len() as int) =~= e1);
    assert(bytes.subrange(p + e1.len(), p + e1.len() + e2.len() as int) =~= e2);
    assert(bytes.subrange(p + e1.len() + e2.len(), p + e.len() as int) =~= e3);
}

fn push_keys(out: &mut Vec<u8>, keys: &SubgraphKeys)
    ensures
        final(out)@ == old(out)@ + spec_u64_le(keys@.len() as u64) + spec_encode_keys(keys@),
{
    push_u64_le(out, keys.len() as u64);
    let mut i: usize = 0;
    while i < keys.len()
        invariant
            i <= keys@.len(),
            out@ == old(out)@ + spec_u64_le(keys@.len() as u64) + spec_encode_keys(
                keys@.take(i as int),
            ),
        decreases keys@.len() - i,
    {
        let pair: &SubgraphKey = &keys[i];
        push_string(out, pair.0.as_str());
        push_string(out, pair.1.as_str());
        proof {
            assert(keys@.take(i + 1 as int).drop_last() =~= keys@.take(i as int));
            assert(keys@.take(i + 1 as int).last() == keys@[i as int]);
            assert(out@ =~= old(out)@ + spec_u64_le(keys@.len() as u64) + spec_encode_keys(
                keys@.take(i + 1 as int),
            ));
        }
        i = i + 1;
    }
    proof {
        assert(keys@.take(keys@.len() as int) =~= keys@);
    }
}

fn read_keys(bytes: &Vec<u8>, pos: usize) -> (r: Option<(SubgraphKeys, usize)>)
    ensures
        r matches Some((ks, end)) ==> {
            &&& pos <= end <= bytes@.len()
            &&& bytes@.subrange(pos as int, end as int) == spec_u64_le(ks@.len() as u64)
                + spec_encode_keys(ks@)
        },
        forall|w: Seq<SubgraphKey>| #[trigger] keys_encoding_at(bytes@, pos as int, w) ==> (r
            matches Some((ks, end)) && end == pos + 8 + spec_encode_keys(w).len()),
{
    let (count, p0) = match read_u64_le(bytes, pos) {
        Some(x) => x,
        None => {
            proof {
                assert forall|w: Seq<SubgraphKey>|
                    keys_encoding_at(bytes@, pos as int, w) implies false by {};
            }
            return None;
        },
    };
    if count > bytes.len() as u64 {
        proof {
            assert forall|w: Seq<SubgraphKey>|
                keys_encoding_at(bytes@, pos as int, w) implies false by {
                lemma_encode_keys_len(w);
                lemma_u64_le_injective(count, w.len() as u64);
            };
        }
        return None;
    }
    let mut ks: SubgraphKeys = Vec::new();
    let mut p: usize = p0;
    let mut i: u64 = 0;
    proof {
        assert forall|w: Seq<SubgraphKey>|
            keys_encoding_at(bytes@, pos as int, w) implies w.len() == count && w.skip(0)
            == w by {
            lemma_encode_keys_len(w);
            lemma_u64_le_injective(count, w.len() as u64);
            assert(w.skip(0) =~= w);
        };
    }
    while i < count
        invariant
            i <= count,
            count <= bytes@.len(),
            p0 <= p <= bytes@.len(),
            p0 == pos + 8,
            pos + 8 <= bytes@.len(),
            ks@.len() == i,
            bytes@.subrange(pos as int, p0 as int) == spec_u64_le(count),
            bytes@.subrange(p0 as int, p as int) == spec_encode_keys(ks@),
            forall|w: Seq<SubgraphKey>| #[trigger] keys_encoding_at(bytes@, pos as int, w) ==> {
                &&& w.len() == count
                &&& p + spec_encode_keys(w.skip(i as int)).len() == pos + 8 + spec_encode_keys(
                    w,
                ).len()
                &&& bytes@.subrange(p as int, p + spec_encode_keys(w.skip(i as int)).len())
                    == spec_encode_keys(w.skip(i as int))
            },
        decreases count - i,
    {
        proof {
            assert forall|w: Seq<SubgraphKey>|
                keys_encoding_at(bytes@, pos as int, w) implies str_encoding_at(
                bytes@,
                p as int,
                w[i as int].0@,
            ) by {
                assert(w.skip(i as int)[0] == w[i as int]);
                lemma_keys_step(bytes@, p as int, w.skip(i as int));
            };
        }
        let (name, q1) = match read_string(bytes, p) {
            Some(x) => x,
            None => {
                proof {
                    assert forall|w: Seq<SubgraphKey>|
                        keys_encoding_at(bytes@, pos as int, w) implies false by {};
                }
                return None;
            },
        };
        proof {
            assert forall|w: Seq<SubgraphKey>|
                keys_encoding_at(bytes@, pos as int, w) implies str_encoding_at(
                bytes@,
                q1 as int,
                w[i as int].1@,
            ) by {
                assert(w.skip(i as int)[0] == w[i as int]);
                lemma_keys_step(bytes@, p as int, w.skip(i as int));
            };
        }
        let (url, q2) = match read_string(bytes, q1) {
            Some(x) => x,
            None => {
                proof {
                    assert forall|w: Seq<SubgraphKey>|
                        keys_encoding_at(bytes@, pos as int, w) implies false by {};
                }
                return None;
            },
        };
        let ghost old_ks = ks@;
        ks.push((name, url));
        proof {
            assert(ks@.drop_last() =~= old_ks);
            lemma_subrange_split(bytes@, p0 as int, p as int, q1 as int);
            lemma_subrange_split(bytes@, p0 as int, q1 as int, q2 as int);
            assert(bytes@.subrange(p0 as int, q2 as int) =~= spec_encode_keys(ks@));
            assert forall|w: Seq<SubgraphKey>|
                keys_encoding_at(bytes@, pos as int, w) implies {
                &&& q2 + spec_encode_keys(w.skip(i + 1 as int)).len() == pos + 8
                    + spec_encode_keys(w).len()
                &&& bytes@.subrange(q2 as int, q2 + spec_encode_keys(w.skip(i + 1 as int)).len())
                    == spec_encode_keys(w.skip(i + 1 as int))
            } by {
                assert(w.skip(i as int)[0] == w[i as int]);
                lemma_keys_step(bytes@, p as int, w.skip(i as int));
                assert(w.skip(i as int).skip(1) =~= w.skip(i + 1 as int));
            };
        }
        p = q2;
        i = i + 1;
    }
    proof {
        lemma_subrange_split(bytes@, pos as int, p0 as int, p as int);
        assert forall|w: Seq<SubgraphKey>|
            keys_encoding_at(bytes@, pos as int, w) implies p == pos + 8 + spec_encode_keys(
            w,
        ).len() by {
            assert(w.skip(count as int) =~= Seq::<SubgraphKey>::empty());
        };
    }
    Some((ks, p))
}

pub open spec fn spec_bool_byte(b: bool) -> u8 {
    if b {
        1u8
    } else {
        0u8
    }
}

/// The payload of a follower request: the sender flag, a variant tag, then
/// the variant's fields.
pub open spec fn spec_encode_follower(m: FollowerMessage) -> Seq<u8> {
    seq![spec_bool_byte(m.is_from_main_session)] + match m.kind {
        FollowerMessageKind::HealthCheck => seq![0u8],
        FollowerMessageKind::GetVersion { follower_version } => seq![1u8] + spec_encode_str(
            follower_version@,
        ),
        FollowerMessageKind::GetSubgraphs => seq![2u8],
        FollowerMessageKind::AddSubgraph { subgraph } => seq![3u8] + spec_encode_definition(
            subgraph,
        ),
        FollowerMessageKind::UpdateSubgraph { subgraph } => seq![4u8] + spec_encode_definition(
            subgraph,
        ),
        FollowerMessageKind::RemoveSubgraph { subgraph_name } => seq![5u8] + spec_encode_str(
            subgraph_name@,
        ),
    }
}

/// The payload of a leader response: a variant tag, then the variant's
/// fields.
pub open spec fn spec_encode_leader(m: LeaderMessageKind) -> Seq<u8> {
    match m {
        LeaderMessageKind::GetVersion { leader_version, follower_version } => seq![0u8]
            + spec_encode_str(leader_version@) + spec_encode_str(follower_version@),
        LeaderMessageKind::LeaderSessionInfo { subgraphs } => seq![1u8] + spec_u64_le(
            subgraphs@.len() as u64,
        ) + spec_encode_keys(subgraphs@),
        LeaderMessageKind::MessageReceived => seq![2u8],
        LeaderMessageKind::ErrorNotification { error } => seq![3u8] + spec_encode_str(error@),
        LeaderMessageKind::CompositionSuccess => seq![4u8],
    }
}

/// One frame: the payload's byte length, then the payload.
pub open spec fn spec_framed(payload: Seq<u8>) -> Seq<u8> {
    spec_u64_le(payload.len() as u64) + payload
}

/// The tag byte of each follower request variant.
pub open spec fn spec_follower_tag(k: FollowerMessageKind) -> u8 {
    match k {
        FollowerMessageKind::HealthCheck => 0u8,
        FollowerMessageKind::GetVersion { .. } => 1u8,
        FollowerMessageKind::GetSubgraphs => 2u8,
        FollowerMessageKind::AddSubgraph { .. } => 3u8,
        FollowerMessageKind::UpdateSubgraph { .. } => 4u8,
        FollowerMessageKind::RemoveSubgraph { .. } => 5u8,
    }
}

proof fn lemma_follower_frame_parts(bytes: Seq<u8>, m: FollowerMessage)
    requires
        bytes == spec_framed(spec_encode_follower(m)),
    ensures
        bytes.len() == 8 + spec_encode_follower(m).len(),
        10 <= bytes.len(),
        bytes[8] == spec_bool_byte(m.is_from_main_session),
        bytes[9] == spec_follower_tag(m.kind),
        m.kind matches FollowerMessageKind::GetVersion { follower_version } ==> str_encoding_at(
            bytes,
            10,
            follower_version@,
        ) && bytes.len() == 10 + spec_encode_str(follower_version@).len(),
        m.kind matches FollowerMessageKind::AddSubgraph { subgraph }
            ==> definition_encoding_at(bytes, 10, subgraph) && bytes.len() == 10
            + spec_encode_definition(subgraph).len(),
        m.kind matches FollowerMessageKind::UpdateSubgraph { subgraph }
            ==> definition_encoding_at(bytes, 10, subgraph) && bytes.len() == 10
            + spec_encode_definition(subgraph).len(),
        m.kind matches FollowerMessageKind::RemoveSubgraph { subgraph_name }
            ==> str_encoding_at(bytes, 10, subgraph_name@) && bytes.len() == 10
            + spec_encode_str(subgraph_name@).len(),
        m.kind is HealthCheck || m.kind is GetSubgraphs ==> bytes.len() == 10,
{
    let pl = spec_encode_follower(m);
    assert(forall|i: int| 0 <= i < pl.len() ==> bytes[8 + i] == #[trigger] pl[i]);
    match m.kind {
        FollowerMessageKind::HealthCheck => {
            assert(pl =~= seq![spec_bool_byte(m.is_from_main_session), 0u8]);
        },
        FollowerMessageKind::GetVersion { follower_version } => {
            let fe = spec_encode_str(follower_version@);
            assert(forall|i: int| 0 <= i < fe.len() ==> #[trigger] fe[i] == pl[2 + i]);
            assert(bytes.subrange(10, 10 + fe.len() as int) =~= fe);
        },
        FollowerMessageKind::GetSubgraphs => {
            assert(pl =~= seq![spec_bool_byte(m.is_from_main_session), 2u8]);
        },
        FollowerMessageKind::AddSubgraph { subgraph } => {
            let fe = spec_encode_definition(subgraph);
            assert(forall|i: int| 0 <= i < fe.len() ==> #[trigger] fe[i] == pl[2 + i]);
            assert(bytes.subrange(10, 10 + fe.len() as int) =~= fe);
        },
        FollowerMessageKind::UpdateSubgraph { subgraph } => {
            let fe = spec_encode_definition(subgraph);
            assert(forall|i: int| 0 <= i < fe.len() ==> #[trigger] fe[i] == pl[2 + i]);
            assert(bytes.subrange(10, 10 + fe.len() as int) =~= fe);
        },
        FollowerMessageKind::RemoveSubgraph { subgraph_name } => {
            let fe = spec_encode_str(subgraph_name@);
            assert(forall|i: int| 0 <= i < fe.len() ==> #[trigger] fe[i] == pl[2 + i]);
            assert(bytes.subrange(10, 10 + fe.len() as int) =~= fe);
        },
    }
}

fn frame(mut payload: Vec<u8>) -> (r: Vec<u8>)
    ensures
        r@ == spec_framed(payload@),
{
    let mut out: Vec<u8> = Vec::new();
    push_u64_le(&mut out, payload.len() as u64);
    out.append(&mut payload);
    out
}

/// Serializes one follower request into one self-delimiting frame.
pub fn encode_follower_message(m: &FollowerMessage) -> (r: Vec<u8>)
    ensures
        r@ == spec_framed(spec_encode_follower(*m)),
{
    let mut payload: Vec<u8> = Vec::new();
    payload.push(if m.is_from_main_session { 1 } else { 0 });
    match &m.kind {
        FollowerMessageKind::HealthCheck => {
            payload.push(0);
        },
        FollowerMessageKind::GetVersion { follower_version } => {
            payload.push(1);
            push_string(&mut payload, follower_version.as_str());
        },
        FollowerMessageKind::GetSubgraphs => {
            payload.push(2);
        },
        FollowerMessageKind::AddSubgraph { subgraph } => {
            payload.push(3);
            push_definition(&mut payload, subgraph);
        },
        FollowerMessageKind::UpdateSubgraph { subgraph } => {
            payload.push(4);
            push_definition(&mut payload, subgraph);
        },
        FollowerMessageKind::RemoveSubgraph { subgraph_name } => {
            payload.push(5);
            push_string(&mut payload, subgraph_name.as_str());
        },
    }
    proof {
        assert(payload@ =~= spec_encode_follower(*m));
    }
    frame(payload)
}

/// Serializes one leader response into one self-delimiting frame.
pub fn encode_leader_message(m: &LeaderMessageKind) -> (r: Vec<u8>)
    ensures
        r@ == spec_framed(spec_encode_leader(*m)),
{
    let mut payload: Vec<u8> = Vec::new();
    match m {
        LeaderMessageKind::GetVersion { leader_version, follower_version } => {
            payload.push(0);
            push_string(&mut payload, leader_version.as_str());
            push_string(&mut payload, follower_version.as_str());
        },
        LeaderMessageKind::LeaderSessionInfo { subgraphs } => {
            payload.push(1);
            push_keys(&mut payload, subgraphs);
        },
        LeaderMessageKind::MessageReceived => {
            payload.push(2);
        },
        LeaderMessageKind::ErrorNotification { error } => {
            payload.push(3);
            push_string(&mut payload, error.as_str());
        },
        LeaderMessageKind::CompositionSuccess => {
            payload.push(4);
        },
    }
    proof {
        assert(payload@ =~= spec_encode_leader(*m));
    }
    frame(payload)
}

/// The tag byte of each leader response variant.
pub open spec fn spec_leader_tag(m: LeaderMessageKind) -> u8 {
    match m {
        LeaderMessageKind::GetVersion { .. } => 0u8,
        LeaderMessageKind::LeaderSessionInfo { .. } => 1u8,
        LeaderMessageKind::MessageReceived => 2u8,
        LeaderMessageKind::ErrorNotification { .. } => 3u8,
        LeaderMessageKind::CompositionSuccess => 4u8,
    }
}

proof fn lemma_leader_frame_parts(bytes: Seq<u8>, m: LeaderMessageKind)
    requires
        bytes == spec_framed(spec_encode_leader(m)),
    ensures
        bytes.len() == 8 + spec_encode_leader(m).len(),
        9 <= bytes.len(),
        bytes[8] == spec_leader_tag(m),
        m matches LeaderMessageKind::GetVersion { leader_version, follower_version }
            ==> str_encoding_at(bytes, 9, leader_version@) && str_encoding_at(
            bytes,
            9 + spec_encode_str(leader_version@).len() as int,
            follower_version@,
        ) && bytes.len() == 9 + spec_encode_str(leader_version@).len() + spec_encode_str(
            follower_version@,
        ).len(),
        m matches LeaderMessageKind::LeaderSessionInfo { subgraphs } ==> keys_encoding_at(
            bytes,
            9,
            subgraphs@,
        ) && bytes.len() == 9 + 8 + spec_encode_keys(subgraphs@).len(),
        m matches LeaderMessageKind::ErrorNotification { error } ==> str_encoding_at(
            bytes,
            9,
            error@,
        ) && bytes.len() == 9 + spec_encode_str(error@).len(),
        m is MessageReceived || m is CompositionSuccess ==> bytes.len() == 9,
{
    let pl = spec_encode_leader(m);
    assert(forall|i: int| 0 <= i < pl.len() ==> bytes[8 + i] == #[trigger] pl[i]);
    match m {
        LeaderMessageKind::GetVersion { leader_version, follower_version } => {
            let e1 = spec_encode_str(leader_version@);
            let e2 = spec_encode_str(follower_version@);
            assert(forall|i: int| 0 <= i < e1.len() ==> #[trigger] e1[i] == pl[1 + i]);
            assert(forall|i: int| 0 <= i < e2.len() ==> #[trigger] e2[i] == pl[1 + e1.len() + i]);
            assert(bytes.subrange(9, 9 + e1.len() as int) =~= e1);
            assert(bytes.subrange(9 + e1.len() as int, 9 + e1.len() + e2.len() as int) =~= e2);
        },
        LeaderMessageKind::LeaderSessionInfo { subgraphs } => {
            let ec = spec_u64_le(subgraphs@.len() as u64);
            let ek = spec_encode_keys(subgraphs@);
            assert(forall|i: int| 0 <= i < ec.len() ==> #[trigger] ec[i] == pl[1 + i]);
            assert(forall|i: int| 0 <= i < ek.len() ==> #[trigger] ek[i] == pl[9 + i]);
            assert(bytes.subrange(9, 17) =~= ec);
            assert(bytes.subrange(17 as int, 17 + ek.len() as int) =~= ek);
        },
        LeaderMessageKind::MessageReceived => {
            assert(pl =~= seq![2u8]);
        },
        LeaderMessageKind::ErrorNotification { error } => {
            let e1 = spec_encode_str(error@);
            assert(forall|i: int| 0 <= i < e1.len() ==> #[trigger] e1[i] == pl[1 + i]);
            assert(bytes.subrange(9, 9 + e1.len() as int) =~= e1);
        },
        LeaderMessageKind::CompositionSuccess => {
            assert(pl =~= seq![4u8]);
        },
    }
}

fn read_byte(bytes: &Vec<u8>, pos: usize) -> (r: Option<(u8, usize)>)
    ensures
        r matches Some((b, end)) ==> {
            &&& end == pos + 1
            &&& end <= bytes@.len()
            &&& bytes@.subrange(pos as int, end as int) == seq![b]
        },
        pos + 1 <= bytes@.len() ==> r is Some,
{
    if pos >= bytes.len() {
        return None;
    }
    let b = bytes[pos];
    proof {
        assert(bytes@.subrange(pos as int, (pos + 1) as int) =~= seq![b]);
    }
    Some((b, pos + 1))
}

/// Checks the frame: the length prefix must say exactly how many payload
/// bytes follow, with nothing trailing. Returns the payload bounds.
fn check_frame(bytes: &Vec<u8>) -> (r: Option<usize>)
    ensures
        r matches Some(start) ==> {
            &&& start == 8
            &&& 8 <= bytes@.len()
            &&& bytes@ == spec_framed(bytes@.subrange(8, bytes@.len() as int))
        },
        (exists|payload: Seq<u8>| bytes@ == spec_framed(payload)) ==> r is Some,
{
    let (len, p) = match read_u64_le(bytes, 0) {
        Some(x) => x,
        None => {
            proof {
                assert forall|payload: Seq<u8>|
                    bytes@ == spec_framed(payload) implies false by {
                    assert(spec_framed(payload).len() >= 8);
                };
            }
            return None;
        },
    };
    if len != (bytes.len() - p) as u64 {
        proof {
            assert forall|payload: Seq<u8>| bytes@ == spec_framed(payload) implies false by {
                assert(forall|i: int| 0 <= i < 8 ==> bytes@[i] == #[trigger] spec_u64_le(
                    payload.len() as u64,
                )[i]);
                assert(bytes@.subrange(0, 8) =~= spec_u64_le(payload.len() as u64));
                lemma_u64_le_injective(len, payload.len() as u64);
            };
        }
        return None;
    }
    proof {
        lemma_subrange_split(bytes@, 0, 8, bytes@.len() as int);
        assert(bytes@.subrange(0, bytes@.len() as int) =~= bytes@);
    }
    Some(p)
}

/// Parses one follower request from one frame. Fails on a short frame,
/// trailing bytes, an unknown tag, or a field that does not parse; a
/// successful parse is exactly the encoding of the returned message, and a
/// frame this crate's encoder wrote always parses.
pub fn decode_follower_message(bytes: &Vec<u8>) -> (r: Option<FollowerMessage>)
    ensures
        r matches Some(m) ==> bytes@ == spec_framed(spec_encode_follower(m)),
        (exists|m: FollowerMessage| bytes@ == spec_framed(spec_encode_follower(m))) ==> r
            is Some,
{
    let start = match check_frame(bytes) {
        Some(x) => x,
        None => {
            proof {
                assert forall|m: FollowerMessage|
                    bytes@ == spec_framed(spec_encode_follower(m)) implies false by {
                    lemma_follower_frame_parts(bytes@, m);
                };
            }
            return None;
        },
    };
    let (flag, p1) = match read_byte(bytes, start) {
        Some(x) => x,
        None => {
            proof {
                assert forall|m: FollowerMessage|
                    bytes@ == spec_framed(spec_encode_follower(m)) implies false by {
                    lemma_follower_frame_parts(bytes@, m);
                };
            }
            return None;
        },
    };
    if flag > 1 {
        proof {
            assert forall|m: FollowerMessage|
                bytes@ == spec_framed(spec_encode_follower(m)) implies false by {
                lemma_follower_frame_parts(bytes@, m);
                assert(flag == bytes@.subrange(8, 9)[0]);
            };
        }
        return None;
    }
    let is_from_main_session = flag == 1;
    let (tag, p2) = match read_byte(bytes, p1) {
        Some(x) => x,
        None => {
            proof {
                assert forall|m: FollowerMessage|
                    bytes@ == spec_framed(spec_encode_follower(m)) implies false by {
                    lemma_follower_frame_parts(bytes@, m);
                };
            }
            return None;
        },
    };
    proof {
        assert forall|m: FollowerMessage|
            bytes@ == spec_framed(spec_encode_follower(m)) implies tag == spec_follower_tag(
            m.kind,
        ) by {
            lemma_follower_frame_parts(bytes@, m);
            assert(tag == bytes@.subrange(9, 10)[0]);
        };
    }
    let (kind, end) = match tag {
        0 => (FollowerMessageKind::HealthCheck, p2),
        1 => {
            let (v, q) = match read_string(bytes, p2) {
                Some(x) => x,
                None => {
                    proof {
                        assert forall|m: FollowerMessage|
                            bytes@ == spec_framed(spec_encode_follower(m)) implies false by {
                            lemma_follower_frame_parts(bytes@, m);
                        };
                    }
                    return None;
                },
            };
            (FollowerMessageKind::GetVersion { follower_version: v }, q)
        },
        2 => (FollowerMessageKind::GetSubgraphs, p2),
        3 => {
            let (d, q) = match read_definition(bytes, p2) {
                Some(x) => x,
                None => {
                    proof {
                        assert forall|m: FollowerMessage|
                            bytes@ == spec_framed(spec_encode_follower(m)) implies false by {
                            lemma_follower_frame_parts(bytes@, m);
                        };
                    }
                    return None;
                },
            };
            (FollowerMessageKind::AddSubgraph { subgraph: d }, q)
        },
        4 => {
            let (d, q) = match read_definition(bytes, p2) {
                Some(x) => x,
                None => {
                    proof {
                        assert forall|m: FollowerMessage|
                            bytes@ == spec_framed(spec_encode_follower(m)) implies false by {
                            lemma_follower_frame_parts(bytes@, m);
                        };
                    }
                    return None;
                },
            };
            (FollowerMessageKind::UpdateSubgraph { subgraph: d }, q)
        },
        5 => {
            let (n, q) = match read_string(bytes, p2) {
                Some(x) => x,
                None => {
                    proof {
                        assert forall|m: FollowerMessage|
                            bytes@ == spec_framed(spec_encode_follower(m)) implies false by {
                            lemma_follower_frame_parts(bytes@, m);
                        };
                    }
                    return None;
                },
            };
            (FollowerMessageKind::RemoveSubgraph { subgraph_name: n }, q)
        },
        _ => {
            proof {
                assert forall|m: FollowerMessage|
                    bytes@ == spec_framed(spec_encode_follower(m)) implies false by {
                    lemma_follower_frame_parts(bytes@, m);
                };
            }
            return None;
        },
    };
    if end != bytes.len() {
        proof {
            assert forall|m: FollowerMessage|
                bytes@ == spec_framed(spec_encode_follower(m)) implies false by {
                lemma_follower_frame_parts(bytes@, m);
            };
        }
        return None;
    }
    let m = FollowerMessage { kind, is_from_main_session };
    proof {
        lemma_subrange_split(bytes@, start as int, p1 as int, p2 as int);
        lemma_subrange_split(bytes@, start as int, p2 as int, end as int);
        assert(bytes@.subrange(start as int, end as int) =~= spec_encode_follower(m));
    }
    Some(m)
}

/// Parses one leader response from one frame, with the same guarantees as
/// the follower-side parser.
pub fn decode_leader_message(bytes: &Vec<u8>) -> (r: Option<LeaderMessageKind>)
    ensures
        r matches Some(m) ==> bytes@ == spec_framed(spec_encode_leader(m)),
        (exists|m: LeaderMessageKind| bytes@ == spec_framed(spec_encode_leader(m))) ==> r
            is Some,
{
    let start = match check_frame(bytes) {
        Some(x) => x,
        None => {
            proof {
                assert forall|m: LeaderMessageKind|
                    bytes@ == spec_framed(spec_encode_leader(m)) implies false by {
                    lemma_leader_frame_parts(bytes@, m);
                };
            }
            return None;
        },
    };
    let (tag, p1) = match read_byte(bytes, start) {
        Some(x) => x,
        None => {
            proof {
                assert forall|m: LeaderMessageKind|
                    bytes@ == spec_framed(spec_encode_leader(m)) implies false by {
                    lemma_leader_frame_parts(bytes@, m);
                };
            }
            return None;
        },
    };
    proof {
        assert forall|m: LeaderMessageKind|
            bytes@ == spec_framed(spec_encode_leader(m)) implies tag == spec_leader_tag(m) by {
            lemma_leader_frame_parts(bytes@, m);
            assert(tag == bytes@.subrange(8, 9)[0]);
        };
    }
    let (m, end) = match tag {
        0 => {
            let (lv, q1) = match read_string(bytes, p1) {
                Some(x) => x,
                None => {
                    proof {
                        assert forall|m: LeaderMessageKind|
                            bytes@ == spec_framed(spec_encode_leader(m)) implies false by {
                            lemma_leader_frame_parts(bytes@, m);
                        };
                    }
                    return None;
                },
            };
            let (fv, q2) = match read_string(bytes, q1) {
                Some(x) => x,
                None => {
                    proof {
                        assert forall|m: LeaderMessageKind|
                            bytes@ == spec_framed(spec_encode_leader(m)) implies false by {
                            lemma_leader_frame_parts(bytes@, m);
                        };
                    }
                    return None;
                },
            };
            proof {
                lemma_subrange_split(bytes@, p1 as int, q1 as int, q2 as int);
            }
            (LeaderMessageKind::GetVersion { leader_version: lv, follower_version: fv }, q2)
        },
        1 => {
            let (ks, q) = match read_keys(bytes, p1) {
                Some(x) => x,
                None => {
                    proof {
                        assert forall|m: LeaderMessageKind|
                            bytes@ == spec_framed(spec_encode_leader(m)) implies false by {
                            lemma_leader_frame_parts(bytes@, m);
                        };
                    }
                    return None;
                },
            };
            (LeaderMessageKind::LeaderSessionInfo { subgraphs: ks }, q)
        },
        2 => (LeaderMessageKind::MessageReceived, p1),
        3 => {
            let (e, q) = match read_string(bytes, p1) {
                Some(x) => x,
                None => {
                    proof {
                        assert forall|m: LeaderMessageKind|
                            bytes@ == spec_framed(spec_encode_leader(m)) implies false by {
                            lemma_leader_frame_parts(bytes@, m);
                        };
                    }
                    return None;
                },
            };
            (LeaderMessageKind::ErrorNotification { error: e }, q)
        },
        4 => (LeaderMessageKind::CompositionSuccess, p1),
        _ => {
            proof {
                assert forall|m: LeaderMessageKind|
                    bytes@ == spec_framed(spec_encode_leader(m)) implies false by {
                    lemma_leader_frame_parts(bytes@, m);
                };
            }
            return None;
        },
    };
    if end != bytes.len() {
        proof {
            assert forall|m2: LeaderMessageKind|
                bytes@ == spec_framed(spec_encode_leader(m2)) implies false by {
                lemma_leader_frame_parts(bytes@, m2);
            };
        }
        return None;
    }
    proof {
        lemma_subrange_split(bytes@, start as int, p1 as int, end as int);
        assert(bytes@.subrange(start as int, end as int) =~= spec_encode_leader(m));
    }
    Some(m)
}

} // verus!
