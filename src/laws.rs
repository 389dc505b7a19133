//! Laws that relate the conversions of the string-like types.
use vstd::prelude::*;
use vstd::utf8::{
    decode_utf8, decode_utf8_encode_utf8, encode_utf8, encode_utf8_decode_utf8,
    encode_utf8_valid_utf8, valid_utf8,
};

use crate::nul::{no_nul, valid_nul};
use crate::strlike::{DataConcat, StrLike, StrLikeMut};

verus! {

/// Every well-formed value refers to valid data, so rebuilding it unchecked
/// from its own data is allowed, and gives a value over the same data.
pub proof fn lemma_unchecked_identity<'a, S: StrLike<'a>>(v: &S)
    requires
        v.wf(),
    ensures
        S::valid_data(v.data_view()),
{
    v.lemma_wf_valid();
}

/// The mutable counterpart: a well-formed mutable value refers to valid data.
pub proof fn lemma_unchecked_identity_mut<'a, S: StrLikeMut<'a>>(v: &S)
    requires
        v.wf(),
    ensures
        S::valid_data(v.data_view()),
{
    v.lemma_wf_valid();
}

/// For types whose data concatenates, the data of two values joined is valid
/// data again: it reads as one value.
pub proof fn lemma_data_concat<'a, S: DataConcat<'a>>(v1: &S, v2: &S)
    requires
        v1.wf(),
        v2.wf(),
    ensures
        S::valid_data(v1.data_view() + v2.data_view()),
{
    v1.lemma_wf_valid();
    v2.lemma_wf_valid();
    S::lemma_concat_valid(v1.data_view(), v2.data_view());
}

/// Text read from valid UTF-8 bytes is the one sequence of characters that
/// encodes to those bytes, and it encodes back to exactly them.
pub proof fn lemma_text_round_trip(d: Seq<u8>)
    requires
        valid_utf8(d),
    ensures
        encode_utf8(decode_utf8(d)) == d,
        forall|s: Seq<char>| #[trigger] encode_utf8(s) == d ==> s == decode_utf8(d),
{
    decode_utf8_encode_utf8(d);
    assert forall|s: Seq<char>| #[trigger] encode_utf8(s) == d implies s == decode_utf8(d) by {
        encode_utf8_decode_utf8(s);
    }
}

/// The bytes of any text are valid UTF-8 and decode to that text.
pub proof fn lemma_text_reencode(s: Seq<char>)
    ensures
        valid_utf8(encode_utf8(s)),
        decode_utf8(encode_utf8(s)) == s,
{
    encode_utf8_valid_utf8(s);
    encode_utf8_decode_utf8(s);
}

/// The bytes of two texts joined are the bytes of each, one after the other.
pub proof fn lemma_text_concat(a: Seq<char>, b: Seq<char>)
    ensures
        encode_utf8(a + b) == encode_utf8(a) + encode_utf8(b),
    decreases a.len(),
{
    if a.len() == 0 {
        assert(a + b =~= b);
        assert(encode_utf8(a) + encode_utf8(b) =~= encode_utf8(b));
    } else {
        let rest = a.drop_first();
        assert((a + b)[0] == a[0]);
        assert((a + b).drop_first() =~= rest + b);
        lemma_text_concat(rest, b);
        let first = vstd::utf8::encode_scalar(a[0] as u32);
        assert(encode_utf8(a + b) == first + encode_utf8(rest + b));
        assert(first + (encode_utf8(rest) + encode_utf8(b)) =~= (first + encode_utf8(rest))
            + encode_utf8(b));
    }
}

/// A null-terminated string's data is its content followed by the zero byte.
pub proof fn lemma_nul_round_trip(d: Seq<u8>)
    requires
        valid_nul(d),
    ensures
        no_nul(d.drop_last()),
        d.drop_last().push(0) == d,
{
    assert(d.drop_last().push(0) =~= d);
}

/// Any content without zero bytes, followed by one zero byte, is a valid
/// null-terminated string whose content is what was given.
pub proof fn lemma_nul_terminate(c: Seq<u8>)
    requires
        no_nul(c),
    ensures
        valid_nul(c.push(0)),
        c.push(0).drop_last() == c,
{
    assert(c.push(0).drop_last() =~= c);
}

/// Raw element sequences: every sequence of elements is valid data, so
/// reading it as a value never fails.
pub proof fn lemma_raw_all_valid<T: Copy>(d: Seq<T>)
    ensures
        <&[T] as StrLike>::valid_data(d),
        <&mut [T] as StrLikeMut>::valid_data(d),
{
}

} // verus!
