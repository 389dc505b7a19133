//! UTF-8 text: the data is the encoded bytes, valid when they are well-formed
//! UTF-8.
use vstd::prelude::*;
use vstd::string::StringSliceAdditionalSpecFns;
use vstd::utf8::{
    decode_utf8, encode_utf8_decode_utf8, encode_utf8_valid_utf8, valid_utf8, valid_utf8_concat,
};

use core::str::Utf8Error;

use crate::strlike::{DataConcat, StrLike, StrLikeMut};

verus! {

/// `core::str::Utf8Error`, carried through as an opaque value.
#[verifier::external_type_specification]
#[verifier::external_body]
pub struct ExUtf8Error(core::str::Utf8Error);

/// Relies on `core::str::from_utf8`: it succeeds exactly on well-formed UTF-8,
/// and the text it returns is those bytes.
pub assume_specification[ core::str::from_utf8 ](v: &[u8]) -> (r: Result<&str, Utf8Error>)
    ensures
        r is Ok <==> valid_utf8(v@),
        r matches Ok(s) ==> s.spec_bytes() == v@,
;

impl<'a> StrLike<'a> for &'a str {
    type Data = [u8];

    type OwnedData = Vec<u8>;

    type ConvError = Utf8Error;

    open spec fn data_view(&self) -> Seq<u8> {
        (**self).spec_bytes()
    }

    open spec fn valid_data(d: Seq<u8>) -> bool {
        valid_utf8(d)
    }

    open spec fn wf(&self) -> bool {
        true
    }

    proof fn lemma_wf_valid(&self) {
        encode_utf8_valid_utf8((**self)@);
    }

    fn to_data(&self) -> (r: &'a [u8]) {
        self.as_bytes()
    }

    fn from_data(data: &'a [u8]) -> (r: Result<&'a str, Utf8Error>)
        ensures
            r matches Ok(s) ==> s@ == decode_utf8(data@),
    {
        let r = core::str::from_utf8(data);
        proof {
            if let Ok(s) = r {
                encode_utf8_decode_utf8(s@);
            }
        }
        r
    }

    fn from_data_unchecked(data: &'a [u8]) -> (r: &'a str)
        ensures
            r@ == decode_utf8(data@),
    {
        // std offers no safe unchecked view of bytes as `str`; the check runs,
        // and the precondition proves that its error arm is never taken.
        match core::str::from_utf8(data) {
            Ok(s) => {
                proof {
                    encode_utf8_decode_utf8(s@);
                }
                s
            },
            Err(_) => {
                assert(false);
                ""
            },
        }
    }
}

impl<'a> DataConcat<'a> for &'a str {
    proof fn lemma_concat_valid(d1: Seq<u8>, d2: Seq<u8>) {
        valid_utf8_concat(d1, d2);
    }
}

/// Mutable UTF-8 text: a mutable borrow of bytes that were found well-formed.
pub struct TextMut<'a> {
    bytes: &'a mut [u8],
}

impl<'a> TextMut<'a> {
    /// The text the bytes encode.
    pub fn as_text(&self) -> (r: &str)
        requires
            self.wf(),
        ensures
            r.spec_bytes() == self.data_view(),
    {
        match core::str::from_utf8(self.bytes) {
            Ok(s) => s,
            Err(_) => {
                assert(false);
                ""
            },
        }
    }
}

impl<'a> StrLikeMut<'a> for TextMut<'a> {
    type Data = [u8];

    type ConvError = Utf8Error;

    closed spec fn data_view(&self) -> Seq<u8> {
        (*self.bytes)@
    }

    open spec fn valid_data(d: Seq<u8>) -> bool {
        valid_utf8(d)
    }

    closed spec fn wf(&self) -> bool {
        valid_utf8((*self.bytes)@)
    }

    proof fn lemma_wf_valid(&self) {
    }

    fn to_data_mut(self) -> (r: &'a mut [u8]) {
        self.bytes
    }

    fn from_data_mut(data: &'a mut [u8]) -> (r: Result<TextMut<'a>, Utf8Error>) {
        match core::str::from_utf8(data) {
            Ok(_) => Ok(TextMut { bytes: data }),
            Err(e) => Err(e),
        }
    }

    fn from_data_mut_unchecked(data: &'a mut [u8]) -> (r: TextMut<'a>) {
        TextMut { bytes: data }
    }
}

} // verus!
