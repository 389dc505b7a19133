//! Null-terminated byte strings: the data is the bytes including the final
//! zero, valid when that zero is the only one.
use vstd::prelude::*;

use crate::strlike::StrLike;

verus! {

/// No byte of `d` is zero.
pub open spec fn no_nul(d: Seq<u8>) -> bool {
    forall|i: int| 0 <= i < d.len() ==> d[i] != 0
}

/// `d` ends in a zero byte and has no other.
pub open spec fn valid_nul(d: Seq<u8>) -> bool {
    &&& d.len() > 0
    &&& d.last() == 0
    &&& no_nul(d.drop_last())
}

/// Why bytes are not a null-terminated string.
#[derive(Debug, Clone, Copy, PartialEq, Eq)]
pub enum NulError {
    /// A zero byte stands before the last position; `position` is the first.
    InteriorNul { position: usize },
    /// No byte is zero (this includes empty data).
    NotNulTerminated,
}

/// `e` is the reason why `d` is not a null-terminated string: no zero byte at
/// all, or the first zero byte at `position`, before the last byte.
pub open spec fn nul_error_for(d: Seq<u8>, e: NulError) -> bool {
    match e {
        NulError::NotNulTerminated => no_nul(d),
        NulError::InteriorNul { position } => {
            &&& position + 1 < d.len()
            &&& d[position as int] == 0
            &&& no_nul(d.take(position as int))
        },
    }
}

/// Checks that `data` is a null-terminated string, and says why not otherwise.
pub fn check_nul_terminated(data: &[u8]) -> (r: Result<(), NulError>)
    ensures
        r is Ok <==> valid_nul(data@),
        r matches Err(e) ==> nul_error_for(data@, e),
{
    let n: usize = data.len();
    let mut i: usize = 0;
    while i < n
        invariant
            n == data@.len(),
            i <= n,
            no_nul(data@.take(i as int)),
        decreases n - i,
    {
        if data[i] == 0 {
            if i + 1 == n {
                proof {
                    assert(data@.drop_last() =~= data@.take(i as int));
                }
                return Ok(());
            }
            assert(data@.drop_last()[i as int] == 0);
            return Err(NulError::InteriorNul { position: i });
        }
        proof {
            assert(data@.take(i + 1) =~= data@.take(i as int).push(data@[i as int]));
        }
        i = i + 1;
    }
    proof {
        assert(data@.take(n as int) =~= data@);
    }
    Err(NulError::NotNulTerminated)
}

/// A null-terminated byte string: a borrow of bytes that end in their only
/// zero byte.
#[derive(Clone, Copy)]
pub struct NulStr<'a> {
    bytes: &'a [u8],
}

impl<'a> NulStr<'a> {
    /// The bytes before the terminating zero.
    pub fn to_bytes(&self) -> (r: &'a [u8])
        requires
            self.wf(),
        ensures
            r@ == self.data_view().drop_last(),
    {
        let n: usize = self.bytes.len();
        let (content, _) = self.bytes.split_at(n - 1);
        proof {
            assert(content@ =~= self.data_view().drop_last());
        }
        content
    }
}

impl<'a> StrLike<'a> for NulStr<'a> {
    type Data = [u8];

    type OwnedData = Vec<u8>;

    type ConvError = NulError;

    closed spec fn data_view(&self) -> Seq<u8> {
        self.bytes@
    }

    open spec fn valid_data(d: Seq<u8>) -> bool {
        valid_nul(d)
    }

    closed spec fn wf(&self) -> bool {
        valid_nul(self.bytes@)
    }

    proof fn lemma_wf_valid(&self) {
    }

    fn to_data(&self) -> (r: &'a [u8]) {
        self.bytes
    }

    fn from_data(data: &'a [u8]) -> (r: Result<NulStr<'a>, NulError>)
        ensures
            r matches Err(e) ==> nul_error_for(data@, e),
    {
        match check_nul_terminated(data) {
            Ok(()) => Ok(NulStr { bytes: data }),
            Err(e) => Err(e),
        }
    }

    fn from_data_unchecked(data: &'a [u8]) -> (r: NulStr<'a>) {
        NulStr { bytes: data }
    }
}

} // verus!
