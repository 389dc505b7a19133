//! The conversion contracts between string-like values and their data.
use vstd::prelude::*;

use crate::data::{OwnsStrData, StrData};

verus! {

/// A string-like view over data of type `Self::Data` that lives for `'a`.
///
/// Each value refers to data that satisfies `valid_data`; the conversions
/// never copy the data.
pub trait StrLike<'a>: Sized {
    /// The data that backs the value.
    type Data: ?Sized + StrData + 'a;

    /// Owned storage for the data.
    type OwnedData: OwnsStrData<Self::Data>;

    /// Why data was refused by `from_data`.
    type ConvError;

    /// The units of the data the value refers to.
    spec fn data_view(&self) -> Seq<<Self::Data as StrData>::Unit>;

    /// Which data can be read as a value of this type.
    spec fn valid_data(d: Seq<<Self::Data as StrData>::Unit>) -> bool;

    /// The value is well formed: it was built by one of the conversions.
    spec fn wf(&self) -> bool;

    /// A well-formed value refers to valid data.
    proof fn lemma_wf_valid(&self)
        requires
            self.wf(),
        ensures
            Self::valid_data(self.data_view()),
    ;

    /// The data behind the value.
    fn to_data(&self) -> (r: &'a Self::Data)
        ensures
            r.units() == self.data_view(),
    ;

    /// Reads `data` as a value, if it is valid.
    fn from_data(data: &'a Self::Data) -> (r: Result<Self, Self::ConvError>)
        ensures
            r is Ok <==> Self::valid_data(data.units()),
            r matches Ok(v) ==> v.wf() && v.data_view() == data.units(),
    ;

    /// Reads `data` as a value; the caller vouches for its validity.
    fn from_data_unchecked(data: &'a Self::Data) -> (r: Self)
        requires
            Self::valid_data(data.units()),
        ensures
            r.wf(),
            r.data_view() == data.units(),
    ;
}

/// String-like types for which joining two pieces of valid data gives valid
/// data: the value of the joined data is the two values one after the other.
pub trait DataConcat<'a>: StrLike<'a> {
    /// Joining valid data keeps it valid.
    proof fn lemma_concat_valid(
        d1: Seq<<Self::Data as StrData>::Unit>,
        d2: Seq<<Self::Data as StrData>::Unit>,
    )
        requires
            Self::valid_data(d1),
            Self::valid_data(d2),
        ensures
            Self::valid_data(d1 + d2),
    ;
}

/// A mutable string-like view over data of type `Self::Data` borrowed for `'a`.
///
/// The view hands out its data mutably only by giving itself up; the data must
/// then pass `from_data_mut` again to be read as a value.
pub trait StrLikeMut<'a>: Sized {
    /// The data that backs the value.
    type Data: ?Sized + StrData + 'a;

    /// Why data was refused by `from_data_mut`.
    type ConvError;

    /// The units of the data the value refers to.
    spec fn data_view(&self) -> Seq<<Self::Data as StrData>::Unit>;

    /// Which data can be read as a value of this type.
    spec fn valid_data(d: Seq<<Self::Data as StrData>::Unit>) -> bool;

    /// The value is well formed: it was built by one of the conversions.
    spec fn wf(&self) -> bool;

    /// A well-formed value refers to valid data.
    proof fn lemma_wf_valid(&self)
        requires
            self.wf(),
        ensures
            Self::valid_data(self.data_view()),
    ;

    /// Gives up the value for mutable access to its data. Writes through the
    /// result may break validity; `from_data_mut` checks it again.
    fn to_data_mut(self) -> (r: &'a mut Self::Data)
        ensures
            r.units() == self.data_view(),
    ;

    /// Reads `data` as a mutable value, if it is valid.
    fn from_data_mut(data: &'a mut Self::Data) -> (r: Result<Self, Self::ConvError>)
        ensures
            r is Ok <==> Self::valid_data(old(data).units()),
            r matches Ok(v) ==> v.wf() && v.data_view() == old(data).units(),
    ;

    /// Reads `data` as a mutable value; the caller vouches for its validity.
    fn from_data_mut_unchecked(data: &'a mut Self::Data) -> (r: Self)
        requires
            Self::valid_data(old(data).units()),
        ensures
            r.wf(),
            r.data_view() == old(data).units(),
    ;
}

} // verus!
