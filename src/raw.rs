//! Arbitrary element sequences: the data is the sequence itself and every
//! sequence is valid.
use vstd::prelude::*;

use core::convert::Infallible;

use crate::data::StrData;
use crate::strlike::{DataConcat, StrLike, StrLikeMut};

verus! {

impl<'a, T: Copy + 'a> StrLike<'a> for &'a [T] {
    type Data = [T];

    type OwnedData = Vec<T>;

    type ConvError = Infallible;

    open spec fn data_view(&self) -> Seq<T> {
        (**self)@
    }

    open spec fn valid_data(d: Seq<T>) -> bool {
        true
    }

    open spec fn wf(&self) -> bool {
        true
    }

    proof fn lemma_wf_valid(&self) {
    }

    fn to_data(&self) -> (r: &'a [T]) {
        *self
    }

    fn from_data(data: &'a [T]) -> (r: Result<&'a [T], Infallible>) {
        Ok(data)
    }

    fn from_data_unchecked(data: &'a [T]) -> (r: &'a [T]) {
        data
    }
}

impl<'a, T: Copy + 'a> DataConcat<'a> for &'a [T] {
    proof fn lemma_concat_valid(d1: Seq<T>, d2: Seq<T>) {
    }
}

impl<'a, T: Copy + 'a> StrLikeMut<'a> for &'a mut [T] {
    type Data = [T];

    type ConvError = Infallible;

    open spec fn data_view(&self) -> Seq<T> {
        (**self)@
    }

    open spec fn valid_data(d: Seq<T>) -> bool {
        true
    }

    open spec fn wf(&self) -> bool {
        true
    }

    proof fn lemma_wf_valid(&self) {
    }

    fn to_data_mut(self) -> (r: &'a mut [T]) {
        self
    }

    fn from_data_mut(data: &'a mut [T]) -> (r: Result<&'a mut [T], Infallible>) {
        Ok(data)
    }

    fn from_data_mut_unchecked(data: &'a mut [T]) -> (r: &'a mut [T]) {
        data
    }
}

} // verus!
