//! What backing data and owned backing data must be able to do.
use vstd::prelude::*;

use extra_default::DefaultRef;
use len_trait::SplitAt;

verus! {

/// Data that can back a string-like value: a contiguous run of units that can
/// be measured, split in two, copied into a box, and has an empty instance.
pub trait StrData {
    /// One unit of the data (a byte, an element).
    type Unit;

    /// The units of the data, in order.
    spec fn units(&self) -> Seq<Self::Unit>;

    /// Number of units.
    fn data_len(&self) -> (r: usize)
        ensures
            r == self.units().len(),
    ;

    /// Splits the data into the units before `at` and those from `at` on.
    fn split_data(&self, at: usize) -> (r: (&Self, &Self))
        requires
            at <= self.units().len(),
        ensures
            r.0.units() == self.units().take(at as int),
            r.1.units() == self.units().skip(at as int),
    ;

    /// A reference to the empty instance.
    fn default_data<'b>() -> (r: &'b Self)
        ensures
            r.units().len() == 0,
    ;

    /// An owned copy of the data in a box.
    fn to_boxed(&self) -> (r: Box<Self>)
        ensures
            (*r).units() == self.units(),
    ;
}

/// Owned storage for data of type `D`: it can be split, grown, extended by a
/// borrowed piece of data, borrowed as data, and turned into a box.
pub trait OwnsStrData<D: ?Sized + StrData>: Sized {
    /// The units held, in order.
    spec fn owned_units(&self) -> Seq<D::Unit>;

    /// Keeps the units before `at` and returns the rest as a new owned value.
    fn split_off_data(&mut self, at: usize) -> (r: Self)
        requires
            at <= old(self).owned_units().len(),
        ensures
            final(self).owned_units() == old(self).owned_units().take(at as int),
            r.owned_units() == old(self).owned_units().skip(at as int),
    ;

    /// Makes room for at least `additional` more units; the contents stay.
    fn reserve_data(&mut self, additional: usize)
        ensures
            final(self).owned_units() == old(self).owned_units(),
    ;

    /// Appends a copy of `data`.
    fn push_data(&mut self, data: &D)
        ensures
            final(self).owned_units() == old(self).owned_units() + data.units(),
    ;

    /// Borrows the storage as data.
    fn as_data(&self) -> (r: &D)
        ensures
            r.units() == self.owned_units(),
    ;

    /// Turns the storage into a boxed instance of the data.
    fn into_boxed(self) -> (r: Box<D>)
        ensures
            (*r).units() == self.owned_units(),
    ;
}

/// Relies on `len_trait::SplitAt::split_at` for slices, which hands the call
/// to the slice's own `split_at`: the first part holds the elements before
/// `at`, the second the rest. It panics past the end, which `requires` rules out.
#[verifier::external_body]
fn split_slice<T>(s: &[T], at: usize) -> (r: (&[T], &[T]))
    requires
        at <= s@.len(),
    ensures
        r.0@ == s@.take(at as int),
        r.1@ == s@.skip(at as int),
{
    SplitAt::split_at(s, at)
}

/// Relies on `extra_default::DefaultRef::default_ref` for slices, which
/// returns `Default::default()` of `&[T]`: the empty slice.
#[verifier::external_body]
fn empty_slice<'b, T>() -> (r: &'b [T])
    ensures
        r@.len() == 0,
{
    <[T] as DefaultRef>::default_ref()
}

/// Relies on `From<&[T]> for Box<[T]>`: a box holding a copy of the elements.
#[verifier::external_body]
fn box_slice<T: Copy>(s: &[T]) -> (r: Box<[T]>)
    ensures
        r@ == s@,
{
    Box::from(s)
}

/// Relies on `Vec::into_boxed_slice`: the same elements, in a box.
#[verifier::external_body]
fn vec_into_box<T>(v: Vec<T>) -> (r: Box<[T]>)
    ensures
        r@ == v@,
{
    v.into_boxed_slice()
}

impl<T: Copy> StrData for [T] {
    type Unit = T;

    open spec fn units(&self) -> Seq<T> {
        self@
    }

    fn data_len(&self) -> (r: usize) {
        self.len()
    }

    fn split_data(&self, at: usize) -> (r: (&[T], &[T])) {
        split_slice(self, at)
    }

    fn default_data<'b>() -> (r: &'b [T]) {
        empty_slice()
    }

    fn to_boxed(&self) -> (r: Box<[T]>) {
        box_slice(self)
    }
}

impl<T: Copy> OwnsStrData<[T]> for Vec<T> {
    open spec fn owned_units(&self) -> Seq<T> {
        self@
    }

    fn split_off_data(&mut self, at: usize) -> (r: Vec<T>) {
        let r = self.split_off(at);
        proof {
            assert(final(self)@ =~= old(self)@.take(at as int));
            assert(r@ =~= old(self)@.skip(at as int));
        }
        r
    }

    fn reserve_data(&mut self, additional: usize) {
        self.reserve(additional);
    }

    fn push_data(&mut self, data: &[T]) {
        let n: usize = data.len();
        let mut i: usize = 0;
        while i < n
            invariant
                n == data@.len(),
                i <= n,
                self@ == old(self)@ + data@.take(i as int),
            decreases n - i,
        {
            self.push(data[i]);
            i = i + 1;
            proof {
                assert(self@ =~= old(self)@ + data@.take(i as int));
            }
        }
        proof {
            assert(data@.take(n as int) =~= data@);
        }
    }

    fn as_data(&self) -> (r: &[T]) {
        self.as_slice()
    }

    fn into_boxed(self) -> (r: Box<[T]>) {
        vec_into_box(self)
    }
}

} // verus!
