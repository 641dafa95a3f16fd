//! Small helpers that the rest of the library, and its users, lean on.

use vstd::prelude::*;
use vstd::string::StringExecFns;

verus! {

/// Accepts any value that can be sent to another thread.
pub fn assert_send<T: Send>(_value: T) {
}

/// Accepts any value that can be shared between threads.
pub fn assert_sync<T: Sync>(_value: T) {
}

/// Accepts any value that can be both sent to and shared between threads.
pub fn assert_send_sync<T: Send + Sync>(_value: T) {
}

/// A trait that encompasses all types.
pub trait Any {

}

impl<T> Any for T {

}

/// An opaque error that stands for any other error.
#[derive(Copy, Clone, Debug, Hash, PartialEq, Eq, PartialOrd, Ord)]
pub struct BlackHole;

impl BlackHole {
    /// The failure that holds this error, for any type of success.
    pub fn into_result<T>(self) -> (r: Result<T, BlackHole>)
        ensures
            r == Err::<T, BlackHole>(BlackHole),
    {
        Err(BlackHole)
    }

    /// The text shown for the error: its name on a line of its own.
    pub fn to_string(&self) -> (r: String)
        ensures
            r@ == "BlackHole\n"@,
    {
        String::from_str("BlackHole\n")
    }
}

/// A wrapper around an item of any type.
pub struct DefaultDebug<T>(pub T);

impl<T> DefaultDebug<T> {
    /// The wrapped item.
    pub fn get(&self) -> (r: &T)
        ensures
            *r == self.0,
    {
        &self.0
    }

    /// The wrapped item, to change it in place.
    pub fn get_mut(&mut self) -> (r: &mut T)
        ensures
            *r == old(self).0,
            final(self).0 == *final(r),
    {
        &mut self.0
    }
}

/// `core::slice::from_ref` gives the slice of length one that holds the
/// item.
#[verifier::external_body]
pub fn as_slice<T>(item: &T) -> (r: &[T])
    ensures
        r@ == seq![*item],
{
    core::slice::from_ref(item)
}

/// `core::slice::from_mut` gives the slice of length one that holds the
/// item: what is written to its one element is written to the item.
#[verifier::external_body]
pub fn as_slice_mut<T>(item: &mut T) -> (r: &mut [T])
    ensures
        r@ == seq![*old(item)],
        final(r)@.len() == 1,
        *final(item) == final(r)@[0],
{
    core::slice::from_mut(item)
}

/// Convert an `Option<T>` into a zero or single element slice of `T`.
pub fn option_as_slice<T>(value: &Option<T>) -> (r: &[T])
    ensures
        r@ == match *value {
            Some(x) => seq![x],
            None => Seq::empty(),
        },
{
    let r = value.as_slice();
    assert(r@ =~= match *value {
        Some(x) => seq![x],
        None => Seq::empty(),
    });
    r
}

/// Convert an `Option<T>` into a zero or single element slice of `T`, to
/// change the element in place.
pub fn option_as_slice_mut<T>(value: &mut Option<T>) -> (r: &mut [T])
    ensures
        r@ == match *old(value) {
            Some(x) => seq![x],
            None => Seq::empty(),
        },
        final(r)@.len() == r@.len(),
        *final(value) == match *old(value) {
            Some(_) => Some(final(r)@[0]),
            None => None,
        },
{
    value.as_mut_slice()
}

/// Extensions to `std::vec::Vec`.
pub trait VecExt {
    /// Clears this `Vec<T>`.
    fn clear_vec(&mut self);
}

impl<T> VecExt for Vec<T> {
    fn clear_vec(&mut self)
        ensures
            final(self)@ == Seq::<T>::empty(),
    {
        self.clear();
    }
}

/// Extensions to `bool`.
pub trait BoolExt {
    /// Converts a true into `Some(())` and false into `None`.
    fn as_option(&self) -> Option<()>;
}

impl BoolExt for bool {
    fn as_option(&self) -> (r: Option<()>)
        ensures
            r is Some <==> *self,
    {
        match *self {
            true => Some(()),
            false => None,
        }
    }
}

} // verus!
