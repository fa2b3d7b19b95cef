//! Closing: turning a live value into the value that is written.

use vstd::prelude::*;

verus! {

/// A value that can be closed: stopped, collected, made final.
///
/// Where it can be done, both the value and a reference to it are closed, so
/// that the value can also be closed behind a smart pointer.
pub trait CloseValue {
    /// What closing yields.
    type Closed;

    /// Closes the value.
    fn close(self) -> Self::Closed;
}

/// Keeps `CloseValueRef` to the types that it is given to here.
pub trait Sealed {}

/// A value that can be closed without giving it up. Every type whose
/// references can be closed has this, and no other type.
pub trait CloseValueRef: Sealed {
    /// What closing yields.
    type Closed;

    /// Closes the value behind the reference.
    fn close_ref(&self) -> Self::Closed;
}

impl<C, T> Sealed for T where for <'a>&'a T: CloseValue<Closed = C> {}

impl<C, T> CloseValueRef for T where for <'a>&'a T: CloseValue<Closed = C> {
    type Closed = C;

    fn close_ref(&self) -> (r: C)
        ensures
            call_ensures(<&T as CloseValue>::close, (self,), r),
    {
        <&T as CloseValue>::close(self)
    }
}

} // verus!
