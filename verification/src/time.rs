//! Duration wrappers used when programming the real-time counter.

use vstd::prelude::*;

verus! {

/// A duration expressed in whole seconds.
pub struct Seconds<T>(pub T);

/// A duration expressed in milliseconds.
pub struct MilliSeconds<T>(pub T);

/// A duration expressed in raw counter ticks.
pub struct Ticks<T>(pub T);

/// Attaches unit constructors to a bare number.
pub trait Unit where Self: core::marker::Sized {
    fn s(self) -> (r: Seconds<Self>)
        ensures
            r.0 == self,
    ;

    fn ms(self) -> (r: MilliSeconds<Self>)
        ensures
            r.0 == self,
    ;

    fn ticks(self) -> (r: Ticks<Self>)
        ensures
            r.0 == self,
    ;
}

impl Unit for u32 {
    fn s(self) -> (r: Seconds<Self>) {
        Seconds(self)
    }

    fn ms(self) -> (r: MilliSeconds<Self>) {
        MilliSeconds(self)
    }

    fn ticks(self) -> (r: Ticks<Self>) {
        Ticks(self)
    }
}

} // verus!
