//! A trait to obtain a single value from a type.

use vstd::prelude::*;

verus! {

/// A trait to obtain a single value from type.
pub trait Get<I> {
    fn get() -> I;
}

/// Anything that has a default value can be had from the unit type.
impl<T> Get<T> for () where T: Default {
    fn get() -> (value: T)
        ensures
            call_ensures(T::default, (), value),
    {
        T::default()
    }
}

} // verus!
