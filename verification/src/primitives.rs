//! Types that provide a constant through the `Get` trait: the value is a
//! parameter of the type, so a type alone can stand for it.

use crate::traits::get::Get;
use vstd::prelude::*;

verus! {

/// Provides the `u8` constant `T`.
pub struct ConstU8<const T: u8>;

impl<const T: u8> Get<u8> for ConstU8<T> {
    fn get() -> (value: u8)
        ensures
            value == T,
    {
        T
    }
}

/// Provides the `u16` constant `T`.
pub struct ConstU16<const T: u16>;

impl<const T: u16> Get<u16> for ConstU16<T> {
    fn get() -> (value: u16)
        ensures
            value == T,
    {
        T
    }
}

/// Provides the `u32` constant `T`.
pub struct ConstU32<const T: u32>;

impl<const T: u32> Get<u32> for ConstU32<T> {
    fn get() -> (value: u32)
        ensures
            value == T,
    {
        T
    }
}

/// Provides the `u64` constant `T`.
pub struct ConstU64<const T: u64>;

impl<const T: u64> Get<u64> for ConstU64<T> {
    fn get() -> (value: u64)
        ensures
            value == T,
    {
        T
    }
}

/// Provides the `u128` constant `T`.
pub struct ConstU128<const T: u128>;

impl<const T: u128> Get<u128> for ConstU128<T> {
    fn get() -> (value: u128)
        ensures
            value == T,
    {
        T
    }
}

/// Provides the `usize` constant `T`.
pub struct ConstUsize<const T: usize>;

impl<const T: usize> Get<usize> for ConstUsize<T> {
    fn get() -> (value: usize)
        ensures
            value == T,
    {
        T
    }
}

/// Provides the `bool` constant `T`.
pub struct ConstBool<const T: bool>;

impl<const T: bool> Get<bool> for ConstBool<T> {
    fn get() -> (value: bool)
        ensures
            value == T,
    {
        T
    }
}

} // verus!
