//! Traits for modules that can be dispatched.

use crate::error::Error;
use vstd::prelude::*;

verus! {

/// A module whose call runs to completion on the calling thread.
pub trait Dispatch {
    type Output;

    fn call(&self) -> Result<Self::Output, Error>;
}

} // verus!
