//! Frequency units.

use vstd::prelude::*;

verus! {

/// A frequency in cycles per second.
#[derive(Clone, Copy, PartialEq, Eq, Debug)]
pub struct Hertz(pub u32);

} // verus!
