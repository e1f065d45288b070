//! Flash memory interface.

use vstd::prelude::*;

verus! {

/// Extension trait to constrain the flash peripheral.
pub trait FlashExt {
    /// Constrains the flash peripheral: the handle is used up, and from then on the access
    /// token in the returned parts is the only way to the access control register.
    fn constrain(self) -> Parts;
}

/// The flash peripheral as the device hands it out. It cannot be copied, and constraining it
/// uses it up, so one handle yields one token.
pub struct FlashHandle {
    _0: (),
}

impl FlashHandle {
    /// The handle of the device's flash interface. There is one interface, so make one
    /// handle, where the peripherals of the device are taken.
    pub fn new() -> FlashHandle {
        FlashHandle { _0: () }
    }
}

impl FlashExt for FlashHandle {
    fn constrain(self) -> Parts {
        Parts { acr: ACR { _0: () } }
    }
}

/// Constrained flash peripheral.
pub struct Parts {
    /// Token of the access control register.
    pub acr: ACR,
}

/// Token of the access control register (ACR). Whoever holds it is the only one who may
/// write the register.
pub struct ACR {
    _0: (),
}

} // verus!
