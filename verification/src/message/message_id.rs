//! The 8-bit message identifier carried by every frame.

use vstd::prelude::*;

verus! {

/// Opaque 8-bit message identifier.
#[derive(Debug, Copy, Clone, PartialEq, Eq, Structural, Hash)]
pub struct MessageId(pub u8);

impl MessageId {
    pub fn new(id: u8) -> (r: Self)
        ensures
            r.0 == id,
    {
        MessageId(id)
    }
}

} // verus!
