use vstd::prelude::*;

verus! {

/// An 8-bit red/green/blue colour triple, channel order red/green/blue.
/// Equality is exact, channel by channel.
#[derive(Clone, Copy, Debug, PartialEq, Eq, Structural)]
pub struct RGB {
    pub red: u8,
    pub green: u8,
    pub blue: u8,
}

/// The fixed background colour of every rendered buffer.
pub open spec fn background() -> RGB {
    RGB { red: 240, green: 240, blue: 240 }
}

} // verus!
