use vstd::prelude::*;

verus! {

/// A value awaiting linear rescaling from one closed integer range into
/// another. The digest fixes three such values: the hue input over
/// [0, 4095] and the saturation and luminance inputs over [0, 255]. The
/// floating-point rescaling itself is performed by the embedding
/// application; the library fixes which value is rescaled.
pub struct Remap {
    target: u32,
}

impl View for Remap {
    type V = int;

    /// A remap value is characterised by the integer it carries.
    closed spec fn view(&self) -> int {
        self.target as int
    }
}

impl Remap {
    /// Wraps the integer to be rescaled.
    pub fn new(target: u32) -> (r: Remap)
        ensures
            r@ == target as int,
    {
        Remap { target }
    }

    /// The wrapped integer, unchanged.
    pub fn target(&self) -> (r: u32)
        ensures
            r as int == self@,
    {
        self.target
    }
}

} // verus!
