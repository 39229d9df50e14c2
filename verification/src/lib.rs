use vstd::prelude::*;
use vstd::slice::slice_to_vec;
use vstd::string::StringSliceAdditionalSpecFns;

pub mod color;
pub mod nibbler;
pub mod pattern;
pub mod raster;
pub mod remap;

pub use color::RGB;
pub use nibbler::Nibbler;
pub use remap::Remap;

use pattern::color_bits;
use pattern::derive_mask;
use pattern::hue_bits_of;
use pattern::mask_of;
use raster::raster_of;
use raster::rasterize;

verus! {

/// The 32-byte SHA-256 digest of a byte sequence.
pub uninterp spec fn sha256_of(bytes: Seq<u8>) -> Seq<u8>;

/// Relies on `hmac_sha256::Hash::hash`: the 32-byte SHA-256 digest of the
/// input, a function of the input bytes alone.
#[verifier::external_body]
fn sha256(input: &[u8]) -> (r: Vec<u8>)
    ensures
        r@ == sha256_of(input@),
        r@.len() == 32,
{
    hmac_sha256::Hash::hash(input).to_vec()
}

/// The buffer an input hashing to `digest` renders to, once a foreground
/// colour is fixed: the symmetric mask of the digest painted onto the
/// 560 by 560 raster.
pub open spec fn buffer_of(digest: Seq<u8>, fg: RGB) -> Seq<RGB> {
    raster_of(mask_of(digest), fg)
}

/// Generating twice from the same input yields bit-identical buffers: the
/// digest, the mask and every pixel are functions of the input alone.
pub proof fn lemma_deterministic(a: Seq<u8>, b: Seq<u8>, fg: RGB)
    requires
        a == b,
    ensures
        buffer_of(sha256_of(a), fg) == buffer_of(sha256_of(b), fg),
{
}

/// A visual fingerprint of an input string: its output edge length, fixed
/// at 560 pixels, and the 32-byte digest of the input, from which the mask,
/// the colour inputs and the pixel buffer are derived on demand.
pub struct Identicon {
    size: u32,
    hash: Vec<u8>,
}

impl View for Identicon {
    type V = Seq<u8>;

    /// An identicon is characterised by its digest.
    closed spec fn view(&self) -> Seq<u8> {
        self.hash@
    }
}

impl Identicon {
    /// The digest holds exactly 32 bytes and the edge length is 560.
    pub closed spec fn wf(&self) -> bool {
        self.hash@.len() == 32 && self.size == 560
    }

    /// Creates the identicon of an input string: the string's bytes are
    /// hashed once, and everything else derives from that digest.
    pub fn new(source: &str) -> (r: Identicon)
        ensures
            r.wf(),
            r@ == sha256_of(source.spec_bytes()),
            r@.len() == 32,
    {
        let hash = sha256(source.as_bytes());
        Identicon { size: 560, hash }
    }

    /// The edge length of the output buffer, in pixels.
    pub fn size(&self) -> (r: u32)
        requires
            self.wf(),
        ensures
            r == 560,
    {
        self.size
    }

    /// A copy of the 32-byte digest.
    pub fn digest(&self) -> (r: Vec<u8>)
        requires
            self.wf(),
        ensures
            r@ == self@,
            r@.len() == 32,
    {
        slice_to_vec(self.hash.as_slice())
    }

    /// The 49-element symmetric pixel mask derived from the digest,
    /// row-major over the 7 by 7 grid.
    pub fn pixels(&self) -> (r: Vec<bool>)
        requires
            self.wf(),
        ensures
            r@ == mask_of(self@),
            r@.len() == 49,
    {
        derive_mask(&self.hash)
    }

    /// The three colour inputs the digest fixes: the 12-bit hue value from
    /// bytes 28 and 29, the saturation byte 30 and the luminance byte 31.
    pub fn pattern_bits(&self) -> (r: (u16, u8, u8))
        requires
            self.wf(),
        ensures
            r.0 as int == hue_bits_of(self@),
            r.0 <= 4095,
            r.1 == self@[30],
            r.2 == self@[31],
    {
        color_bits(&self.hash)
    }

    /// Renders the identicon with the given foreground colour: the mask of
    /// the digest painted onto the fixed 560 by 560 row-major buffer.
    pub fn generate(&self, foreground: RGB) -> (r: Vec<RGB>)
        requires
            self.wf(),
        ensures
            r@ == buffer_of(self@, foreground),
            r@.len() == 560 * 560,
    {
        let mask = self.pixels();
        rasterize(&mask, foreground)
    }
}

} // verus!
