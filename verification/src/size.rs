//! Sizes in bytes, with the text that shows them to the user.

use vstd::prelude::*;

verus! {

/// A number of bytes, and how it is shown (`1.0 TB`).
#[derive(Debug, Clone, PartialEq, Eq)]
pub struct ByteSize {
    pub bytes: u64,
    /// The size in the unit that fits it. It is made with floating-point
    /// arithmetic, so nothing is stated of it.
    pub text: String,
}

/// The text that the `bytesize` crate's `Display` gives for a size. The
/// crate computes it with floating point; the contract promises nothing.
#[verifier::external_body]
fn display_text(bytes: u64) -> (r: String) {
    bytesize::ByteSize(bytes).to_string()
}

/// `ByteSize::gb` of the `bytesize` crate: `size` gigabytes of a thousand
/// million bytes each. The crate multiplies without a check, so sizes whose
/// product does not fit are left out.
#[verifier::external_body]
fn gigabytes(size: u64) -> (r: u64)
    requires
        size * 1_000_000_000 <= u64::MAX,
    ensures
        r == size * 1_000_000_000,
{
    bytesize::ByteSize::gb(size).as_u64()
}

impl ByteSize {
    /// The size of `bytes` bytes.
    pub fn new(bytes: u64) -> (r: ByteSize)
        ensures
            r.bytes == bytes,
    {
        ByteSize { bytes, text: display_text(bytes) }
    }

    /// The size of `size` gigabytes.
    pub fn gb(size: u64) -> (r: ByteSize)
        requires
            size * 1_000_000_000 <= u64::MAX,
        ensures
            r.bytes == size * 1_000_000_000,
    {
        ByteSize::new(gigabytes(size))
    }

    /// A copy of this size.
    pub fn duplicate(&self) -> (r: ByteSize)
        ensures
            r == *self,
    {
        ByteSize { bytes: self.bytes, text: self.text.clone() }
    }
}

} // verus!
