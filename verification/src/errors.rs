use vstd::prelude::*;

verus! {

/// Outcomes of header decoding and validation that are reported as errors.
///
/// `TruncatedInput` is structural and aborts decoding; the three content
/// checks are independent of each other and of decoding, so a caller may
/// tolerate any of them.
#[derive(Clone, Copy, Debug, PartialEq, Eq, Structural)]
pub enum HeaderError {
    /// The buffer is shorter than the minimum header span of 0x0150 bytes.
    TruncatedInput,
    /// The decoded logo bytes differ from the canonical boot-logo signature.
    LogoMismatch,
    /// The computed header checksum disagrees with the stored byte.
    HeaderChecksumMismatch,
    /// The computed global checksum disagrees with the stored word.
    GlobalChecksumMismatch,
}

} // verus!
