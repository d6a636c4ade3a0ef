use vstd::prelude::*;

verus! {

/// Errors of the TPM protocol layer: framing, marshaling and unmarshaling.
///
/// Each variant carries the byte offset (relative to the start of the buffer
/// being processed) at which the problem was found.
#[derive(Debug, Clone, Copy, PartialEq, Eq, Structural)]
pub enum TpmError {
    /// The buffer ended before `needed` bytes could be read; only
    /// `available` were left.
    UnexpectedEnd { offset: usize, needed: usize, available: usize },
    /// `actual` bytes were left over after the frame.
    TrailingData { offset: usize, actual: usize },
    /// A size or length field does not fit the integer type that holds it.
    IntegerTooLarge { offset: usize, value: u64 },
    /// The tag is not defined, or not allowed at this position.
    InvalidTag { offset: usize, value: u64 },
    /// The command code is not defined.
    InvalidCc { offset: usize, value: u64 },
    /// The response code is not defined.
    InvalidRc { offset: usize, value: u64 },
    /// A list holds more items than its capacity `limit`.
    TooManyItems { offset: usize, limit: usize, actual: usize },
    /// A value has no variant in the enumeration it encodes.
    VariantNotAvailable { offset: usize, value: u64 },
    /// A value does not encode any variant of the enumeration it stands for.
    InvalidDiscriminant { value: u64 },
    /// A value is defined but not allowed where it stands.
    MalformedValue,
    /// A boolean byte is neither 0 nor 1.
    InvalidBoolean { offset: usize, value: u64 },
    /// A structure does not start with the magic number of TPM-made data.
    InvalidMagicNumber { offset: usize, value: u64 },
    /// The output buffer has no room for `needed` more bytes.
    BufferOverflow { offset: usize, needed: usize, available: usize },
}

/// The result type of the TPM protocol layer.
pub type TpmResult<T> = Result<T, TpmError>;

} // verus!
