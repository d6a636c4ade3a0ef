//! Protocol-wide size limits.

use vstd::prelude::*;

verus! {

/// Size of the command and response header: tag, size and code.
pub const TPM_HEADER_SIZE: usize = 10;

/// Largest command or response frame handled.
pub const TPM_MAX_COMMAND_SIZE: usize = 4096;

/// Largest number of authorization sessions in one frame.
pub const MAX_SESSIONS: usize = 3;

/// Largest number of handles in one handle area.
pub const MAX_HANDLES: usize = 3;

/// Largest digest size of any supported hash algorithm.
pub const MAX_DIGEST_SIZE: usize = 64;

/// Largest ECC coordinate or parameter, in bytes (a P-521 coordinate).
pub const MAX_ECC_KEY_BYTES: usize = 66;

/// Largest RSA modulus, in bytes (a 4096-bit key).
pub const MAX_RSA_KEY_BYTES: usize = 512;

/// Largest RSA private prime, in bytes: half a modulus.
pub const MAX_RSA_PRIVATE_BYTES: usize = 256;

/// Largest symmetric key, in bytes.
pub const MAX_SYM_KEY_BYTES: usize = 32;

/// Largest sealed data object, in bytes.
pub const MAX_SENSITIVE_DATA: usize = 256;

/// Largest NV read or write, in bytes.
pub const MAX_NV_BUFFER_SIZE: usize = 1024;

/// Largest name: a digest behind its two-byte algorithm.
pub const MAX_NAME_SIZE: usize = 66;

/// Largest number of banks in a PCR selection list.
pub const MAX_PCR_SELECTIONS: usize = 8;

/// The magic number at the start of TPM-made attestation data.
pub const TPM_GENERATED_VALUE: u32 = 0xFF54_4347;

/// Largest number of bytes in a PCR selection bitmap.
pub const TPM_PCR_SELECT_MAX: usize = 4;

} // verus!
