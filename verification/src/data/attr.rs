//! Attribute bit fields (`TPMA_*`).

use vstd::prelude::*;

verus! {

/// `TPMA_CC`: the attributes of a command. The associated constants are
/// the bits of its flags.
#[derive(Debug, Clone, Copy, PartialEq, Eq, Structural)]
pub struct TpmaCc(pub u32);

impl TpmaCc {
    /// The command may write to NV memory.
    pub const NV: u32 = 0x0040_0000;
    /// The command may flush many objects.
    pub const EXTENSIVE: u32 = 0x0080_0000;
    /// The command flushes transient objects.
    pub const FLUSHED: u32 = 0x0100_0000;
    /// The response has a handle.
    pub const R_HANDLE: u32 = 0x1000_0000;
    /// The command is vendor specific.
    pub const V: u32 = 0x2000_0000;

    /// Returns the raw bits.
    pub fn bits(&self) -> (r: u32)
        ensures
            r == self.0,
    {
        self.0
    }

    /// Makes an attribute value from raw bits.
    pub fn from_bits_truncate(bits: u32) -> (r: Self)
        ensures
            r.0 == bits,
    {
        TpmaCc(bits)
    }

    /// `true` when every bit of `other` is set in `self`.
    pub fn contains(&self, other: Self) -> (r: bool)
        ensures
            r == ((self.0 & other.0) == other.0),
    {
        (self.0 & other.0) == other.0
    }

    /// Returns the `commandIndex` field: the low sixteen bits.
    pub fn command_index(self) -> (r: u16)
        ensures
            r == self.0 % 0x1_0000,
    {
        let b = self.0;
        let r = (b & 0xFFFF) as u16;
        assert((b & 0xFFFF) == b % 0x1_0000) by (bit_vector);
        r
    }

    /// Returns the `cHandles` field: the number of handles the command takes,
    /// held in bits 25 to 27.
    pub fn c_handles(self) -> (r: u8)
        ensures
            r == (self.0 / 0x200_0000) % 8,
            r < 8,
    {
        let b = self.0;
        let r = ((b >> 25) & 0x7) as u8;
        assert(((b >> 25) & 0x7) == (b / 0x200_0000) % 8) by (bit_vector);
        r
    }
}

/// `TPMA_LOCALITY`: the localities of an authorization.
#[derive(Debug, Clone, Copy, PartialEq, Eq, Structural)]
pub struct TpmaLocality(pub u8);

impl TpmaLocality {
    /// Locality zero.
    pub const LOC_ZERO: u8 = 0x01;
    /// Locality one.
    pub const LOC_ONE: u8 = 0x02;
    /// Locality two.
    pub const LOC_TWO: u8 = 0x04;
    /// Locality three.
    pub const LOC_THREE: u8 = 0x08;
    /// Locality four.
    pub const LOC_FOUR: u8 = 0x10;

    /// Returns the raw bits.
    pub fn bits(&self) -> (r: u8)
        ensures
            r == self.0,
    {
        self.0
    }

    /// Returns the `Extended` locality field: bits 5 to 7.
    pub fn extended(self) -> (r: u8)
        ensures
            r == self.0 / 32,
            r < 8,
    {
        let b = self.0;
        let r = (b >> 5) & 0x7;
        assert(((b >> 5) & 0x7) == b / 32) by (bit_vector);
        r
    }
}

/// `TPMA_OBJECT`: the attributes of an object. The associated constants are
/// the bits of its flags.
#[derive(Debug, Clone, Copy, PartialEq, Eq, Structural)]
pub struct TpmaObject(pub u32);

impl TpmaObject {
    /// The object's hierarchy may not change.
    pub const FIXED_TPM: u32 = 0x0000_0002;
    /// Saved contexts of the object are lost on a restart.
    pub const ST_CLEAR: u32 = 0x0000_0004;
    /// The object's parent may not change.
    pub const FIXED_PARENT: u32 = 0x0000_0010;
    /// The TPM generated the sensitive part.
    pub const SENSITIVE_DATA_ORIGIN: u32 = 0x0000_0020;
    /// The user role may authorize with the auth value.
    pub const USER_WITH_AUTH: u32 = 0x0000_0040;
    /// The admin role must authorize with a policy.
    pub const ADMIN_WITH_POLICY: u32 = 0x0000_0080;
    /// The object is not subject to dictionary attack protection.
    pub const NO_DA: u32 = 0x0000_0400;
    /// Duplication needs an inner wrapper.
    pub const ENCRYPTED_DUPLICATION: u32 = 0x0000_0800;
    /// The key's use is restricted to TPM-made structures.
    pub const RESTRICTED: u32 = 0x0001_0000;
    /// The key decrypts.
    pub const DECRYPT: u32 = 0x0002_0000;
    /// The key signs, or encrypts for a symmetric cipher.
    pub const SIGN_ENCRYPT: u32 = 0x0004_0000;

    /// Returns the raw bits.
    pub fn bits(&self) -> (r: u32)
        ensures
            r == self.0,
    {
        self.0
    }

    /// `true` when every bit of `other` is set in `self`.
    pub fn contains(&self, other: Self) -> (r: bool)
        ensures
            r == ((self.0 & other.0) == other.0),
    {
        (self.0 & other.0) == other.0
    }
}

/// `TPMA_NV`: the attributes of an NV index. The associated constants are
/// the bits of its flags.
#[derive(Debug, Clone, Copy, PartialEq, Eq, Structural)]
pub struct TpmaNv(pub u32);

impl TpmaNv {
    /// Platform authorization may write.
    pub const PPWRITE: u32 = 0x0000_0001;
    /// Owner authorization may write.
    pub const OWNERWRITE: u32 = 0x0000_0002;
    /// The index authorization may write.
    pub const AUTHWRITE: u32 = 0x0000_0004;
    /// The index policy may write.
    pub const POLICYWRITE: u32 = 0x0000_0008;
    /// The index is a counter.
    pub const COUNTER: u32 = 0x0000_0010;
    /// The index is a bit field.
    pub const BITS: u32 = 0x0000_0020;
    /// The index is extended like a PCR.
    pub const EXTEND: u32 = 0x0000_0040;
    /// Deletion needs the index policy.
    pub const POLICY_DELETE: u32 = 0x0000_0400;
    /// Writes are locked.
    pub const WRITELOCKED: u32 = 0x0000_0800;
    /// Writes must cover the whole index.
    pub const WRITEALL: u32 = 0x0000_1000;
    /// Writes may be locked for good.
    pub const WRITEDEFINE: u32 = 0x0000_2000;
    /// Writes may be locked until the next restart.
    pub const WRITE_STCLEAR: u32 = 0x0000_4000;
    /// The global write lock applies.
    pub const GLOBALLOCK: u32 = 0x0000_8000;
    /// Platform authorization may read.
    pub const PPREAD: u32 = 0x0001_0000;
    /// Owner authorization may read.
    pub const OWNERREAD: u32 = 0x0002_0000;
    /// The index authorization may read.
    pub const AUTHREAD: u32 = 0x0004_0000;
    /// The index policy may read.
    pub const POLICYREAD: u32 = 0x0008_0000;
    /// The index is not subject to dictionary attack protection.
    pub const NO_DA: u32 = 0x0200_0000;
    /// The index is only written to NV memory on orderly shutdown.
    pub const ORDERLY: u32 = 0x0400_0000;
    /// `WRITTEN` is cleared on a restart.
    pub const CLEAR_STCLEAR: u32 = 0x0800_0000;
    /// Reads are locked.
    pub const READLOCKED: u32 = 0x1000_0000;
    /// The index has been written.
    pub const WRITTEN: u32 = 0x2000_0000;
    /// Platform authorization defined the index.
    pub const PLATFORMCREATE: u32 = 0x4000_0000;
    /// Reads may be locked until the next restart.
    pub const READ_STCLEAR: u32 = 0x8000_0000;

    /// Returns the raw bits.
    pub fn bits(&self) -> (r: u32)
        ensures
            r == self.0,
    {
        self.0
    }

    /// `true` when every bit of `other` is set in `self`.
    pub fn contains(&self, other: Self) -> (r: bool)
        ensures
            r == ((self.0 & other.0) == other.0),
    {
        (self.0 & other.0) == other.0
    }
}

/// `TPMA_NV_EXP`: the attributes of an external NV index, the upper half
/// holding the flags beyond `TPMA_NV`.
#[derive(Debug, Clone, Copy, PartialEq, Eq, Structural)]
pub struct TpmaNvExp(pub u64);

impl TpmaNvExp {
    /// The index is encrypted.
    pub const ENCRYPTION: u64 = 0x0000_0001_0000_0000;
    /// The index is integrity protected.
    pub const INTEGRITY: u64 = 0x0000_0002_0000_0000;
    /// The index has rollback protection.
    pub const ANTIROLLBACK: u64 = 0x0000_0004_0000_0000;

    /// Returns the raw bits.
    pub fn bits(&self) -> (r: u64)
        ensures
            r == self.0,
    {
        self.0
    }
}

/// `TPMA_SESSION`: the attributes of an authorization session.
#[derive(Debug, Clone, Copy, PartialEq, Eq, Structural)]
pub struct TpmaSession(pub u8);

impl TpmaSession {
    /// The session stays open after the command.
    pub const CONTINUE_SESSION: u8 = 0x01;
    /// The command is audited exclusively.
    pub const AUDIT_EXCLUSIVE: u8 = 0x02;
    /// The audit digest is reset.
    pub const AUDIT_RESET: u8 = 0x04;
    /// The first parameter of the command is encrypted.
    pub const DECRYPT: u8 = 0x20;
    /// The first parameter of the response is encrypted.
    pub const ENCRYPT: u8 = 0x40;
    /// The session is used for audit.
    pub const AUDIT: u8 = 0x80;

    /// Returns the raw bits.
    pub fn bits(&self) -> (r: u8)
        ensures
            r == self.0,
    {
        self.0
    }

    /// `true` when every bit of `other` is set in `self`.
    pub fn contains(&self, other: Self) -> (r: bool)
        ensures
            r == ((self.0 & other.0) == other.0),
    {
        (self.0 & other.0) == other.0
    }
}

} // verus!
