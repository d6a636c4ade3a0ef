//! The symmetric algorithm definition (`TPMT_SYM_DEF`) and its unions.

use crate::data::alg::{lemma_alg_id_value_roundtrip, spec_tpm_alg_id_from_u16, TpmAlgId};
use crate::error::{TpmError, TpmResult};
use crate::frame::codec::{
    lemma_be16_roundtrip, lemma_split_run, push_u16, read_u16, spec_be16, spec_be16_bytes,
};
use vstd::prelude::*;
use vstd::slice::slice_subrange;

verus! {

/// The key size of a symmetric algorithm (`TPMU_SYM_KEY_BITS`).
#[derive(Debug, Clone, Copy, PartialEq, Eq, Structural)]
pub enum TpmuSymKeyBits {
    Aes(u16),
    Sm4(u16),
    Camellia(u16),
    Xor(TpmAlgId),
    Null,
}

/// The mode of a symmetric algorithm (`TPMU_SYM_MODE`).
#[derive(Debug, Clone, Copy, PartialEq, Eq, Structural)]
pub enum TpmuSymMode {
    Aes(TpmAlgId),
    Sm4(TpmAlgId),
    Camellia(TpmAlgId),
    Xor(TpmAlgId),
    Null,
}

/// A symmetric algorithm definition (`TPMT_SYM_DEF`).
#[derive(Debug, Clone, Copy, PartialEq, Eq, Structural)]
pub struct TpmtSymDef {
    pub algorithm: TpmAlgId,
    pub key_bits: TpmuSymKeyBits,
    pub mode: TpmuSymMode,
}

/// The wire bytes of a key size.
pub open spec fn spec_key_bits_bytes(k: TpmuSymKeyBits) -> Seq<u8> {
    match k {
        TpmuSymKeyBits::Aes(v) | TpmuSymKeyBits::Sm4(v) | TpmuSymKeyBits::Camellia(v) => spec_be16_bytes(v),
        TpmuSymKeyBits::Xor(a) => spec_be16_bytes(a.spec_value()),
        TpmuSymKeyBits::Null => Seq::empty(),
    }
}

/// The wire bytes of a mode.
pub open spec fn spec_mode_bytes(m: TpmuSymMode) -> Seq<u8> {
    match m {
        TpmuSymMode::Aes(a) | TpmuSymMode::Sm4(a) | TpmuSymMode::Camellia(a) | TpmuSymMode::Xor(a) => spec_be16_bytes(
            a.spec_value(),
        ),
        TpmuSymMode::Null => Seq::empty(),
    }
}

impl TpmtSymDef {
    /// The wire bytes: the algorithm, then, unless it is `Null`, the key size
    /// and the mode.
    pub open spec fn spec_bytes(self) -> Seq<u8> {
        if self.algorithm == TpmAlgId::Null {
            spec_be16_bytes(self.algorithm.spec_value())
        } else {
            spec_be16_bytes(self.algorithm.spec_value()) + spec_key_bits_bytes(self.key_bits)
                + spec_mode_bytes(self.mode)
        }
    }

    /// The key size and the mode are of the algorithm's own kind.
    pub open spec fn wf(self) -> bool {
        match self.algorithm {
            TpmAlgId::Null => self.key_bits == TpmuSymKeyBits::Null && self.mode == TpmuSymMode::Null,
            TpmAlgId::Aes => self.key_bits is Aes && self.mode is Aes,
            TpmAlgId::Sm4 => self.key_bits is Sm4 && self.mode is Sm4,
            TpmAlgId::Camellia => self.key_bits is Camellia && self.mode is Camellia,
            TpmAlgId::Xor => self.key_bits is Xor && self.mode is Xor,
            _ => false,
        }
    }
}

/// Reads a `u16` at `pos`.
pub open spec fn spec_read_u16(s: Seq<u8>, pos: int) -> TpmResult<(u16, int)> {
    if s.len() - pos < 2 {
        Err(TpmError::UnexpectedEnd { offset: pos as usize, needed: 2, available: (s.len() - pos) as usize })
    } else {
        Ok((spec_be16(s, pos), pos + 2))
    }
}

/// Reads an algorithm identifier at `pos`.
pub open spec fn spec_read_alg(s: Seq<u8>, pos: int) -> TpmResult<(TpmAlgId, int)> {
    match spec_read_u16(s, pos) {
        Err(e) => Err(e),
        Ok((v, next)) => match spec_tpm_alg_id_from_u16(v) {
            None => Err(TpmError::VariantNotAvailable { offset: 0, value: v as u64 }),
            Some(a) => Ok((a, next)),
        },
    }
}

/// Reads the key size of `alg` at `pos`.
pub open spec fn spec_read_key_bits(alg: TpmAlgId, s: Seq<u8>, pos: int) -> TpmResult<(TpmuSymKeyBits, int)> {
    match alg {
        TpmAlgId::Aes => match spec_read_u16(s, pos) {
            Err(e) => Err(e),
            Ok((v, next)) => Ok((TpmuSymKeyBits::Aes(v), next)),
        },
        TpmAlgId::Sm4 => match spec_read_u16(s, pos) {
            Err(e) => Err(e),
            Ok((v, next)) => Ok((TpmuSymKeyBits::Sm4(v), next)),
        },
        TpmAlgId::Camellia => match spec_read_u16(s, pos) {
            Err(e) => Err(e),
            Ok((v, next)) => Ok((TpmuSymKeyBits::Camellia(v), next)),
        },
        TpmAlgId::Xor => match spec_read_alg(s, pos) {
            Err(e) => Err(e),
            Ok((a, next)) => Ok((TpmuSymKeyBits::Xor(a), next)),
        },
        TpmAlgId::Null => Ok((TpmuSymKeyBits::Null, pos)),
        _ => Err(TpmError::MalformedValue),
    }
}

/// Reads the mode of `alg` at `pos`.
pub open spec fn spec_read_mode(alg: TpmAlgId, s: Seq<u8>, pos: int) -> TpmResult<(TpmuSymMode, int)> {
    match alg {
        TpmAlgId::Aes | TpmAlgId::Sm4 | TpmAlgId::Camellia | TpmAlgId::Xor => match spec_read_alg(s, pos) {
            Err(e) => Err(e),
            Ok((a, next)) => Ok((
                match alg {
                    TpmAlgId::Aes => TpmuSymMode::Aes(a),
                    TpmAlgId::Sm4 => TpmuSymMode::Sm4(a),
                    TpmAlgId::Camellia => TpmuSymMode::Camellia(a),
                    _ => TpmuSymMode::Xor(a),
                },
                next,
            )),
        },
        TpmAlgId::Null => Ok((TpmuSymMode::Null, pos)),
        _ => Err(TpmError::MalformedValue),
    }
}

/// Reads a symmetric algorithm definition at `pos`: the algorithm; for
/// `Null` nothing more; for AES, SM4 and Camellia a key size and a mode; for
/// XOR a hash algorithm and a mode. Any other algorithm is malformed here.
pub open spec fn spec_unmarshal_sym_def(s: Seq<u8>, pos: int) -> TpmResult<(TpmtSymDef, int)> {
    match spec_read_alg(s, pos) {
        Err(e) => Err(e),
        Ok((algorithm, p1)) => if algorithm == TpmAlgId::Null {
            Ok((TpmtSymDef { algorithm, key_bits: TpmuSymKeyBits::Null, mode: TpmuSymMode::Null }, p1))
        } else {
            match spec_read_key_bits(algorithm, s, p1) {
                Err(e) => Err(e),
                Ok((key_bits, p2)) => match spec_read_mode(algorithm, s, p2) {
                    Err(e) => Err(e),
                    Ok((mode, p3)) => Ok((TpmtSymDef { algorithm, key_bits, mode }, p3)),
                },
            }
        },
    }
}

pub(crate) fn read_u16_at(buf: &[u8], pos: usize) -> (r: TpmResult<(u16, usize)>)
    requires
        pos <= buf@.len(),
    ensures
        match spec_read_u16(buf@, pos as int) {
            Ok((v, next)) => r matches Ok((w, q)) && w == v && q == next && pos <= next <= buf@.len(),
            Err(e) => r == Err::<(u16, usize), TpmError>(e),
        },
{
    if buf.len() - pos < 2 {
        Err(TpmError::UnexpectedEnd { offset: pos, needed: 2, available: buf.len() - pos })
    } else {
        Ok((read_u16(buf, pos), pos + 2))
    }
}

pub(crate) fn read_alg_at(buf: &[u8], pos: usize) -> (r: TpmResult<(TpmAlgId, usize)>)
    requires
        pos <= buf@.len(),
    ensures
        match spec_read_alg(buf@, pos as int) {
            Ok((a, next)) => r matches Ok((w, q)) && w == a && q == next && pos <= next <= buf@.len(),
            Err(e) => r == Err::<(TpmAlgId, usize), TpmError>(e),
        },
{
    let (v, next) = read_u16_at(buf, pos)?;
    match TpmAlgId::from_u16(v) {
        None => Err(TpmError::VariantNotAvailable { offset: 0, value: v as u64 }),
        Some(a) => Ok((a, next)),
    }
}

impl TpmtSymDef {
    /// Returns the number of wire bytes.
    pub fn len(&self) -> (r: usize)
        ensures
            r == self.spec_bytes().len(),
    {
        let key_len: usize = match self.key_bits {
            TpmuSymKeyBits::Null => 0,
            _ => 2,
        };
        let mode_len: usize = match self.mode {
            TpmuSymMode::Null => 0,
            _ => 2,
        };
        if self.algorithm == TpmAlgId::Null {
            2
        } else {
            2 + key_len + mode_len
        }
    }

    /// Appends the wire bytes.
    pub fn marshal(&self, buf: &mut Vec<u8>)
        ensures
            final(buf)@ == old(buf)@ + self.spec_bytes(),
    {
        push_u16(buf, self.algorithm.value());
        if self.algorithm != TpmAlgId::Null {
            match self.key_bits {
                TpmuSymKeyBits::Aes(v) | TpmuSymKeyBits::Sm4(v) | TpmuSymKeyBits::Camellia(v) => push_u16(buf, v),
                TpmuSymKeyBits::Xor(a) => push_u16(buf, a.value()),
                TpmuSymKeyBits::Null => {},
            }
            match self.mode {
                TpmuSymMode::Aes(a) | TpmuSymMode::Sm4(a) | TpmuSymMode::Camellia(a) | TpmuSymMode::Xor(a) => push_u16(
                    buf,
                    a.value(),
                ),
                TpmuSymMode::Null => {},
            }
            assert(buf@ =~= old(buf)@ + self.spec_bytes());
        }
    }

    pub(crate) fn read_at(buf: &[u8], pos: usize) -> (r: TpmResult<(TpmtSymDef, usize)>)
        requires
            pos <= buf@.len(),
        ensures
            match spec_unmarshal_sym_def(buf@, pos as int) {
                Ok((v, next)) => r matches Ok((w, q)) && w == v && q == next && pos <= next <= buf@.len(),
                Err(e) => r == Err::<(TpmtSymDef, usize), TpmError>(e),
            },
    {
        let (algorithm, p1) = read_alg_at(buf, pos)?;
        if algorithm == TpmAlgId::Null {
            return Ok((TpmtSymDef { algorithm, key_bits: TpmuSymKeyBits::Null, mode: TpmuSymMode::Null }, p1));
        }
        let (key_bits, p2) = match algorithm {
            TpmAlgId::Aes => {
                let (v, next) = read_u16_at(buf, p1)?;
                (TpmuSymKeyBits::Aes(v), next)
            },
            TpmAlgId::Sm4 => {
                let (v, next) = read_u16_at(buf, p1)?;
                (TpmuSymKeyBits::Sm4(v), next)
            },
            TpmAlgId::Camellia => {
                let (v, next) = read_u16_at(buf, p1)?;
                (TpmuSymKeyBits::Camellia(v), next)
            },
            TpmAlgId::Xor => {
                let (a, next) = read_alg_at(buf, p1)?;
                (TpmuSymKeyBits::Xor(a), next)
            },
            _ => return Err(TpmError::MalformedValue),
        };
        let (mode, p3) = match algorithm {
            TpmAlgId::Aes => {
                let (a, next) = read_alg_at(buf, p2)?;
                (TpmuSymMode::Aes(a), next)
            },
            TpmAlgId::Sm4 => {
                let (a, next) = read_alg_at(buf, p2)?;
                (TpmuSymMode::Sm4(a), next)
            },
            TpmAlgId::Camellia => {
                let (a, next) = read_alg_at(buf, p2)?;
                (TpmuSymMode::Camellia(a), next)
            },
            _ => {
                let (a, next) = read_alg_at(buf, p2)?;
                (TpmuSymMode::Xor(a), next)
            },
        };
        Ok((TpmtSymDef { algorithm, key_bits, mode }, p3))
    }

    /// Reads a symmetric algorithm definition from the front of `buf` and
    /// returns it with the bytes after it.
    pub fn unmarshal(buf: &[u8]) -> (r: TpmResult<(TpmtSymDef, &[u8])>)
        ensures
            match spec_unmarshal_sym_def(buf@, 0) {
                Ok((v, next)) => r matches Ok((w, rest)) && w == v && rest@ == buf@.subrange(next, buf@.len() as int),
                Err(e) => r == Err::<(TpmtSymDef, &[u8]), TpmError>(e),
            },
    {
        let (v, next) = TpmtSymDef::read_at(buf, 0)?;
        Ok((v, slice_subrange(buf, next, buf.len())))
    }
}

/// A `u16` written at the front reads back.
pub proof fn lemma_read_u16_of_bytes(s: Seq<u8>, pos: int, v: u16)
    requires
        0 <= pos,
        pos + 2 <= s.len(),
        s.subrange(pos, pos + 2) == spec_be16_bytes(v),
    ensures
        spec_read_u16(s, pos) == Ok::<(u16, int), TpmError>((v, pos + 2)),
{
    lemma_be16_roundtrip(v);
    assert(s[pos] == s.subrange(pos, pos + 2)[0]);
    assert(s[pos + 1] == s.subrange(pos, pos + 2)[1]);
}

/// An algorithm identifier written at the front reads back.
pub proof fn lemma_read_alg_of_bytes(s: Seq<u8>, pos: int, a: TpmAlgId)
    requires
        0 <= pos,
        pos + 2 <= s.len(),
        s.subrange(pos, pos + 2) == spec_be16_bytes(a.spec_value()),
    ensures
        spec_read_alg(s, pos) == Ok::<(TpmAlgId, int), TpmError>((a, pos + 2)),
{
    lemma_read_u16_of_bytes(s, pos, a.spec_value());
    lemma_alg_id_value_roundtrip(a);
}

/// A well-formed symmetric algorithm definition written at `pos` reads back.
pub proof fn lemma_read_sym_def_at(v: TpmtSymDef, s: Seq<u8>, pos: int)
    requires
        v.wf(),
        0 <= pos,
        pos + v.spec_bytes().len() <= s.len(),
        s.subrange(pos, pos + v.spec_bytes().len()) == v.spec_bytes(),
    ensures
        spec_unmarshal_sym_def(s, pos) == Ok::<(TpmtSymDef, int), TpmError>((v, pos + v.spec_bytes().len())),
{
    let a = spec_be16_bytes(v.algorithm.spec_value());
    if v.algorithm == TpmAlgId::Null {
        lemma_read_alg_of_bytes(s, pos, v.algorithm);
    } else {
        let k = spec_key_bits_bytes(v.key_bits);
        let m = spec_mode_bytes(v.mode);
        assert(v.spec_bytes() =~= a + (k + m));
        lemma_split_run(s, pos, a, k + m);
        lemma_split_run(s, pos + 2, k, m);
        lemma_read_alg_of_bytes(s, pos, v.algorithm);
        match v.key_bits {
            TpmuSymKeyBits::Xor(x) => lemma_read_alg_of_bytes(s, pos + 2, x),
            TpmuSymKeyBits::Aes(x) | TpmuSymKeyBits::Sm4(x) | TpmuSymKeyBits::Camellia(x) => lemma_read_u16_of_bytes(s, pos + 2, x),
            TpmuSymKeyBits::Null => {},
        }
        match v.mode {
            TpmuSymMode::Aes(x) | TpmuSymMode::Sm4(x) | TpmuSymMode::Camellia(x) | TpmuSymMode::Xor(x) => lemma_read_alg_of_bytes(s, pos + 4, x),
            TpmuSymMode::Null => {},
        }
    }
}

/// Unmarshaling the bytes of a well-formed symmetric algorithm definition,
/// followed by anything, gives it back and stops after its bytes.
pub proof fn lemma_sym_def_roundtrip(v: TpmtSymDef, rest: Seq<u8>)
    requires
        v.wf(),
    ensures
        spec_unmarshal_sym_def(v.spec_bytes() + rest, 0) == Ok::<(TpmtSymDef, int), TpmError>(
            (v, v.spec_bytes().len() as int),
        ),
{
    let s = v.spec_bytes() + rest;
    assert(s.subrange(0, v.spec_bytes().len() as int) =~= v.spec_bytes());
    lemma_read_sym_def_at(v, s, 0);
}

} // verus!
