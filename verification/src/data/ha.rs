//! Digests tagged by their hash algorithm (`TPMU_HA`).

use crate::constant::MAX_DIGEST_SIZE;
use crate::data::alg::TpmAlgId;
use crate::error::{TpmError, TpmResult};
use vstd::prelude::*;
use vstd::slice::slice_subrange;

verus! {

/// A digest, or none for the `Null` algorithm.
#[derive(Debug, Clone, PartialEq, Eq)]
pub enum TpmuHa {
    Null,
    Digest(Vec<u8>),
}

/// A digest borrowed from a buffer, or none.
#[derive(Debug)]
pub enum TpmuHaView<'a> {
    Null,
    Digest(&'a [u8]),
}

/// The size of the digests of a hash algorithm; `Null` has an empty one, any
/// other algorithm none at all.
pub open spec fn spec_digest_size(alg: TpmAlgId) -> Option<nat> {
    match alg {
        TpmAlgId::Null => Some(0),
        TpmAlgId::Sha1 => Some(20),
        TpmAlgId::Shake256_192 => Some(24),
        TpmAlgId::Sha256 | TpmAlgId::Sm3_256 | TpmAlgId::Sha3_256 | TpmAlgId::Shake256_256 => Some(32),
        TpmAlgId::Sha384 | TpmAlgId::Sha3_384 => Some(48),
        TpmAlgId::Sha512 | TpmAlgId::Sha3_512 | TpmAlgId::Shake256_512 => Some(64),
        _ => None,
    }
}

/// Returns the size of the digests of a hash algorithm.
pub fn digest_size(alg: TpmAlgId) -> (r: Option<usize>)
    ensures
        match spec_digest_size(alg) {
            Some(n) => r == Some(n as usize),
            None => r is None,
        },
{
    match alg {
        TpmAlgId::Null => Some(0),
        TpmAlgId::Sha1 => Some(20),
        TpmAlgId::Shake256_192 => Some(24),
        TpmAlgId::Sha256 | TpmAlgId::Sm3_256 | TpmAlgId::Sha3_256 | TpmAlgId::Shake256_256 => Some(32),
        TpmAlgId::Sha384 | TpmAlgId::Sha3_384 => Some(48),
        TpmAlgId::Sha512 | TpmAlgId::Sha3_512 | TpmAlgId::Shake256_512 => Some(64),
        _ => None,
    }
}

impl TpmuHa {
    /// The digest bytes; none for `Null`.
    pub open spec fn spec_bytes(&self) -> Seq<u8> {
        match self {
            TpmuHa::Null => Seq::empty(),
            TpmuHa::Digest(d) => d@,
        }
    }

    /// Returns the digest bytes.
    pub fn as_slice(&self) -> (r: &[u8])
        ensures
            r@ == self.spec_bytes(),
    {
        match self {
            TpmuHa::Null => {
                let r: &[u8] = &[];
                assert(r@ =~= Seq::<u8>::empty());
                r
            },
            TpmuHa::Digest(d) => d.as_slice(),
        }
    }

    /// Returns the number of wire bytes: those of the digest.
    pub fn len(&self) -> (r: usize)
        ensures
            r == self.spec_bytes().len(),
    {
        match self {
            TpmuHa::Null => 0,
            TpmuHa::Digest(d) => d.len(),
        }
    }

    /// Appends the wire bytes: the digest, without a size.
    pub fn marshal(&self, buf: &mut Vec<u8>)
        ensures
            final(buf)@ == old(buf)@ + self.spec_bytes(),
    {
        let bytes = self.as_slice();
        let mut i: usize = 0;
        while i < bytes.len()
            invariant
                i <= bytes@.len(),
                buf@ == old(buf)@ + bytes@.subrange(0, i as int),
            decreases bytes@.len() - i,
        {
            buf.push(bytes[i]);
            i = i + 1;
            assert(buf@ =~= old(buf)@ + bytes@.subrange(0, i as int));
        }
        assert(bytes@.subrange(0, i as int) =~= bytes@);
    }

    /// Reads the digest of the algorithm `tag` from the front of `buf` and
    /// returns it with the bytes after it.
    pub fn cast_tagged<'a>(tag: TpmAlgId, buf: &'a [u8]) -> (r: TpmResult<(TpmuHaView<'a>, &'a [u8])>)
        ensures
            match spec_digest_size(tag) {
                None => r == Err::<(TpmuHaView<'a>, &'a [u8]), TpmError>(
                    TpmError::VariantNotAvailable { offset: 0, value: tag.spec_value() as u64 },
                ),
                Some(n) => if tag == TpmAlgId::Null {
                    r matches Ok((TpmuHaView::Null, rest)) && rest@ == buf@
                } else if buf@.len() < n {
                    r == Err::<(TpmuHaView<'a>, &'a [u8]), TpmError>(
                        TpmError::UnexpectedEnd { offset: 0, needed: n as usize, available: buf@.len() as usize },
                    )
                } else {
                    r matches Ok((TpmuHaView::Digest(d), rest)) && d@ == buf@.subrange(0, n as int)
                        && rest@ == buf@.subrange(n as int, buf@.len() as int)
                },
            },
    {
        let size = match digest_size(tag) {
            None => return Err(TpmError::VariantNotAvailable { offset: 0, value: tag.value() as u64 }),
            Some(n) => n,
        };
        if tag == TpmAlgId::Null {
            return Ok((TpmuHaView::Null, buf));
        }
        if buf.len() < size {
            return Err(TpmError::UnexpectedEnd { offset: 0, needed: size, available: buf.len() });
        }
        Ok((TpmuHaView::Digest(slice_subrange(buf, 0, size)), slice_subrange(buf, size, buf.len())))
    }
}

/// Every digest size fits the largest digest buffer.
pub proof fn lemma_digest_size_bound(alg: TpmAlgId)
    ensures
        spec_digest_size(alg) matches Some(n) ==> n <= MAX_DIGEST_SIZE,
{
}

} // verus!
