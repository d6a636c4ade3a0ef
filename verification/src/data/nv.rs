//! The public area of an NV index (`TPMS_NV_PUBLIC`,
//! `TPMS_NV_PUBLIC_EXP_ATTR`, `TPMU_NV_PUBLIC_2`, `TPMT_NV_PUBLIC_2`).

use crate::constant::MAX_DIGEST_SIZE;
use crate::data::alg::TpmAlgId;
use crate::data::attr::{TpmaNv, TpmaNvExp};
use crate::data::ht::{spec_tpm_ht_from_u8, TpmHt};
use crate::data::public::{
    lemma_read_tpm2b_at, lemma_read_u32_at, push_tpm2b, read_tpm2b_at, read_u32_at, spec_read_tpm2b,
    spec_read_u32,
};
use crate::data::schemes::spec_alg_bytes;
use crate::data::sym::{
    lemma_read_alg_of_bytes, lemma_read_u16_of_bytes, read_alg_at, read_u16_at, spec_read_alg,
    spec_read_u16,
};
use crate::error::{TpmError, TpmResult};
use crate::frame::auth::spec_tpm2b_bytes;
use crate::frame::codec::{
    lemma_be16_roundtrip, lemma_be32_roundtrip, lemma_split_run, push_u16, push_u32, read_u32,
    spec_be16_bytes, spec_be32, spec_be32_bytes,
};
use crate::frame::roundtrip::lemma_be32_at;
use vstd::prelude::*;
use vstd::slice::slice_subrange;

verus! {

/// The public area of an NV index (`TPMS_NV_PUBLIC`).
#[derive(Debug, Clone, PartialEq, Eq)]
pub struct TpmsNvPublic {
    pub nv_index: u32,
    pub name_alg: TpmAlgId,
    pub attributes: TpmaNv,
    pub auth_policy: Vec<u8>,
    pub data_size: u16,
}

/// The public area of an external NV index (`TPMS_NV_PUBLIC_EXP_ATTR`).
#[derive(Debug, Clone, PartialEq, Eq)]
pub struct TpmsNvPublicExpAttr {
    pub nv_index: u32,
    pub name_alg: TpmAlgId,
    pub attributes: TpmaNvExp,
    pub auth_policy: Vec<u8>,
    pub data_size: u16,
}

/// The public area of an NV index, by its handle type (`TPMU_NV_PUBLIC_2`).
#[derive(Debug, Clone, PartialEq, Eq)]
pub enum TpmuNvPublic2 {
    NvIndex(TpmsNvPublic),
    ExternalNv(TpmsNvPublicExpAttr),
    PermanentNv(TpmsNvPublic),
}

/// The public area of an NV index with its handle type (`TPMT_NV_PUBLIC_2`).
#[derive(Debug, Clone, PartialEq, Eq)]
pub struct TpmtNvPublic2 {
    pub handle_type: TpmHt,
    pub public_area: TpmuNvPublic2,
}

/// The value of an NV public area; the attributes of an external index are
/// held in 64 bits.
pub struct NvPublicValue {
    pub nv_index: u32,
    pub name_alg: TpmAlgId,
    pub attributes: u64,
    pub auth_policy: Seq<u8>,
    pub data_size: u16,
}

/// The value of a public area by its handle type.
pub enum NvPublic2Value {
    NvIndex(NvPublicValue),
    ExternalNv(NvPublicValue),
    PermanentNv(NvPublicValue),
}

/// The value of a public area with its handle type.
pub struct TaggedNvPublicValue {
    pub handle_type: TpmHt,
    pub public_area: NvPublic2Value,
}

impl View for TpmsNvPublic {
    type V = NvPublicValue;

    open spec fn view(&self) -> NvPublicValue {
        NvPublicValue {
            nv_index: self.nv_index,
            name_alg: self.name_alg,
            attributes: self.attributes.0 as u64,
            auth_policy: self.auth_policy@,
            data_size: self.data_size,
        }
    }
}

impl View for TpmsNvPublicExpAttr {
    type V = NvPublicValue;

    open spec fn view(&self) -> NvPublicValue {
        NvPublicValue {
            nv_index: self.nv_index,
            name_alg: self.name_alg,
            attributes: self.attributes.0,
            auth_policy: self.auth_policy@,
            data_size: self.data_size,
        }
    }
}

impl View for TpmuNvPublic2 {
    type V = NvPublic2Value;

    open spec fn view(&self) -> NvPublic2Value {
        match self {
            TpmuNvPublic2::NvIndex(p) => NvPublic2Value::NvIndex(p@),
            TpmuNvPublic2::ExternalNv(p) => NvPublic2Value::ExternalNv(p@),
            TpmuNvPublic2::PermanentNv(p) => NvPublic2Value::PermanentNv(p@),
        }
    }
}

impl View for TpmtNvPublic2 {
    type V = TaggedNvPublicValue;

    open spec fn view(&self) -> TaggedNvPublicValue {
        TaggedNvPublicValue { handle_type: self.handle_type, public_area: self.public_area@ }
    }
}

/// The big-endian encoding of a `u64`.
pub open spec fn spec_be64_bytes(v: u64) -> Seq<u8> {
    spec_be32_bytes((v / 0x1_0000_0000) as u32) + spec_be32_bytes((v % 0x1_0000_0000) as u32)
}

impl NvPublicValue {
    /// The index, the name algorithm, the attributes (eight bytes when
    /// `wide`, four otherwise), the policy and the data size.
    pub open spec fn spec_bytes(self, wide: bool) -> Seq<u8> {
        spec_be32_bytes(self.nv_index) + spec_alg_bytes(self.name_alg) + (if wide {
            spec_be64_bytes(self.attributes)
        } else {
            spec_be32_bytes(self.attributes as u32)
        }) + spec_tpm2b_bytes(self.auth_policy) + spec_be16_bytes(self.data_size)
    }

    /// The policy fits its buffer, and narrow attributes fit four bytes.
    pub open spec fn wf(self, wide: bool) -> bool {
        self.auth_policy.len() <= MAX_DIGEST_SIZE && (wide || self.attributes <= u32::MAX)
    }
}

impl NvPublic2Value {
    /// The bytes of the member.
    pub open spec fn spec_bytes(self) -> Seq<u8> {
        match self {
            NvPublic2Value::NvIndex(p) | NvPublic2Value::PermanentNv(p) => p.spec_bytes(false),
            NvPublic2Value::ExternalNv(p) => p.spec_bytes(true),
        }
    }
}

/// `v` is the member of `TPMU_NV_PUBLIC_2` that `tag` selects, and is itself
/// well formed.
pub open spec fn nv_public_selects(tag: TpmHt, v: NvPublic2Value) -> bool {
    match v {
        NvPublic2Value::NvIndex(p) => tag == TpmHt::NvIndex && p.wf(false),
        NvPublic2Value::ExternalNv(p) => tag == TpmHt::ExternalNv && p.wf(true),
        NvPublic2Value::PermanentNv(p) => tag == TpmHt::PermanentNv && p.wf(false),
    }
}

impl TaggedNvPublicValue {
    /// The handle type, one byte, then the public area it selects.
    pub open spec fn spec_bytes(self) -> Seq<u8> {
        seq![self.handle_type.spec_value()] + self.public_area.spec_bytes()
    }

    pub open spec fn wf(self) -> bool {
        nv_public_selects(self.handle_type, self.public_area)
    }
}

// ---------------------------------------------------------------------------
// Reading, as spec functions over the bytes `s` from `pos`
// ---------------------------------------------------------------------------

/// Reads a big-endian `u64` at `pos`.
pub open spec fn spec_read_u64(s: Seq<u8>, pos: int) -> TpmResult<(u64, int)> {
    if s.len() - pos < 8 {
        Err(TpmError::UnexpectedEnd { offset: pos as usize, needed: 8, available: (s.len() - pos) as usize })
    } else {
        Ok(((spec_be32(s, pos) as int * 0x1_0000_0000 + spec_be32(s, pos + 4) as int) as u64, pos + 8))
    }
}

/// Reads an NV public area at `pos`, with eight bytes of attributes when
/// `wide`.
pub open spec fn spec_read_nv_public(s: Seq<u8>, pos: int, wide: bool) -> TpmResult<(NvPublicValue, int)> {
    match spec_read_u32(s, pos) {
        Err(e) => Err(e),
        Ok((nv_index, p1)) => match spec_read_alg(s, p1) {
            Err(e) => Err(e),
            Ok((name_alg, p2)) => match (if wide {
                spec_read_u64(s, p2)
            } else {
                match spec_read_u32(s, p2) {
                    Err(e) => Err(e),
                    Ok((a, n)) => Ok((a as u64, n)),
                }
            }) {
                Err(e) => Err(e),
                Ok((attributes, p3)) => match spec_read_tpm2b(s, p3, MAX_DIGEST_SIZE) {
                    Err(e) => Err(e),
                    Ok((auth_policy, p4)) => match spec_read_u16(s, p4) {
                        Err(e) => Err(e),
                        Ok((data_size, next)) => Ok(
                            (NvPublicValue { nv_index, name_alg, attributes, auth_policy, data_size }, next),
                        ),
                    },
                },
            },
        },
    }
}

/// Reads the public area that the handle type `tag` selects.
pub open spec fn spec_read_nv_public_member(tag: TpmHt, s: Seq<u8>, pos: int) -> TpmResult<(NvPublic2Value, int)> {
    match tag {
        TpmHt::NvIndex => match spec_read_nv_public(s, pos, false) {
            Err(e) => Err(e),
            Ok((p, next)) => Ok((NvPublic2Value::NvIndex(p), next)),
        },
        TpmHt::ExternalNv => match spec_read_nv_public(s, pos, true) {
            Err(e) => Err(e),
            Ok((p, next)) => Ok((NvPublic2Value::ExternalNv(p), next)),
        },
        TpmHt::PermanentNv => match spec_read_nv_public(s, pos, false) {
            Err(e) => Err(e),
            Ok((p, next)) => Ok((NvPublic2Value::PermanentNv(p), next)),
        },
        _ => Err(TpmError::VariantNotAvailable { offset: 0, value: tag.spec_value() as u64 }),
    }
}

/// Reads a handle type, one byte, at `pos`.
pub open spec fn spec_read_handle_type(s: Seq<u8>, pos: int) -> TpmResult<(TpmHt, int)> {
    if s.len() - pos < 1 {
        Err(TpmError::UnexpectedEnd { offset: pos as usize, needed: 1, available: (s.len() - pos) as usize })
    } else {
        match spec_tpm_ht_from_u8(s[pos]) {
            None => Err(TpmError::VariantNotAvailable { offset: 0, value: s[pos] as u64 }),
            Some(t) => Ok((t, pos + 1)),
        }
    }
}

/// Reads a public area with its handle type at `pos`.
pub open spec fn spec_read_nv_public2(s: Seq<u8>, pos: int) -> TpmResult<(TaggedNvPublicValue, int)> {
    match spec_read_handle_type(s, pos) {
        Err(e) => Err(e),
        Ok((handle_type, p)) => match spec_read_nv_public_member(handle_type, s, p) {
            Err(e) => Err(e),
            Ok((public_area, next)) => Ok((TaggedNvPublicValue { handle_type, public_area }, next)),
        },
    }
}

// ---------------------------------------------------------------------------
// Executable reading, sizes and writing
// ---------------------------------------------------------------------------

/// Reads a big-endian `u64` at `pos`.
pub(crate) fn read_u64_at(buf: &[u8], pos: usize) -> (r: TpmResult<(u64, usize)>)
    requires
        pos <= buf@.len(),
    ensures
            match spec_read_u64(buf@, pos as int) {
                Ok((v, next)) => r matches Ok((w, q)) && w == v && q == next && pos <= next <= buf@.len(),
                Err(e) => r == Err::<(u64, usize), TpmError>(e),
            },
{
    if buf.len() - pos < 8 {
        return Err(TpmError::UnexpectedEnd { offset: pos, needed: 8, available: buf.len() - pos });
    }
    let hi = read_u32(buf, pos) as u64;
    let lo = read_u32(buf, pos + 4) as u64;
    Ok((hi * 0x1_0000_0000 + lo, pos + 8))
}

/// Appends a `u64` in big-endian order.
pub(crate) fn push_u64(buf: &mut Vec<u8>, value: u64)
    ensures
        final(buf)@ == old(buf)@ + spec_be64_bytes(value),
{
    push_u32(buf, (value / 0x1_0000_0000) as u32);
    push_u32(buf, (value % 0x1_0000_0000) as u32);
    assert(buf@ =~= old(buf)@ + spec_be64_bytes(value));
}

/// Reads a handle type at `pos`.
fn read_handle_type_at(buf: &[u8], pos: usize) -> (r: TpmResult<(TpmHt, usize)>)
    requires
        pos <= buf@.len(),
    ensures
            match spec_read_handle_type(buf@, pos as int) {
                Ok((v, next)) => r matches Ok((w, q)) && w == v && q == next && pos <= next <= buf@.len(),
                Err(e) => r == Err::<(TpmHt, usize), TpmError>(e),
            },
{
    if buf.len() - pos < 1 {
        return Err(TpmError::UnexpectedEnd { offset: pos, needed: 1, available: buf.len() - pos });
    }
    match TpmHt::from_u8(buf[pos]) {
        None => Err(TpmError::VariantNotAvailable { offset: 0, value: buf[pos] as u64 }),
        Some(t) => Ok((t, pos + 1)),
    }
}

impl TpmsNvPublic {
    pub(crate) fn read_at(buf: &[u8], pos: usize) -> (r: TpmResult<(TpmsNvPublic, usize)>)
        requires
            pos <= buf@.len(),
        ensures
            match spec_read_nv_public(buf@, pos as int, false) {
                Ok((v, next)) => r matches Ok((w, q)) && w@ == v && q == next && pos <= next <= buf@.len(),
                Err(e) => r == Err::<(TpmsNvPublic, usize), TpmError>(e),
            },
    {
        let (nv_index, p1) = read_u32_at(buf, pos)?;
        let (name_alg, p2) = read_alg_at(buf, p1)?;
        let (attributes, p3) = read_u32_at(buf, p2)?;
        let (auth_policy, p4) = read_tpm2b_at(buf, p3, MAX_DIGEST_SIZE)?;
        let (data_size, next) = read_u16_at(buf, p4)?;
        Ok((TpmsNvPublic { nv_index, name_alg, attributes: TpmaNv(attributes), auth_policy, data_size }, next))
    }

    /// Returns the number of wire bytes.
    pub fn len(&self) -> (r: usize)
        requires
            self@.wf(false),
        ensures
            r == self@.spec_bytes(false).len(),
    {
        14 + self.auth_policy.len()
    }

    /// Appends the wire bytes.
    pub fn marshal(&self, buf: &mut Vec<u8>)
        ensures
            final(buf)@ == old(buf)@ + self@.spec_bytes(false),
    {
        push_u32(buf, self.nv_index);
        push_u16(buf, self.name_alg.value());
        push_u32(buf, self.attributes.0);
        push_tpm2b(buf, &self.auth_policy);
        push_u16(buf, self.data_size);
        assert(buf@ =~= old(buf)@ + self@.spec_bytes(false));
    }
}

impl TpmsNvPublicExpAttr {
    pub(crate) fn read_at(buf: &[u8], pos: usize) -> (r: TpmResult<(TpmsNvPublicExpAttr, usize)>)
        requires
            pos <= buf@.len(),
        ensures
            match spec_read_nv_public(buf@, pos as int, true) {
                Ok((v, next)) => r matches Ok((w, q)) && w@ == v && q == next && pos <= next <= buf@.len(),
                Err(e) => r == Err::<(TpmsNvPublicExpAttr, usize), TpmError>(e),
            },
    {
        let (nv_index, p1) = read_u32_at(buf, pos)?;
        let (name_alg, p2) = read_alg_at(buf, p1)?;
        let (attributes, p3) = read_u64_at(buf, p2)?;
        let (auth_policy, p4) = read_tpm2b_at(buf, p3, MAX_DIGEST_SIZE)?;
        let (data_size, next) = read_u16_at(buf, p4)?;
        Ok((TpmsNvPublicExpAttr { nv_index, name_alg, attributes: TpmaNvExp(attributes), auth_policy, data_size }, next))
    }

    /// Returns the number of wire bytes.
    pub fn len(&self) -> (r: usize)
        requires
            self@.wf(true),
        ensures
            r == self@.spec_bytes(true).len(),
    {
        18 + self.auth_policy.len()
    }

    /// Appends the wire bytes.
    pub fn marshal(&self, buf: &mut Vec<u8>)
        ensures
            final(buf)@ == old(buf)@ + self@.spec_bytes(true),
    {
        push_u32(buf, self.nv_index);
        push_u16(buf, self.name_alg.value());
        push_u64(buf, self.attributes.0);
        push_tpm2b(buf, &self.auth_policy);
        push_u16(buf, self.data_size);
        assert(buf@ =~= old(buf)@ + self@.spec_bytes(true));
    }
}

impl TpmuNvPublic2 {
    pub(crate) fn read_tagged_at(tag: TpmHt, buf: &[u8], pos: usize) -> (r: TpmResult<(TpmuNvPublic2, usize)>)
        requires
            pos <= buf@.len(),
        ensures
            match spec_read_nv_public_member(tag, buf@, pos as int) {
                Ok((v, next)) => r matches Ok((w, q)) && w@ == v && q == next && pos <= next <= buf@.len(),
                Err(e) => r == Err::<(TpmuNvPublic2, usize), TpmError>(e),
            },
    {
        match tag {
            TpmHt::NvIndex => {
                let (p, next) = TpmsNvPublic::read_at(buf, pos)?;
                Ok((TpmuNvPublic2::NvIndex(p), next))
            },
            TpmHt::ExternalNv => {
                let (p, next) = TpmsNvPublicExpAttr::read_at(buf, pos)?;
                Ok((TpmuNvPublic2::ExternalNv(p), next))
            },
            TpmHt::PermanentNv => {
                let (p, next) = TpmsNvPublic::read_at(buf, pos)?;
                Ok((TpmuNvPublic2::PermanentNv(p), next))
            },
            _ => Err(TpmError::VariantNotAvailable { offset: 0, value: tag.value() as u64 }),
        }
    }

    /// Reads the public area that the handle type `tag` selects from the
    /// front of `buf` and returns it with the bytes after it.
    pub fn cast_tagged(tag: TpmHt, buf: &[u8]) -> (r: TpmResult<(TpmuNvPublic2, &[u8])>)
        ensures
            match spec_read_nv_public_member(tag, buf@, 0) {
                Ok((v, next)) => r matches Ok((w, rest)) && w@ == v && rest@ == buf@.subrange(next, buf@.len() as int),
                Err(e) => r == Err::<(TpmuNvPublic2, &[u8]), TpmError>(e),
            },
    {
        let (v, next) = TpmuNvPublic2::read_tagged_at(tag, buf, 0)?;
        Ok((v, slice_subrange(buf, next, buf.len())))
    }

    /// Returns the number of wire bytes.
    pub fn len(&self) -> (r: usize)
        requires
            match self {
                TpmuNvPublic2::NvIndex(p) | TpmuNvPublic2::PermanentNv(p) => p@.wf(false),
                TpmuNvPublic2::ExternalNv(p) => p@.wf(true),
            },
        ensures
            r == self@.spec_bytes().len(),
    {
        match self {
            TpmuNvPublic2::NvIndex(p) | TpmuNvPublic2::PermanentNv(p) => p.len(),
            TpmuNvPublic2::ExternalNv(p) => p.len(),
        }
    }

    /// Appends the wire bytes.
    pub fn marshal(&self, buf: &mut Vec<u8>)
        ensures
            final(buf)@ == old(buf)@ + self@.spec_bytes(),
    {
        match self {
            TpmuNvPublic2::ExternalNv(p) => p.marshal(buf),
            TpmuNvPublic2::NvIndex(p) | TpmuNvPublic2::PermanentNv(p) => p.marshal(buf),
        }
    }
}

impl TpmtNvPublic2 {
    /// Reads a public area with its handle type from the front of `buf` and
    /// returns it with the bytes after it.
    pub fn unmarshal(buf: &[u8]) -> (r: TpmResult<(TpmtNvPublic2, &[u8])>)
        ensures
            match spec_read_nv_public2(buf@, 0) {
                Ok((v, next)) => r matches Ok((w, rest)) && w@ == v && rest@ == buf@.subrange(next, buf@.len() as int),
                Err(e) => r == Err::<(TpmtNvPublic2, &[u8]), TpmError>(e),
            },
    {
        let pos: usize = 0;
        let (handle_type, p) = read_handle_type_at(buf, pos)?;
        let (public_area, next) = TpmuNvPublic2::read_tagged_at(handle_type, buf, p)?;
        Ok((TpmtNvPublic2 { handle_type, public_area }, slice_subrange(buf, next, buf.len())))
    }

    /// Appends the wire bytes: the handle type, then the public area.
    pub fn marshal(&self, buf: &mut Vec<u8>)
        ensures
            final(buf)@ == old(buf)@ + self@.spec_bytes(),
    {
        buf.push(self.handle_type.value());
        self.public_area.marshal(buf);
        assert(buf@ =~= old(buf)@ + self@.spec_bytes());
    }
}

// ---------------------------------------------------------------------------
// Reading back what was written
// ---------------------------------------------------------------------------

/// A `u64` written at `pos` reads back.
pub proof fn lemma_read_u64_at(v: u64, s: Seq<u8>, pos: int)
    requires
        0 <= pos,
        pos + 8 <= s.len(),
        s.subrange(pos, pos + 8) == spec_be64_bytes(v),
    ensures
        spec_read_u64(s, pos) == Ok::<(u64, int), TpmError>((v, pos + 8)),
{
    let hi = (v / 0x1_0000_0000) as u32;
    let lo = (v % 0x1_0000_0000) as u32;
    lemma_be32_roundtrip(hi);
    lemma_be32_roundtrip(lo);
    lemma_split_run(s, pos, spec_be32_bytes(hi), spec_be32_bytes(lo));
    lemma_be32_at(s, pos, hi);
    lemma_be32_at(s, pos + 4, lo);
}

/// A well-formed NV public area written at `pos` reads back.
pub proof fn lemma_read_nv_public_at(v: NvPublicValue, wide: bool, s: Seq<u8>, pos: int)
    requires
        v.wf(wide),
        0 <= pos,
        pos + v.spec_bytes(wide).len() <= s.len(),
        s.subrange(pos, pos + v.spec_bytes(wide).len()) == v.spec_bytes(wide),
    ensures
        spec_read_nv_public(s, pos, wide) == Ok::<(NvPublicValue, int), TpmError>(
            (v, pos + v.spec_bytes(wide).len()),
        ),
{
    let a = spec_be32_bytes(v.nv_index);
    let b = spec_alg_bytes(v.name_alg);
    let c = if wide {
        spec_be64_bytes(v.attributes)
    } else {
        spec_be32_bytes(v.attributes as u32)
    };
    let d = spec_tpm2b_bytes(v.auth_policy);
    let e = spec_be16_bytes(v.data_size);
    lemma_be32_roundtrip(v.nv_index);
    lemma_be32_roundtrip((v.attributes / 0x1_0000_0000) as u32);
    lemma_be32_roundtrip((v.attributes % 0x1_0000_0000) as u32);
    lemma_be32_roundtrip(v.attributes as u32);
    lemma_be16_roundtrip(v.data_size);
    lemma_split_run(s, pos, a + b + c + d, e);
    lemma_split_run(s, pos, a + b + c, d);
    lemma_split_run(s, pos, a + b, c);
    lemma_split_run(s, pos, a, b);
    lemma_read_u32_at(v.nv_index, s, pos);
    lemma_read_alg_of_bytes(s, pos + 4, v.name_alg);
    if wide {
        lemma_read_u64_at(v.attributes, s, pos + 6);
    } else {
        lemma_read_u32_at(v.attributes as u32, s, pos + 6);
    }
    lemma_read_tpm2b_at(v.auth_policy, MAX_DIGEST_SIZE, s, pos + 6 + c.len());
    lemma_read_u16_of_bytes(s, pos + 6 + c.len() + d.len(), v.data_size);
}

/// Unmarshaling the bytes of a well-formed NV public area with its handle
/// type, followed by anything, gives it back and stops after its bytes.
pub proof fn lemma_nv_public2_roundtrip(v: TaggedNvPublicValue, rest: Seq<u8>)
    requires
        v.wf(),
    ensures
        spec_read_nv_public2(v.spec_bytes() + rest, 0) == Ok::<(TaggedNvPublicValue, int), TpmError>(
            (v, v.spec_bytes().len() as int),
        ),
{
    let s = v.spec_bytes() + rest;
    let b = v.public_area.spec_bytes();
    assert(s.subrange(0, v.spec_bytes().len() as int) =~= v.spec_bytes());
    lemma_split_run(s, 0, seq![v.handle_type.spec_value()], b);
    crate::data::ht::lemma_ht_value_roundtrip(v.handle_type);
    match v.public_area {
        NvPublic2Value::NvIndex(p) | NvPublic2Value::PermanentNv(p) => lemma_read_nv_public_at(p, false, s, 1),
        NvPublic2Value::ExternalNv(p) => lemma_read_nv_public_at(p, true, s, 1),
    }
}

} // verus!
