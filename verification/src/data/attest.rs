//! Attestation data (`TPMS_ATTEST`) and what it attests (`TPMU_ATTEST` and
//! its members).

use crate::constant::{
    MAX_DIGEST_SIZE, MAX_NAME_SIZE, MAX_NV_BUFFER_SIZE, MAX_PCR_SELECTIONS, MAX_SENSITIVE_DATA,
    TPM_GENERATED_VALUE, TPM_PCR_SELECT_MAX,
};
use crate::data::alg::TpmAlgId;
use crate::data::pcr::{
    cast_pcr_select_prefix, lemma_pcr_select_roundtrip, selections_view, spec_pcr_select_prefix,
    PcrSelectionView, TpmsPcrSelect, TpmsPcrSelection,
};
use crate::data::public::{
    lemma_read_tpm2b_at, lemma_read_u32_at, push_tpm2b, read_tpm2b_at, read_u32_at, spec_read_tpm2b,
    spec_read_u32,
};
use crate::data::nv::{lemma_read_u64_at, push_u64, read_u64_at, spec_be64_bytes, spec_read_u64};
use crate::data::schemes::spec_alg_bytes;
use crate::data::st::{spec_tpm_st_from_u16, TpmSt};
use crate::data::sym::{
    lemma_read_alg_of_bytes, lemma_read_u16_of_bytes, read_alg_at, read_u16_at, spec_read_alg,
    spec_read_u16,
};
use crate::error::{TpmError, TpmResult};
use crate::frame::auth::spec_tpm2b_bytes;
use crate::frame::codec::{
    lemma_be16_roundtrip, lemma_be32_roundtrip, lemma_split_run, push_u16, push_u32,
    spec_be16_bytes, spec_be32_bytes,
};
use vstd::prelude::*;
use vstd::slice::slice_subrange;

verus! {

/// The clock of the TPM (`TPMS_CLOCK_INFO`).
#[derive(Debug, Clone, Copy, PartialEq, Eq, Structural)]
pub struct TpmsClockInfo {
    pub clock: u64,
    pub reset_count: u32,
    pub restart_count: u32,
    pub safe: bool,
}

/// The time and clock of the TPM (`TPMS_TIME_INFO`).
#[derive(Debug, Clone, Copy, PartialEq, Eq, Structural)]
pub struct TpmsTimeInfo {
    pub time: u64,
    pub clock_info: TpmsClockInfo,
}

/// An attested time (`TPMS_TIME_ATTEST_INFO`).
#[derive(Debug, Clone, Copy, PartialEq, Eq, Structural)]
pub struct TpmsTimeAttestInfo {
    pub time: TpmsTimeInfo,
    pub firmware_version: u64,
}

/// An attested object (`TPMS_CERTIFY_INFO`).
#[derive(Debug, Clone, PartialEq, Eq)]
pub struct TpmsCertifyInfo {
    pub name: Vec<u8>,
    pub qualified_name: Vec<u8>,
}

/// An attested set of PCR values (`TPMS_QUOTE_INFO`).
#[derive(Debug, Clone, PartialEq, Eq)]
pub struct TpmsQuoteInfo {
    pub pcr_select: Vec<TpmsPcrSelection>,
    pub pcr_digest: Vec<u8>,
}

/// An attested command audit (`TPMS_COMMAND_AUDIT_INFO`).
#[derive(Debug, Clone, PartialEq, Eq)]
pub struct TpmsCommandAuditInfo {
    pub audit_counter: u64,
    pub digest_alg: TpmAlgId,
    pub audit_digest: Vec<u8>,
    pub command_digest: Vec<u8>,
}

/// An attested session audit (`TPMS_SESSION_AUDIT_INFO`).
#[derive(Debug, Clone, PartialEq, Eq)]
pub struct TpmsSessionAuditInfo {
    pub exclusive_session: bool,
    pub session_digest: Vec<u8>,
}

/// An attested object creation (`TPMS_CREATION_INFO`).
#[derive(Debug, Clone, PartialEq, Eq)]
pub struct TpmsCreationInfo {
    pub object_name: Vec<u8>,
    pub creation_hash: Vec<u8>,
}

/// An attested NV index content (`TPMS_NV_CERTIFY_INFO`).
#[derive(Debug, Clone, PartialEq, Eq)]
pub struct TpmsNvCertifyInfo {
    pub index_name: Vec<u8>,
    pub offset: u16,
    pub nv_contents: Vec<u8>,
}

/// An attested NV index digest (`TPMS_NV_DIGEST_CERTIFY_INFO`).
#[derive(Debug, Clone, PartialEq, Eq)]
pub struct TpmsNvDigestCertifyInfo {
    pub index_name: Vec<u8>,
    pub nv_digest: Vec<u8>,
}

/// What an attestation attests, by its type (`TPMU_ATTEST`).
#[derive(Debug, Clone, PartialEq, Eq)]
pub enum TpmuAttest {
    Certify(TpmsCertifyInfo),
    Creation(TpmsCreationInfo),
    Quote(TpmsQuoteInfo),
    CommandAudit(TpmsCommandAuditInfo),
    SessionAudit(TpmsSessionAuditInfo),
    Time(TpmsTimeAttestInfo),
    Nv(TpmsNvCertifyInfo),
    NvDigest(TpmsNvDigestCertifyInfo),
}

/// Attestation data made by the TPM (`TPMS_ATTEST`); its wire form starts
/// with the magic number `TPM_GENERATED_VALUE`.
#[derive(Debug, Clone, PartialEq, Eq)]
pub struct TpmsAttest {
    pub attest_type: TpmSt,
    pub qualified_signer: Vec<u8>,
    pub extra_data: Vec<u8>,
    pub clock_info: TpmsClockInfo,
    pub firmware_version: u64,
    pub attested: TpmuAttest,
}

// ---------------------------------------------------------------------------
// Values
// ---------------------------------------------------------------------------

/// The value of what an attestation attests.
pub enum AttestedValue {
    Certify { name: Seq<u8>, qualified_name: Seq<u8> },
    Creation { object_name: Seq<u8>, creation_hash: Seq<u8> },
    Quote { pcr_select: Seq<PcrSelectionView>, pcr_digest: Seq<u8> },
    CommandAudit { audit_counter: u64, digest_alg: TpmAlgId, audit_digest: Seq<u8>, command_digest: Seq<u8> },
    SessionAudit { exclusive_session: bool, session_digest: Seq<u8> },
    Time(TpmsTimeAttestInfo),
    Nv { index_name: Seq<u8>, offset: u16, nv_contents: Seq<u8> },
    NvDigest { index_name: Seq<u8>, nv_digest: Seq<u8> },
}

/// The value of attestation data.
pub struct AttestValue {
    pub attest_type: TpmSt,
    pub qualified_signer: Seq<u8>,
    pub extra_data: Seq<u8>,
    pub clock_info: TpmsClockInfo,
    pub firmware_version: u64,
    pub attested: AttestedValue,
}

impl View for TpmuAttest {
    type V = AttestedValue;

    open spec fn view(&self) -> AttestedValue {
        match self {
            TpmuAttest::Certify(i) => AttestedValue::Certify { name: i.name@, qualified_name: i.qualified_name@ },
            TpmuAttest::Creation(i) => AttestedValue::Creation {
                object_name: i.object_name@,
                creation_hash: i.creation_hash@,
            },
            TpmuAttest::Quote(i) => AttestedValue::Quote {
                pcr_select: selections_view(i.pcr_select@),
                pcr_digest: i.pcr_digest@,
            },
            TpmuAttest::CommandAudit(i) => AttestedValue::CommandAudit {
                audit_counter: i.audit_counter,
                digest_alg: i.digest_alg,
                audit_digest: i.audit_digest@,
                command_digest: i.command_digest@,
            },
            TpmuAttest::SessionAudit(i) => AttestedValue::SessionAudit {
                exclusive_session: i.exclusive_session,
                session_digest: i.session_digest@,
            },
            TpmuAttest::Time(i) => AttestedValue::Time(*i),
            TpmuAttest::Nv(i) => AttestedValue::Nv {
                index_name: i.index_name@,
                offset: i.offset,
                nv_contents: i.nv_contents@,
            },
            TpmuAttest::NvDigest(i) => AttestedValue::NvDigest { index_name: i.index_name@, nv_digest: i.nv_digest@ },
        }
    }
}

impl View for TpmsAttest {
    type V = AttestValue;

    open spec fn view(&self) -> AttestValue {
        AttestValue {
            attest_type: self.attest_type,
            qualified_signer: self.qualified_signer@,
            extra_data: self.extra_data@,
            clock_info: self.clock_info,
            firmware_version: self.firmware_version,
            attested: self.attested@,
        }
    }
}

// ---------------------------------------------------------------------------
// Wire bytes and well-formedness
// ---------------------------------------------------------------------------

/// The byte of a boolean (`TPMI_YES_NO`).
pub open spec fn spec_bool_byte(b: bool) -> u8 {
    if b {
        1
    } else {
        0
    }
}

impl TpmsClockInfo {
    pub open spec fn spec_bytes(self) -> Seq<u8> {
        spec_be64_bytes(self.clock) + spec_be32_bytes(self.reset_count) + spec_be32_bytes(self.restart_count)
            + seq![spec_bool_byte(self.safe)]
    }
}

impl TpmsTimeInfo {
    pub open spec fn spec_bytes(self) -> Seq<u8> {
        spec_be64_bytes(self.time) + self.clock_info.spec_bytes()
    }
}

impl TpmsTimeAttestInfo {
    pub open spec fn spec_bytes(self) -> Seq<u8> {
        self.time.spec_bytes() + spec_be64_bytes(self.firmware_version)
    }
}

/// The wire bytes of a PCR selection of one bank.
pub open spec fn spec_selection_bytes(v: PcrSelectionView) -> Seq<u8> {
    spec_alg_bytes(v.hash) + seq![v.mask.len() as u8] + v.mask
}

/// The wire bytes of PCR selections, one after another.
pub open spec fn spec_selections_bytes(v: Seq<PcrSelectionView>) -> Seq<u8>
    decreases v.len(),
{
    if v.len() == 0 {
        Seq::empty()
    } else {
        spec_selections_bytes(v.drop_last()) + spec_selection_bytes(v.last())
    }
}

/// Every bitmap fits a selection.
pub open spec fn selections_fit(v: Seq<PcrSelectionView>) -> bool {
    forall|i: int| 0 <= i < v.len() ==> (#[trigger] v[i]).mask.len() <= TPM_PCR_SELECT_MAX
}

impl AttestedValue {
    /// The bytes of the member.
    pub open spec fn spec_bytes(self) -> Seq<u8> {
        match self {
            AttestedValue::Certify { name, qualified_name } => spec_tpm2b_bytes(name) + spec_tpm2b_bytes(
                qualified_name,
            ),
            AttestedValue::Creation { object_name, creation_hash } => spec_tpm2b_bytes(object_name)
                + spec_tpm2b_bytes(creation_hash),
            AttestedValue::Quote { pcr_select, pcr_digest } => spec_be32_bytes(pcr_select.len() as u32)
                + spec_selections_bytes(pcr_select) + spec_tpm2b_bytes(pcr_digest),
            AttestedValue::CommandAudit { audit_counter, digest_alg, audit_digest, command_digest } =>
                spec_be64_bytes(audit_counter) + spec_alg_bytes(digest_alg) + spec_tpm2b_bytes(audit_digest)
                + spec_tpm2b_bytes(command_digest),
            AttestedValue::SessionAudit { exclusive_session, session_digest } => seq![
                spec_bool_byte(exclusive_session),
            ] + spec_tpm2b_bytes(session_digest),
            AttestedValue::Time(t) => t.spec_bytes(),
            AttestedValue::Nv { index_name, offset, nv_contents } => spec_tpm2b_bytes(index_name)
                + spec_be16_bytes(offset) + spec_tpm2b_bytes(nv_contents),
            AttestedValue::NvDigest { index_name, nv_digest } => spec_tpm2b_bytes(index_name)
                + spec_tpm2b_bytes(nv_digest),
        }
    }

    /// The buffers fit.
    pub open spec fn fits(self) -> bool {
        match self {
            AttestedValue::Certify { name, qualified_name } => name.len() <= MAX_NAME_SIZE
                && qualified_name.len() <= MAX_NAME_SIZE,
            AttestedValue::Creation { object_name, creation_hash } => object_name.len() <= MAX_NAME_SIZE
                && creation_hash.len() <= MAX_DIGEST_SIZE,
            AttestedValue::Quote { pcr_select, pcr_digest } => pcr_select.len() <= MAX_PCR_SELECTIONS
                && selections_fit(pcr_select) && pcr_digest.len() <= MAX_DIGEST_SIZE,
            AttestedValue::CommandAudit { audit_digest, command_digest, .. } => audit_digest.len()
                <= MAX_DIGEST_SIZE && command_digest.len() <= MAX_DIGEST_SIZE,
            AttestedValue::SessionAudit { session_digest, .. } => session_digest.len() <= MAX_DIGEST_SIZE,
            AttestedValue::Time(_) => true,
            AttestedValue::Nv { index_name, nv_contents, .. } => index_name.len() <= MAX_NAME_SIZE
                && nv_contents.len() <= MAX_NV_BUFFER_SIZE,
            AttestedValue::NvDigest { index_name, nv_digest } => index_name.len() <= MAX_NAME_SIZE
                && nv_digest.len() <= MAX_DIGEST_SIZE,
        }
    }
}

/// `v` is the member of `TPMU_ATTEST` that the attestation type `tag`
/// selects, and fits its buffers.
pub open spec fn attested_selects(tag: TpmSt, v: AttestedValue) -> bool {
    &&& v.fits()
    &&& match v {
        AttestedValue::Certify { .. } => tag == TpmSt::AttestCertify,
        AttestedValue::Creation { .. } => tag == TpmSt::AttestCreation,
        AttestedValue::Quote { .. } => tag == TpmSt::AttestQuote,
        AttestedValue::CommandAudit { .. } => tag == TpmSt::AttestCommandAudit,
        AttestedValue::SessionAudit { .. } => tag == TpmSt::AttestSessionAudit,
        AttestedValue::Time(_) => tag == TpmSt::AttestTime,
        AttestedValue::Nv { .. } => tag == TpmSt::AttestNv,
        AttestedValue::NvDigest { .. } => tag == TpmSt::AttestNvDigest,
    }
}

impl AttestValue {
    /// The magic number, the type, the signer's name, the caller's data,
    /// the clock, the firmware version, then what the type selects.
    pub open spec fn spec_bytes(self) -> Seq<u8> {
        spec_be32_bytes(TPM_GENERATED_VALUE) + spec_be16_bytes(self.attest_type.spec_value())
            + spec_tpm2b_bytes(self.qualified_signer) + spec_tpm2b_bytes(self.extra_data)
            + self.clock_info.spec_bytes() + spec_be64_bytes(self.firmware_version)
            + self.attested.spec_bytes()
    }

    /// The buffers fit, and what is attested is what the type selects.
    pub open spec fn wf(self) -> bool {
        &&& self.qualified_signer.len() <= MAX_NAME_SIZE
        &&& self.extra_data.len() <= MAX_SENSITIVE_DATA
        &&& attested_selects(self.attest_type, self.attested)
    }
}

// ---------------------------------------------------------------------------
// Reading, as spec functions over the bytes `s` from `pos`
// ---------------------------------------------------------------------------

/// Reads a boolean byte at `pos`.
pub open spec fn spec_read_bool(s: Seq<u8>, pos: int) -> TpmResult<(bool, int)> {
    if s.len() - pos < 1 {
        Err(TpmError::UnexpectedEnd { offset: pos as usize, needed: 1, available: (s.len() - pos) as usize })
    } else if s[pos] == 0 {
        Ok((false, pos + 1))
    } else if s[pos] == 1 {
        Ok((true, pos + 1))
    } else {
        Err(TpmError::InvalidBoolean { offset: 0, value: s[pos] as u64 })
    }
}

/// Reads the clock at `pos`.
pub open spec fn spec_read_clock_info(s: Seq<u8>, pos: int) -> TpmResult<(TpmsClockInfo, int)> {
    match spec_read_u64(s, pos) {
        Err(e) => Err(e),
        Ok((clock, p1)) => match spec_read_u32(s, p1) {
            Err(e) => Err(e),
            Ok((reset_count, p2)) => match spec_read_u32(s, p2) {
                Err(e) => Err(e),
                Ok((restart_count, p3)) => match spec_read_bool(s, p3) {
                    Err(e) => Err(e),
                    Ok((safe, next)) => Ok((TpmsClockInfo { clock, reset_count, restart_count, safe }, next)),
                },
            },
        },
    }
}

/// Reads an attested time at `pos`.
pub open spec fn spec_read_time_attest(s: Seq<u8>, pos: int) -> TpmResult<(TpmsTimeAttestInfo, int)> {
    match spec_read_u64(s, pos) {
        Err(e) => Err(e),
        Ok((time, p1)) => match spec_read_clock_info(s, p1) {
            Err(e) => Err(e),
            Ok((clock_info, p2)) => match spec_read_u64(s, p2) {
                Err(e) => Err(e),
                Ok((firmware_version, next)) => Ok(
                    (TpmsTimeAttestInfo { time: TpmsTimeInfo { time, clock_info }, firmware_version }, next),
                ),
            },
        },
    }
}

/// Reads a PCR selection of one bank at `pos`: its algorithm, then a size
/// byte and a bitmap of at most `TPM_PCR_SELECT_MAX` bytes.
pub open spec fn spec_read_selection(s: Seq<u8>, pos: int) -> TpmResult<(PcrSelectionView, int)> {
    match spec_read_alg(s, pos) {
        Err(e) => Err(e),
        Ok((hash, p)) => match spec_pcr_select_prefix(s.subrange(p, s.len() as int)) {
            Err(e) => Err(e),
            Ok((mask, q)) => Ok((PcrSelectionView { hash, mask }, p + q)),
        },
    }
}

/// Reads `count` PCR selections one after another from `pos`.
pub open spec fn spec_read_selections(s: Seq<u8>, pos: int, count: nat) -> TpmResult<(Seq<PcrSelectionView>, int)>
    decreases count,
{
    if count == 0 {
        Ok((Seq::empty(), pos))
    } else {
        match spec_read_selections(s, pos, (count - 1) as nat) {
            Err(e) => Err(e),
            Ok((items, p)) => match spec_read_selection(s, p) {
                Err(e) => Err(e),
                Ok((x, next)) => Ok((items.push(x), next)),
            },
        }
    }
}

/// Reads a PCR selection list at `pos`: a count of at most
/// `MAX_PCR_SELECTIONS`, then that many selections.
pub open spec fn spec_read_selection_list(s: Seq<u8>, pos: int) -> TpmResult<(Seq<PcrSelectionView>, int)> {
    match spec_read_u32(s, pos) {
        Err(e) => Err(e),
        Ok((count, p)) => if count > MAX_PCR_SELECTIONS {
            Err(TpmError::TooManyItems { offset: pos as usize, limit: MAX_PCR_SELECTIONS, actual: count as usize })
        } else {
            spec_read_selections(s, p, count as nat)
        },
    }
}

/// Reads two size-prefixed buffers of at most `cap_a` and `cap_b` bytes.
pub open spec fn spec_read_two_tpm2b(s: Seq<u8>, pos: int, cap_a: usize, cap_b: usize) -> TpmResult<
    (Seq<u8>, Seq<u8>, int),
> {
    match spec_read_tpm2b(s, pos, cap_a) {
        Err(e) => Err(e),
        Ok((a, p)) => match spec_read_tpm2b(s, p, cap_b) {
            Err(e) => Err(e),
            Ok((b, next)) => Ok((a, b, next)),
        },
    }
}

/// Reads what the attestation type `tag` selects.
pub open spec fn spec_read_attested(tag: TpmSt, s: Seq<u8>, pos: int) -> TpmResult<(AttestedValue, int)> {
    match tag {
        TpmSt::AttestCertify => match spec_read_two_tpm2b(s, pos, MAX_NAME_SIZE, MAX_NAME_SIZE) {
            Err(e) => Err(e),
            Ok((name, qualified_name, next)) => Ok((AttestedValue::Certify { name, qualified_name }, next)),
        },
        TpmSt::AttestCreation => match spec_read_two_tpm2b(s, pos, MAX_NAME_SIZE, MAX_DIGEST_SIZE) {
            Err(e) => Err(e),
            Ok((object_name, creation_hash, next)) => Ok(
                (AttestedValue::Creation { object_name, creation_hash }, next),
            ),
        },
        TpmSt::AttestQuote => match spec_read_selection_list(s, pos) {
            Err(e) => Err(e),
            Ok((pcr_select, p)) => match spec_read_tpm2b(s, p, MAX_DIGEST_SIZE) {
                Err(e) => Err(e),
                Ok((pcr_digest, next)) => Ok((AttestedValue::Quote { pcr_select, pcr_digest }, next)),
            },
        },
        TpmSt::AttestCommandAudit => match spec_read_u64(s, pos) {
            Err(e) => Err(e),
            Ok((audit_counter, p1)) => match spec_read_alg(s, p1) {
                Err(e) => Err(e),
                Ok((digest_alg, p2)) => match spec_read_two_tpm2b(s, p2, MAX_DIGEST_SIZE, MAX_DIGEST_SIZE) {
                    Err(e) => Err(e),
                    Ok((audit_digest, command_digest, next)) => Ok(
                        (
                            AttestedValue::CommandAudit { audit_counter, digest_alg, audit_digest, command_digest },
                            next,
                        ),
                    ),
                },
            },
        },
        TpmSt::AttestSessionAudit => match spec_read_bool(s, pos) {
            Err(e) => Err(e),
            Ok((exclusive_session, p)) => match spec_read_tpm2b(s, p, MAX_DIGEST_SIZE) {
                Err(e) => Err(e),
                Ok((session_digest, next)) => Ok(
                    (AttestedValue::SessionAudit { exclusive_session, session_digest }, next),
                ),
            },
        },
        TpmSt::AttestTime => match spec_read_time_attest(s, pos) {
            Err(e) => Err(e),
            Ok((t, next)) => Ok((AttestedValue::Time(t), next)),
        },
        TpmSt::AttestNv => match spec_read_tpm2b(s, pos, MAX_NAME_SIZE) {
            Err(e) => Err(e),
            Ok((index_name, p1)) => match spec_read_u16(s, p1) {
                Err(e) => Err(e),
                Ok((offset, p2)) => match spec_read_tpm2b(s, p2, MAX_NV_BUFFER_SIZE) {
                    Err(e) => Err(e),
                    Ok((nv_contents, next)) => Ok((AttestedValue::Nv { index_name, offset, nv_contents }, next)),
                },
            },
        },
        TpmSt::AttestNvDigest => match spec_read_two_tpm2b(s, pos, MAX_NAME_SIZE, MAX_DIGEST_SIZE) {
            Err(e) => Err(e),
            Ok((index_name, nv_digest, next)) => Ok((AttestedValue::NvDigest { index_name, nv_digest }, next)),
        },
        _ => Err(TpmError::VariantNotAvailable { offset: 0, value: tag.spec_value() as u64 }),
    }
}

/// Reads a structure tag at `pos`.
pub open spec fn spec_read_st(s: Seq<u8>, pos: int) -> TpmResult<(TpmSt, int)> {
    match spec_read_u16(s, pos) {
        Err(e) => Err(e),
        Ok((v, next)) => match spec_tpm_st_from_u16(v) {
            None => Err(TpmError::VariantNotAvailable { offset: 0, value: v as u64 }),
            Some(t) => Ok((t, next)),
        },
    }
}

/// Reads attestation data at `pos`: the magic number, which must be
/// `TPM_GENERATED_VALUE`, then the fields, then what the type selects.
pub open spec fn spec_read_attest(s: Seq<u8>, pos: int) -> TpmResult<(AttestValue, int)> {
    match spec_read_u32(s, pos) {
        Err(e) => Err(e),
        Ok((magic, p1)) => if magic != TPM_GENERATED_VALUE {
            Err(TpmError::InvalidMagicNumber { offset: 0, value: magic as u64 })
        } else {
            match spec_read_st(s, p1) {
                Err(e) => Err(e),
                Ok((attest_type, p2)) => match spec_read_two_tpm2b(s, p2, MAX_NAME_SIZE, MAX_SENSITIVE_DATA) {
                    Err(e) => Err(e),
                    Ok((qualified_signer, extra_data, p3)) => match spec_read_clock_info(s, p3) {
                        Err(e) => Err(e),
                        Ok((clock_info, p4)) => match spec_read_u64(s, p4) {
                            Err(e) => Err(e),
                            Ok((firmware_version, p5)) => match spec_read_attested(attest_type, s, p5) {
                                Err(e) => Err(e),
                                Ok((attested, next)) => Ok(
                                    (
                                        AttestValue {
                                            attest_type,
                                            qualified_signer,
                                            extra_data,
                                            clock_info,
                                            firmware_version,
                                            attested,
                                        },
                                        next,
                                    ),
                                ),
                            },
                        },
                    },
                },
            }
        },
    }
}

// ---------------------------------------------------------------------------
// Executable reading
// ---------------------------------------------------------------------------

/// Reads a boolean byte at `pos`.
fn read_bool_at(buf: &[u8], pos: usize) -> (r: TpmResult<(bool, usize)>)
    requires
        pos <= buf@.len(),
    ensures
            match spec_read_bool(buf@, pos as int) {
                Ok((v, next)) => r matches Ok((w, q)) && w == v && q == next && pos <= next <= buf@.len(),
                Err(e) => r == Err::<(bool, usize), TpmError>(e),
            },
{
    if buf.len() - pos < 1 {
        return Err(TpmError::UnexpectedEnd { offset: pos, needed: 1, available: buf.len() - pos });
    }
    let b = buf[pos];
    if b == 0 {
        Ok((false, pos + 1))
    } else if b == 1 {
        Ok((true, pos + 1))
    } else {
        Err(TpmError::InvalidBoolean { offset: 0, value: b as u64 })
    }
}

/// Reads a structure tag at `pos`.
fn read_st_at(buf: &[u8], pos: usize) -> (r: TpmResult<(TpmSt, usize)>)
    requires
        pos <= buf@.len(),
    ensures
            match spec_read_st(buf@, pos as int) {
                Ok((v, next)) => r matches Ok((w, q)) && w == v && q == next && pos <= next <= buf@.len(),
                Err(e) => r == Err::<(TpmSt, usize), TpmError>(e),
            },
{
    let (v, next) = read_u16_at(buf, pos)?;
    match TpmSt::from_u16(v) {
        None => Err(TpmError::VariantNotAvailable { offset: 0, value: v as u64 }),
        Some(t) => Ok((t, next)),
    }
}

impl TpmsClockInfo {
    pub(crate) fn read_at(buf: &[u8], pos: usize) -> (r: TpmResult<(TpmsClockInfo, usize)>)
        requires
            pos <= buf@.len(),
        ensures
            match spec_read_clock_info(buf@, pos as int) {
                Ok((v, next)) => r matches Ok((w, q)) && w == v && q == next && pos <= next <= buf@.len(),
                Err(e) => r == Err::<(TpmsClockInfo, usize), TpmError>(e),
            },
    {
        let (clock, p1) = read_u64_at(buf, pos)?;
        let (reset_count, p2) = read_u32_at(buf, p1)?;
        let (restart_count, p3) = read_u32_at(buf, p2)?;
        let (safe, next) = read_bool_at(buf, p3)?;
        Ok((TpmsClockInfo { clock, reset_count, restart_count, safe }, next))
    }

    /// Appends the wire bytes.
    pub fn marshal(&self, buf: &mut Vec<u8>)
        ensures
            final(buf)@ == old(buf)@ + self.spec_bytes(),
    {
        push_u64(buf, self.clock);
        push_u32(buf, self.reset_count);
        push_u32(buf, self.restart_count);
        buf.push(if self.safe {
            1
        } else {
            0
        });
        assert(buf@ =~= old(buf)@ + self.spec_bytes());
    }
}

impl TpmsTimeAttestInfo {
    pub(crate) fn read_at(buf: &[u8], pos: usize) -> (r: TpmResult<(TpmsTimeAttestInfo, usize)>)
        requires
            pos <= buf@.len(),
        ensures
            match spec_read_time_attest(buf@, pos as int) {
                Ok((v, next)) => r matches Ok((w, q)) && w == v && q == next && pos <= next <= buf@.len(),
                Err(e) => r == Err::<(TpmsTimeAttestInfo, usize), TpmError>(e),
            },
    {
        let (time, p1) = read_u64_at(buf, pos)?;
        let (clock_info, p2) = TpmsClockInfo::read_at(buf, p1)?;
        let (firmware_version, next) = read_u64_at(buf, p2)?;
        Ok((TpmsTimeAttestInfo { time: TpmsTimeInfo { time, clock_info }, firmware_version }, next))
    }

    /// Appends the wire bytes.
    pub fn marshal(&self, buf: &mut Vec<u8>)
        ensures
            final(buf)@ == old(buf)@ + self.spec_bytes(),
    {
        push_u64(buf, self.time.time);
        self.time.clock_info.marshal(buf);
        push_u64(buf, self.firmware_version);
        assert(buf@ =~= old(buf)@ + self.spec_bytes());
    }
}

/// Reads a PCR selection of one bank at `pos`.
fn read_selection_at(buf: &[u8], pos: usize) -> (r: TpmResult<(TpmsPcrSelection, usize)>)
    requires
        pos <= buf@.len(),
    ensures
            match spec_read_selection(buf@, pos as int) {
                Ok((v, next)) => r matches Ok((w, q)) && w@ == v && q == next && pos <= next <= buf@.len(),
                Err(e) => r == Err::<(TpmsPcrSelection, usize), TpmError>(e),
            },
{
    let (hash, p) = read_alg_at(buf, pos)?;
    let tail = slice_subrange(buf, p, buf.len());
    let (bits, rest) = cast_pcr_select_prefix(tail)?;
    let next = buf.len() - rest.len();
    let pcr_select = TpmsPcrSelect::try_from_slice(bits)?;
    Ok((TpmsPcrSelection { hash, pcr_select }, next))
}

/// Reads a PCR selection list at `pos`.
fn read_selection_list_at(buf: &[u8], pos: usize) -> (r: TpmResult<(Vec<TpmsPcrSelection>, usize)>)
    requires
        pos <= buf@.len(),
    ensures
        match spec_read_selection_list(buf@, pos as int) {
            Ok((v, next)) => r matches Ok((w, q)) && selections_view(w@) == v && q == next && pos <= next
                <= buf@.len(),
            Err(e) => r == Err::<(Vec<TpmsPcrSelection>, usize), TpmError>(e),
        },
{
    let (count, start) = read_u32_at(buf, pos)?;
    if count as usize > MAX_PCR_SELECTIONS {
        return Err(TpmError::TooManyItems { offset: pos, limit: MAX_PCR_SELECTIONS, actual: count as usize });
    }
    let mut items: Vec<TpmsPcrSelection> = Vec::new();
    let mut p = start;
    let mut i: u32 = 0;
    assert(selections_view(items@) =~= Seq::<PcrSelectionView>::empty());
    while i < count
        invariant
            i <= count,
            count <= MAX_PCR_SELECTIONS,
            spec_read_u32(buf@, pos as int) == Ok::<(u32, int), TpmError>((count, start as int)),
            pos <= start <= p <= buf@.len(),
            spec_read_selections(buf@, start as int, i as nat) == Ok::<(Seq<PcrSelectionView>, int), TpmError>(
                (selections_view(items@), p as int),
            ),
        decreases count - i,
    {
        let r1 = read_selection_at(buf, p);
        match r1 {
            Err(e) => {
                assert(spec_read_selections(buf@, start as int, (i + 1) as nat) == Err::<
                    (Seq<PcrSelectionView>, int),
                    TpmError,
                >(e));
                proof {
                    lemma_read_selections_fail_stays(buf@, start as int, (i + 1) as nat, count as nat, e);
                }
                return Err(e);
            },
            Ok((x, next)) => {
                let ghost before = items@;
                items.push(x);
                assert(selections_view(items@) =~= selections_view(before).push(x@));
                p = next;
            },
        }
        i = i + 1;
    }
    Ok((items, p))
}

impl TpmuAttest {
    pub(crate) fn read_tagged_at(tag: TpmSt, buf: &[u8], pos: usize) -> (r: TpmResult<(TpmuAttest, usize)>)
        requires
            pos <= buf@.len(),
        ensures
            match spec_read_attested(tag, buf@, pos as int) {
                Ok((v, next)) => r matches Ok((w, q)) && w@ == v && q == next && pos <= next <= buf@.len(),
                Err(e) => r == Err::<(TpmuAttest, usize), TpmError>(e),
            },
    {
        match tag {
            TpmSt::AttestCertify => {
                let (name, p) = read_tpm2b_at(buf, pos, MAX_NAME_SIZE)?;
                let (qualified_name, next) = read_tpm2b_at(buf, p, MAX_NAME_SIZE)?;
                Ok((TpmuAttest::Certify(TpmsCertifyInfo { name, qualified_name }), next))
            },
            TpmSt::AttestCreation => {
                let (object_name, p) = read_tpm2b_at(buf, pos, MAX_NAME_SIZE)?;
                let (creation_hash, next) = read_tpm2b_at(buf, p, MAX_DIGEST_SIZE)?;
                Ok((TpmuAttest::Creation(TpmsCreationInfo { object_name, creation_hash }), next))
            },
            TpmSt::AttestQuote => {
                let (pcr_select, p) = read_selection_list_at(buf, pos)?;
                let (pcr_digest, next) = read_tpm2b_at(buf, p, MAX_DIGEST_SIZE)?;
                Ok((TpmuAttest::Quote(TpmsQuoteInfo { pcr_select, pcr_digest }), next))
            },
            TpmSt::AttestCommandAudit => {
                let (audit_counter, p1) = read_u64_at(buf, pos)?;
                let (digest_alg, p2) = read_alg_at(buf, p1)?;
                let (audit_digest, p3) = read_tpm2b_at(buf, p2, MAX_DIGEST_SIZE)?;
                let (command_digest, next) = read_tpm2b_at(buf, p3, MAX_DIGEST_SIZE)?;
                let info = TpmsCommandAuditInfo { audit_counter, digest_alg, audit_digest, command_digest };
                Ok((TpmuAttest::CommandAudit(info), next))
            },
            TpmSt::AttestSessionAudit => {
                let (exclusive_session, p) = read_bool_at(buf, pos)?;
                let (session_digest, next) = read_tpm2b_at(buf, p, MAX_DIGEST_SIZE)?;
                Ok((TpmuAttest::SessionAudit(TpmsSessionAuditInfo { exclusive_session, session_digest }), next))
            },
            TpmSt::AttestTime => {
                let (t, next) = TpmsTimeAttestInfo::read_at(buf, pos)?;
                Ok((TpmuAttest::Time(t), next))
            },
            TpmSt::AttestNv => {
                let (index_name, p1) = read_tpm2b_at(buf, pos, MAX_NAME_SIZE)?;
                let (offset, p2) = read_u16_at(buf, p1)?;
                let (nv_contents, next) = read_tpm2b_at(buf, p2, MAX_NV_BUFFER_SIZE)?;
                Ok((TpmuAttest::Nv(TpmsNvCertifyInfo { index_name, offset, nv_contents }), next))
            },
            TpmSt::AttestNvDigest => {
                let (index_name, p) = read_tpm2b_at(buf, pos, MAX_NAME_SIZE)?;
                let (nv_digest, next) = read_tpm2b_at(buf, p, MAX_DIGEST_SIZE)?;
                Ok((TpmuAttest::NvDigest(TpmsNvDigestCertifyInfo { index_name, nv_digest }), next))
            },
            _ => Err(TpmError::VariantNotAvailable { offset: 0, value: tag.value() as u64 }),
        }
    }

    /// Reads what the attestation type `tag` selects from the front of `buf`
    /// and returns it with the bytes after it.
    pub fn cast_tagged(tag: TpmSt, buf: &[u8]) -> (r: TpmResult<(TpmuAttest, &[u8])>)
        ensures
            match spec_read_attested(tag, buf@, 0) {
                Ok((v, next)) => r matches Ok((w, rest)) && w@ == v && rest@ == buf@.subrange(next, buf@.len() as int),
                Err(e) => r == Err::<(TpmuAttest, &[u8]), TpmError>(e),
            },
    {
        let (v, next) = TpmuAttest::read_tagged_at(tag, buf, 0)?;
        Ok((v, slice_subrange(buf, next, buf.len())))
    }
}

impl TpmsAttest {
    pub(crate) fn read_at(buf: &[u8], pos: usize) -> (r: TpmResult<(TpmsAttest, usize)>)
        requires
            pos <= buf@.len(),
        ensures
            match spec_read_attest(buf@, pos as int) {
                Ok((v, next)) => r matches Ok((w, q)) && w@ == v && q == next && pos <= next <= buf@.len(),
                Err(e) => r == Err::<(TpmsAttest, usize), TpmError>(e),
            },
    {
        let (magic, p1) = read_u32_at(buf, pos)?;
        if magic != TPM_GENERATED_VALUE {
            return Err(TpmError::InvalidMagicNumber { offset: 0, value: magic as u64 });
        }
        let (attest_type, p2) = read_st_at(buf, p1)?;
        let (qualified_signer, p) = read_tpm2b_at(buf, p2, MAX_NAME_SIZE)?;
        let (extra_data, p3) = read_tpm2b_at(buf, p, MAX_SENSITIVE_DATA)?;
        let (clock_info, p4) = TpmsClockInfo::read_at(buf, p3)?;
        let (firmware_version, p5) = read_u64_at(buf, p4)?;
        let (attested, next) = TpmuAttest::read_tagged_at(attest_type, buf, p5)?;
        let attest = TpmsAttest { attest_type, qualified_signer, extra_data, clock_info, firmware_version, attested };
        Ok((attest, next))
    }

    /// Reads attestation data from the front of `buf` and returns it with the
    /// bytes after it.
    pub fn cast_prefix_field(buf: &[u8]) -> (r: TpmResult<(TpmsAttest, &[u8])>)
        ensures
            match spec_read_attest(buf@, 0) {
                Ok((v, next)) => r matches Ok((w, rest)) && w@ == v && rest@ == buf@.subrange(next, buf@.len() as int),
                Err(e) => r == Err::<(TpmsAttest, &[u8]), TpmError>(e),
            },
    {
        let (v, next) = TpmsAttest::read_at(buf, 0)?;
        Ok((v, slice_subrange(buf, next, buf.len())))
    }
}

/// Once reading the first `k` selections fails, reading more fails the
/// same way.
proof fn lemma_read_selections_fail_stays(s: Seq<u8>, pos: int, k: nat, n: nat, e: TpmError)
    requires
        k <= n,
        spec_read_selections(s, pos, k) == Err::<(Seq<PcrSelectionView>, int), TpmError>(e),
    ensures
        spec_read_selections(s, pos, n) == Err::<(Seq<PcrSelectionView>, int), TpmError>(e),
    decreases n - k,
{
    if k < n {
        lemma_read_selections_fail_stays(s, pos, k, (n - 1) as nat, e);
    }
}

// ---------------------------------------------------------------------------
// Sizes and writing
// ---------------------------------------------------------------------------

/// Appends PCR selections one after another.
pub(crate) fn push_selections(buf: &mut Vec<u8>, sels: &Vec<TpmsPcrSelection>)
    ensures
        final(buf)@ == old(buf)@ + spec_selections_bytes(selections_view(sels@)),
{
    let mut i: usize = 0;
    assert(selections_view(sels@.take(0)) =~= Seq::<PcrSelectionView>::empty());
    while i < sels.len()
        invariant
            i <= sels@.len(),
            buf@ == old(buf)@ + spec_selections_bytes(selections_view(sels@.take(i as int))),
        decreases sels@.len() - i,
    {
        let ghost before = buf@;
        sels[i].marshal(buf);
        proof {
            let prev = selections_view(sels@.take(i as int));
            let cur = selections_view(sels@.take(i + 1));
            assert(cur.drop_last() =~= prev);
            assert(cur.last() == sels@[i as int]@);
            assert(sels@[i as int].spec_bytes() =~= spec_selection_bytes(sels@[i as int]@));
            assert(buf@ =~= old(buf)@ + spec_selections_bytes(cur));
        }
        i = i + 1;
    }
    assert(sels@.take(i as int) =~= sels@);
}

/// Returns the number of wire bytes of PCR selections.
fn selections_len(sels: &Vec<TpmsPcrSelection>) -> (r: usize)
    requires
        sels@.len() <= MAX_PCR_SELECTIONS,
    ensures
        r == spec_selections_bytes(selections_view(sels@)).len(),
        r <= 7 * MAX_PCR_SELECTIONS,
{
    let mut total: usize = 0;
    let mut i: usize = 0;
    assert(selections_view(sels@.take(0)) =~= Seq::<PcrSelectionView>::empty());
    while i < sels.len()
        invariant
            i <= sels@.len() <= MAX_PCR_SELECTIONS,
            total == spec_selections_bytes(selections_view(sels@.take(i as int))).len(),
            total <= 7 * i,
        decreases sels@.len() - i,
    {
        let n = sels[i].len();
        proof {
            let prev = selections_view(sels@.take(i as int));
            let cur = selections_view(sels@.take(i + 1));
            assert(cur.drop_last() =~= prev);
            assert(cur.last() == sels@[i as int]@);
            assert(sels@[i as int].spec_bytes() =~= spec_selection_bytes(sels@[i as int]@));
        }
        total = total + n;
        i = i + 1;
    }
    assert(sels@.take(i as int) =~= sels@);
    total
}

impl TpmuAttest {
    /// Returns the number of wire bytes.
    pub fn len(&self) -> (r: usize)
        requires
            self@.fits(),
        ensures
            r == self@.spec_bytes().len(),
            r <= 1100,
    {
        match self {
            TpmuAttest::Certify(i) => 4 + i.name.len() + i.qualified_name.len(),
            TpmuAttest::Creation(i) => 4 + i.object_name.len() + i.creation_hash.len(),
            TpmuAttest::Quote(i) => 6 + selections_len(&i.pcr_select) + i.pcr_digest.len(),
            TpmuAttest::CommandAudit(i) => 14 + i.audit_digest.len() + i.command_digest.len(),
            TpmuAttest::SessionAudit(i) => 3 + i.session_digest.len(),
            TpmuAttest::Time(_) => 33,
            TpmuAttest::Nv(i) => 6 + i.index_name.len() + i.nv_contents.len(),
            TpmuAttest::NvDigest(i) => 4 + i.index_name.len() + i.nv_digest.len(),
        }
    }

    /// Appends the wire bytes.
    pub fn marshal(&self, buf: &mut Vec<u8>)
        ensures
            final(buf)@ == old(buf)@ + self@.spec_bytes(),
    {
        match self {
            TpmuAttest::Certify(i) => {
                push_tpm2b(buf, &i.name);
                push_tpm2b(buf, &i.qualified_name);
            },
            TpmuAttest::Creation(i) => {
                push_tpm2b(buf, &i.object_name);
                push_tpm2b(buf, &i.creation_hash);
            },
            TpmuAttest::Quote(i) => {
                push_u32(buf, i.pcr_select.len() as u32);
                push_selections(buf, &i.pcr_select);
                push_tpm2b(buf, &i.pcr_digest);
            },
            TpmuAttest::CommandAudit(i) => {
                push_u64(buf, i.audit_counter);
                push_u16(buf, i.digest_alg.value());
                push_tpm2b(buf, &i.audit_digest);
                push_tpm2b(buf, &i.command_digest);
            },
            TpmuAttest::SessionAudit(i) => {
                buf.push(if i.exclusive_session {
                    1
                } else {
                    0
                });
                push_tpm2b(buf, &i.session_digest);
            },
            TpmuAttest::Time(t) => t.marshal(buf),
            TpmuAttest::Nv(i) => {
                push_tpm2b(buf, &i.index_name);
                push_u16(buf, i.offset);
                push_tpm2b(buf, &i.nv_contents);
            },
            TpmuAttest::NvDigest(i) => {
                push_tpm2b(buf, &i.index_name);
                push_tpm2b(buf, &i.nv_digest);
            },
        }
        assert(buf@ =~= old(buf)@ + self@.spec_bytes());
    }
}

impl TpmsAttest {
    /// Returns the number of wire bytes.
    pub fn len(&self) -> (r: usize)
        requires
            self@.qualified_signer.len() <= MAX_NAME_SIZE,
            self@.extra_data.len() <= MAX_SENSITIVE_DATA,
            self@.attested.fits(),
        ensures
            r == self@.spec_bytes().len(),
    {
        35 + self.qualified_signer.len() + self.extra_data.len() + self.attested.len()
    }

    /// Appends the wire bytes, starting with the magic number.
    pub fn marshal(&self, buf: &mut Vec<u8>)
        ensures
            final(buf)@ == old(buf)@ + self@.spec_bytes(),
    {
        push_u32(buf, TPM_GENERATED_VALUE);
        push_u16(buf, self.attest_type.value());
        push_tpm2b(buf, &self.qualified_signer);
        push_tpm2b(buf, &self.extra_data);
        self.clock_info.marshal(buf);
        push_u64(buf, self.firmware_version);
        self.attested.marshal(buf);
        assert(buf@ =~= old(buf)@ + self@.spec_bytes());
    }
}

// ---------------------------------------------------------------------------
// Reading back what was written
// ---------------------------------------------------------------------------

/// The encoding of a `u64` takes eight bytes.
proof fn lemma_be64_len(v: u64)
    ensures
        spec_be64_bytes(v).len() == 8,
{
    lemma_be32_roundtrip((v / 0x1_0000_0000) as u32);
    lemma_be32_roundtrip((v % 0x1_0000_0000) as u32);
}

/// A boolean written at `pos` reads back.
proof fn lemma_read_bool_at(b: bool, s: Seq<u8>, pos: int)
    requires
        0 <= pos,
        pos + 1 <= s.len(),
        s.subrange(pos, pos + 1) == seq![spec_bool_byte(b)],
    ensures
        spec_read_bool(s, pos) == Ok::<(bool, int), TpmError>((b, pos + 1)),
{
    assert(s[pos] == s.subrange(pos, pos + 1)[0]);
}

/// A clock written at `pos` reads back.
pub proof fn lemma_read_clock_info_at(c: TpmsClockInfo, s: Seq<u8>, pos: int)
    requires
        0 <= pos,
        pos + c.spec_bytes().len() <= s.len(),
        s.subrange(pos, pos + c.spec_bytes().len()) == c.spec_bytes(),
    ensures
        spec_read_clock_info(s, pos) == Ok::<(TpmsClockInfo, int), TpmError>((c, pos + c.spec_bytes().len())),
{
    let a = spec_be64_bytes(c.clock);
    let b = spec_be32_bytes(c.reset_count);
    let d = spec_be32_bytes(c.restart_count);
    let e = seq![spec_bool_byte(c.safe)];
    lemma_be64_len(c.clock);
    lemma_be32_roundtrip(c.reset_count);
    lemma_be32_roundtrip(c.restart_count);
    lemma_split_run(s, pos, a + b + d, e);
    lemma_split_run(s, pos, a + b, d);
    lemma_split_run(s, pos, a, b);
    lemma_read_u64_at(c.clock, s, pos);
    lemma_read_u32_at(c.reset_count, s, pos + 8);
    lemma_read_u32_at(c.restart_count, s, pos + 12);
    lemma_read_bool_at(c.safe, s, pos + 16);
}

/// An attested time written at `pos` reads back.
pub proof fn lemma_read_time_attest_at(t: TpmsTimeAttestInfo, s: Seq<u8>, pos: int)
    requires
        0 <= pos,
        pos + t.spec_bytes().len() <= s.len(),
        s.subrange(pos, pos + t.spec_bytes().len()) == t.spec_bytes(),
    ensures
        spec_read_time_attest(s, pos) == Ok::<(TpmsTimeAttestInfo, int), TpmError>(
            (t, pos + t.spec_bytes().len()),
        ),
{
    let a = spec_be64_bytes(t.time.time);
    let b = t.time.clock_info.spec_bytes();
    let c = spec_be64_bytes(t.firmware_version);
    lemma_be64_len(t.time.time);
    lemma_be64_len(t.firmware_version);
    assert(t.spec_bytes() =~= a + b + c);
    lemma_split_run(s, pos, a + b, c);
    lemma_split_run(s, pos, a, b);
    lemma_read_u64_at(t.time.time, s, pos);
    lemma_read_clock_info_at(t.time.clock_info, s, pos + 8);
    lemma_read_u64_at(t.firmware_version, s, pos + 8 + b.len());
}

/// A PCR selection whose bitmap fits, written at `pos`, reads back.
pub proof fn lemma_read_selection_at(x: PcrSelectionView, s: Seq<u8>, pos: int)
    requires
        x.mask.len() <= TPM_PCR_SELECT_MAX,
        0 <= pos,
        pos + spec_selection_bytes(x).len() <= s.len(),
        s.subrange(pos, pos + spec_selection_bytes(x).len()) == spec_selection_bytes(x),
    ensures
        spec_read_selection(s, pos) == Ok::<(PcrSelectionView, int), TpmError>(
            (x, pos + spec_selection_bytes(x).len()),
        ),
{
    let a = spec_alg_bytes(x.hash);
    let b = seq![x.mask.len() as u8] + x.mask;
    assert(spec_selection_bytes(x) =~= a + b);
    lemma_split_run(s, pos, a, b);
    lemma_read_alg_of_bytes(s, pos, x.hash);
    let t = s.subrange(pos + 2, s.len() as int);
    let rest = s.subrange(pos + 2 + b.len(), s.len() as int);
    assert(t =~= seq![x.mask.len() as u8] + x.mask + rest);
    lemma_pcr_select_roundtrip(x.mask, rest);
}

/// PCR selections whose bitmaps fit, written one after another from `pos`,
/// read back.
pub proof fn lemma_read_selections_at(v: Seq<PcrSelectionView>, s: Seq<u8>, pos: int)
    requires
        selections_fit(v),
        0 <= pos,
        pos + spec_selections_bytes(v).len() <= s.len(),
        s.subrange(pos, pos + spec_selections_bytes(v).len()) == spec_selections_bytes(v),
    ensures
        spec_read_selections(s, pos, v.len()) == Ok::<(Seq<PcrSelectionView>, int), TpmError>(
            (v, pos + spec_selections_bytes(v).len()),
        ),
    decreases v.len(),
{
    if v.len() == 0 {
        assert(v =~= Seq::<PcrSelectionView>::empty());
    } else {
        let init = v.drop_last();
        let a = spec_selections_bytes(init);
        let b = spec_selection_bytes(v.last());
        lemma_split_run(s, pos, a, b);
        assert(selections_fit(init)) by {
            assert forall|i: int| 0 <= i < init.len() implies (#[trigger] init[i]).mask.len() <= TPM_PCR_SELECT_MAX by {
                assert(init[i] == v[i]);
            }
        }
        lemma_read_selections_at(init, s, pos);
        assert(v.last() == v[v.len() - 1]);
        lemma_read_selection_at(v.last(), s, pos + a.len());
        assert(init.push(v.last()) =~= v);
    }
}

/// What `AttestCertify` selects, written at `pos`, reads back.
proof fn lemma_read_certify_at(v: AttestedValue, s: Seq<u8>, pos: int)
    requires
        attested_selects(TpmSt::AttestCertify, v),
        0 <= pos,
        pos + v.spec_bytes().len() <= s.len(),
        s.subrange(pos, pos + v.spec_bytes().len()) == v.spec_bytes(),
    ensures
        spec_read_attested(TpmSt::AttestCertify, s, pos) == Ok::<(AttestedValue, int), TpmError>(
            (v, pos + v.spec_bytes().len()),
        ),
{
    match v {
        AttestedValue::Certify { name, qualified_name } => {
            let a = spec_tpm2b_bytes(name);
            lemma_split_run(s, pos, a, spec_tpm2b_bytes(qualified_name));
            lemma_read_tpm2b_at(name, MAX_NAME_SIZE, s, pos);
            lemma_read_tpm2b_at(qualified_name, MAX_NAME_SIZE, s, pos + a.len());
        },
        _ => {},
    }
}

/// What `AttestCreation` selects, written at `pos`, reads back.
proof fn lemma_read_creation_at(v: AttestedValue, s: Seq<u8>, pos: int)
    requires
        attested_selects(TpmSt::AttestCreation, v),
        0 <= pos,
        pos + v.spec_bytes().len() <= s.len(),
        s.subrange(pos, pos + v.spec_bytes().len()) == v.spec_bytes(),
    ensures
        spec_read_attested(TpmSt::AttestCreation, s, pos) == Ok::<(AttestedValue, int), TpmError>(
            (v, pos + v.spec_bytes().len()),
        ),
{
    match v {
        AttestedValue::Creation { object_name, creation_hash } => {
            let a = spec_tpm2b_bytes(object_name);
            lemma_split_run(s, pos, a, spec_tpm2b_bytes(creation_hash));
            lemma_read_tpm2b_at(object_name, MAX_NAME_SIZE, s, pos);
            lemma_read_tpm2b_at(creation_hash, MAX_DIGEST_SIZE, s, pos + a.len());
        },
        _ => {},
    }
}

/// What `AttestQuote` selects, written at `pos`, reads back.
proof fn lemma_read_quote_at(v: AttestedValue, s: Seq<u8>, pos: int)
    requires
        attested_selects(TpmSt::AttestQuote, v),
        0 <= pos,
        pos + v.spec_bytes().len() <= s.len(),
        s.subrange(pos, pos + v.spec_bytes().len()) == v.spec_bytes(),
    ensures
        spec_read_attested(TpmSt::AttestQuote, s, pos) == Ok::<(AttestedValue, int), TpmError>(
            (v, pos + v.spec_bytes().len()),
        ),
{
    match v {
        AttestedValue::Quote { pcr_select, pcr_digest } => {
            let n = pcr_select.len() as u32;
            let a = spec_be32_bytes(n);
            let b = spec_selections_bytes(pcr_select);
            let c = spec_tpm2b_bytes(pcr_digest);
            lemma_be32_roundtrip(n);
            lemma_split_run(s, pos, a + b, c);
            lemma_split_run(s, pos, a, b);
            lemma_read_u32_at(n, s, pos);
            lemma_read_selections_at(pcr_select, s, pos + 4);
            lemma_read_tpm2b_at(pcr_digest, MAX_DIGEST_SIZE, s, pos + 4 + b.len());
        },
        _ => {},
    }
}

/// What `AttestCommandAudit` selects, written at `pos`, reads back.
proof fn lemma_read_command_audit_at(v: AttestedValue, s: Seq<u8>, pos: int)
    requires
        attested_selects(TpmSt::AttestCommandAudit, v),
        0 <= pos,
        pos + v.spec_bytes().len() <= s.len(),
        s.subrange(pos, pos + v.spec_bytes().len()) == v.spec_bytes(),
    ensures
        spec_read_attested(TpmSt::AttestCommandAudit, s, pos) == Ok::<(AttestedValue, int), TpmError>(
            (v, pos + v.spec_bytes().len()),
        ),
{
    match v {
        AttestedValue::CommandAudit { audit_counter, digest_alg, audit_digest, command_digest } => {
            let a = spec_be64_bytes(audit_counter);
            let b = spec_alg_bytes(digest_alg);
            let c = spec_tpm2b_bytes(audit_digest);
            let d = spec_tpm2b_bytes(command_digest);
            lemma_be64_len(audit_counter);
            lemma_split_run(s, pos, a + b + c, d);
            lemma_split_run(s, pos, a + b, c);
            lemma_split_run(s, pos, a, b);
            lemma_read_u64_at(audit_counter, s, pos);
            lemma_read_alg_of_bytes(s, pos + 8, digest_alg);
            lemma_read_tpm2b_at(audit_digest, MAX_DIGEST_SIZE, s, pos + 10);
            lemma_read_tpm2b_at(command_digest, MAX_DIGEST_SIZE, s, pos + 10 + c.len());
        },
        _ => {},
    }
}

/// What `AttestSessionAudit` selects, written at `pos`, reads back.
proof fn lemma_read_session_audit_at(v: AttestedValue, s: Seq<u8>, pos: int)
    requires
        attested_selects(TpmSt::AttestSessionAudit, v),
        0 <= pos,
        pos + v.spec_bytes().len() <= s.len(),
        s.subrange(pos, pos + v.spec_bytes().len()) == v.spec_bytes(),
    ensures
        spec_read_attested(TpmSt::AttestSessionAudit, s, pos) == Ok::<(AttestedValue, int), TpmError>(
            (v, pos + v.spec_bytes().len()),
        ),
{
    match v {
        AttestedValue::SessionAudit { exclusive_session, session_digest } => {
            let a = seq![spec_bool_byte(exclusive_session)];
            lemma_split_run(s, pos, a, spec_tpm2b_bytes(session_digest));
            lemma_read_bool_at(exclusive_session, s, pos);
            lemma_read_tpm2b_at(session_digest, MAX_DIGEST_SIZE, s, pos + 1);
        },
        _ => {},
    }
}

/// What `AttestTime` selects, written at `pos`, reads back.
proof fn lemma_read_time_at(v: AttestedValue, s: Seq<u8>, pos: int)
    requires
        attested_selects(TpmSt::AttestTime, v),
        0 <= pos,
        pos + v.spec_bytes().len() <= s.len(),
        s.subrange(pos, pos + v.spec_bytes().len()) == v.spec_bytes(),
    ensures
        spec_read_attested(TpmSt::AttestTime, s, pos) == Ok::<(AttestedValue, int), TpmError>(
            (v, pos + v.spec_bytes().len()),
        ),
{
    match v {
        AttestedValue::Time(t) => {
            lemma_read_time_attest_at(t, s, pos);
        },
        _ => {},
    }
}

/// What `AttestNv` selects, written at `pos`, reads back.
proof fn lemma_read_nv_at(v: AttestedValue, s: Seq<u8>, pos: int)
    requires
        attested_selects(TpmSt::AttestNv, v),
        0 <= pos,
        pos + v.spec_bytes().len() <= s.len(),
        s.subrange(pos, pos + v.spec_bytes().len()) == v.spec_bytes(),
    ensures
        spec_read_attested(TpmSt::AttestNv, s, pos) == Ok::<(AttestedValue, int), TpmError>(
            (v, pos + v.spec_bytes().len()),
        ),
{
    match v {
        AttestedValue::Nv { index_name, offset, nv_contents } => {
            let a = spec_tpm2b_bytes(index_name);
            let b = spec_be16_bytes(offset);
            let c = spec_tpm2b_bytes(nv_contents);
            lemma_be16_roundtrip(offset);
            lemma_split_run(s, pos, a + b, c);
            lemma_split_run(s, pos, a, b);
            lemma_read_tpm2b_at(index_name, MAX_NAME_SIZE, s, pos);
            lemma_read_u16_of_bytes(s, pos + a.len(), offset);
            lemma_read_tpm2b_at(nv_contents, MAX_NV_BUFFER_SIZE, s, pos + a.len() + 2);
        },
        _ => {},
    }
}

/// What `AttestNvDigest` selects, written at `pos`, reads back.
proof fn lemma_read_nv_digest_at(v: AttestedValue, s: Seq<u8>, pos: int)
    requires
        attested_selects(TpmSt::AttestNvDigest, v),
        0 <= pos,
        pos + v.spec_bytes().len() <= s.len(),
        s.subrange(pos, pos + v.spec_bytes().len()) == v.spec_bytes(),
    ensures
        spec_read_attested(TpmSt::AttestNvDigest, s, pos) == Ok::<(AttestedValue, int), TpmError>(
            (v, pos + v.spec_bytes().len()),
        ),
{
    match v {
        AttestedValue::NvDigest { index_name, nv_digest } => {
            let a = spec_tpm2b_bytes(index_name);
            lemma_split_run(s, pos, a, spec_tpm2b_bytes(nv_digest));
            lemma_read_tpm2b_at(index_name, MAX_NAME_SIZE, s, pos);
            lemma_read_tpm2b_at(nv_digest, MAX_DIGEST_SIZE, s, pos + a.len());
        },
        _ => {},
    }
}

/// What the attestation type `tag` selects, written at `pos`, reads back.
pub proof fn lemma_read_attested_at(tag: TpmSt, v: AttestedValue, s: Seq<u8>, pos: int)
    requires
        attested_selects(tag, v),
        0 <= pos,
        pos + v.spec_bytes().len() <= s.len(),
        s.subrange(pos, pos + v.spec_bytes().len()) == v.spec_bytes(),
    ensures
        spec_read_attested(tag, s, pos) == Ok::<(AttestedValue, int), TpmError>((v, pos + v.spec_bytes().len())),
{
    match v {
        AttestedValue::Certify { .. } => lemma_read_certify_at(v, s, pos),
        AttestedValue::Creation { .. } => lemma_read_creation_at(v, s, pos),
        AttestedValue::Quote { .. } => lemma_read_quote_at(v, s, pos),
        AttestedValue::CommandAudit { .. } => lemma_read_command_audit_at(v, s, pos),
        AttestedValue::SessionAudit { .. } => lemma_read_session_audit_at(v, s, pos),
        AttestedValue::Time(_) => lemma_read_time_at(v, s, pos),
        AttestedValue::Nv { .. } => lemma_read_nv_at(v, s, pos),
        AttestedValue::NvDigest { .. } => lemma_read_nv_digest_at(v, s, pos),
    }
}

/// Unmarshaling the bytes of well-formed attestation data, followed by
/// anything, gives it back and stops after its bytes.
#[verifier::spinoff_prover]
#[verifier::rlimit(40)]
pub proof fn lemma_attest_roundtrip(v: AttestValue, rest: Seq<u8>)
    requires
        v.wf(),
    ensures
        spec_read_attest(v.spec_bytes() + rest, 0) == Ok::<(AttestValue, int), TpmError>(
            (v, v.spec_bytes().len() as int),
        ),
{
    let s = v.spec_bytes() + rest;
    let a = spec_be32_bytes(TPM_GENERATED_VALUE);
    let b = spec_be16_bytes(v.attest_type.spec_value());
    let c = spec_tpm2b_bytes(v.qualified_signer);
    let d = spec_tpm2b_bytes(v.extra_data);
    let e = v.clock_info.spec_bytes();
    let f = spec_be64_bytes(v.firmware_version);
    let g = v.attested.spec_bytes();
    lemma_be32_roundtrip(TPM_GENERATED_VALUE);
    lemma_be64_len(v.firmware_version);
    lemma_be64_len(v.clock_info.clock);
    assert(s.subrange(0, v.spec_bytes().len() as int) =~= v.spec_bytes());
    lemma_split_run(s, 0, a + b + c + d + e + f, g);
    lemma_split_run(s, 0, a + b + c + d + e, f);
    lemma_split_run(s, 0, a + b + c + d, e);
    lemma_split_run(s, 0, a + b + c, d);
    lemma_split_run(s, 0, a + b, c);
    lemma_split_run(s, 0, a, b);
    lemma_read_u32_at(TPM_GENERATED_VALUE, s, 0);
    lemma_read_u16_of_bytes(s, 4, v.attest_type.spec_value());
    crate::data::st::lemma_st_value_roundtrip(v.attest_type);
    lemma_read_tpm2b_at(v.qualified_signer, MAX_NAME_SIZE, s, 6);
    lemma_read_tpm2b_at(v.extra_data, MAX_SENSITIVE_DATA, s, 6 + c.len() as int);
    lemma_read_clock_info_at(v.clock_info, s, 6 + c.len() as int + d.len() as int);
    lemma_read_u64_at(v.firmware_version, s, 6 + c.len() as int + d.len() as int + e.len() as int);
    lemma_read_attested_at(v.attest_type, v.attested, s, 14 + c.len() as int + d.len() as int + e.len() as int);
}

} // verus!
