//! Wire views of complete TPM command and response frames.
//!
//! A frame starts with a ten-byte header (tag, total size, command or response
//! code), followed by the handle area, then, when the tag says so, an
//! authorization area, and the parameters.

use crate::constant::{MAX_SESSIONS, TPM_HEADER_SIZE};
use crate::data::cc::{spec_cc_from_u32, TpmCc};
use crate::data::rc::{spec_rc_from_u32, TpmRc, TpmRcBase};
use crate::data::st::{spec_tpm_st_from_u16, TpmSt};
use crate::error::{TpmError, TpmResult};
use crate::frame::codec::{
    read_u16, read_u32, spec_be16, spec_be16_bytes, spec_be32, spec_be32_bytes, spec_splice,
    subslice_mut, write_u16, write_u32,
};
use crate::frame::dispatch::dispatch_for;
use vstd::prelude::*;
use vstd::slice::{slice_subrange, slice_to_vec};

verus! {

/// Offset of the tag field.
pub const TAG_OFFSET: usize = 0;
/// Offset of the size field.
pub const SIZE_OFFSET: usize = 2;
/// Offset of the command or response code field.
pub const CODE_OFFSET: usize = 6;

// ---------------------------------------------------------------------------
// The frame format, as spec functions over the frame bytes `s`.
// ---------------------------------------------------------------------------

/// The size a frame declares in its header, when `s` holds the header and at
/// least that many bytes.
pub open spec fn spec_frame_prefix_size(s: Seq<u8>) -> TpmResult<usize> {
    if s.len() < TPM_HEADER_SIZE {
        Err(TpmError::UnexpectedEnd { offset: 0, needed: TPM_HEADER_SIZE, available: s.len() as usize })
    } else {
        let size = spec_be32(s, SIZE_OFFSET as int) as usize;
        if s.len() < size {
            Err(TpmError::UnexpectedEnd { offset: s.len() as usize, needed: (size - s.len()) as usize, available: 0 })
        } else {
            Ok(size)
        }
    }
}

/// `s` is exactly as long as the size its header declares.
pub open spec fn spec_validate_frame_size(s: Seq<u8>) -> TpmResult<()> {
    match spec_frame_prefix_size(s) {
        Err(e) => Err(e),
        Ok(size) => if s.len() > size {
            Err(TpmError::TrailingData { offset: size, actual: (s.len() - size) as usize })
        } else {
            Ok(())
        },
    }
}

/// The tag of a frame; a value that is no tag is `VariantNotAvailable`.
pub open spec fn spec_frame_tag(s: Seq<u8>) -> TpmResult<TpmSt> {
    let raw = spec_be16(s, TAG_OFFSET as int);
    match spec_tpm_st_from_u16(raw) {
        Some(tag) => Ok(tag),
        None => Err(TpmError::VariantNotAvailable { offset: TAG_OFFSET, value: raw as u64 }),
    }
}

/// The tag of a frame as the envelope checks read it; a value that is no tag
/// is `InvalidTag`.
pub open spec fn spec_envelope_tag(s: Seq<u8>) -> TpmResult<TpmSt> {
    let raw = spec_be16(s, TAG_OFFSET as int);
    match spec_tpm_st_from_u16(raw) {
        Some(tag) => Ok(tag),
        None => Err(TpmError::InvalidTag { offset: TAG_OFFSET, value: raw as u64 }),
    }
}

/// The command code of a command frame.
pub open spec fn spec_command_code(s: Seq<u8>) -> TpmResult<TpmCc> {
    let raw = spec_be32(s, CODE_OFFSET as int);
    match spec_cc_from_u32(raw) {
        Some(cc) => Ok(cc),
        None => Err(TpmError::InvalidCc { offset: CODE_OFFSET, value: raw as u64 }),
    }
}

/// The response code of a response frame.
pub open spec fn spec_response_code(s: Seq<u8>) -> TpmResult<TpmRc> {
    let raw = spec_be32(s, CODE_OFFSET as int);
    match spec_rc_from_u32(raw) {
        Ok(rc) => Ok(rc),
        Err(_) => Err(TpmError::InvalidRc { offset: CODE_OFFSET, value: raw as u64 }),
    }
}

/// The end of the handle area of a command with code `cc`.
pub open spec fn spec_handle_area_end(cc: TpmCc) -> int {
    TPM_HEADER_SIZE + 4 * cc.spec_command_handles()
}

/// The authorization area of a frame whose handle area ends at `end`, as
/// `(start, end)` when the tag announces sessions: a four-byte size followed
/// by that many bytes.
pub open spec fn spec_auth_area_after(s: Seq<u8>, end: int) -> TpmResult<(usize, usize)> {
    if s.len() - end < 4 {
        Err(TpmError::UnexpectedEnd { offset: end as usize, needed: 4, available: (s.len() - end) as usize })
    } else {
        let auth_size = spec_be32(s, end) as usize;
        if 4 + auth_size > usize::MAX {
            Err(TpmError::IntegerTooLarge { offset: end as usize, value: auth_size as u64 })
        } else if s.len() - end < 4 + auth_size {
            Err(TpmError::UnexpectedEnd {
                offset: (end + 4) as usize,
                needed: auth_size,
                available: (s.len() - end - 4) as usize,
            })
        } else {
            Ok(((end + 4) as usize, (end + 4 + auth_size) as usize))
        }
    }
}

/// A command frame is exactly as long as its header says, its tag is one of
/// the two command tags, its command code is defined, and its handle area and
/// (when announced) its authorization area fit.
pub open spec fn spec_command_envelope(s: Seq<u8>) -> TpmResult<()> {
    match spec_validate_frame_size(s) {
        Err(e) => Err(e),
        Ok(_) => match spec_envelope_tag(s) {
            Err(e) => Err(e),
            Ok(tag) => if tag != TpmSt::NoSessions && tag != TpmSt::Sessions {
                Err(TpmError::InvalidTag { offset: TAG_OFFSET, value: spec_be16(s, 0) as u64 })
            } else {
                match spec_command_code(s) {
                    Err(e) => Err(e),
                    Ok(cc) => {
                        let handle_area = 4 * cc.spec_command_handles();
                        if s.len() - TPM_HEADER_SIZE < handle_area {
                            Err(TpmError::UnexpectedEnd {
                                offset: TPM_HEADER_SIZE,
                                needed: handle_area as usize,
                                available: (s.len() - TPM_HEADER_SIZE) as usize,
                            })
                        } else if tag == TpmSt::Sessions {
                            match spec_auth_area_after(s, spec_handle_area_end(cc)) {
                                Err(e) => Err(e),
                                Ok(_) => Ok(()),
                            }
                        } else {
                            Ok(())
                        }
                    },
                }
            },
        },
    }
}

/// The handle area of a command frame lies inside the frame, whenever the
/// command code is defined.
pub open spec fn spec_handle_area_fits(s: Seq<u8>) -> bool {
    spec_command_code(s) matches Ok(cc) ==> spec_handle_area_end(cc) <= s.len()
}

/// The authorization area of a command frame as `(start, end)`; the
/// parameters run from `end` to the end of the frame. Without sessions the
/// authorization area is empty and starts where the handle area ends.
pub open spec fn spec_command_areas(s: Seq<u8>) -> TpmResult<(usize, usize)> {
    match spec_command_code(s) {
        Err(e) => Err(e),
        Ok(cc) => {
            let end = spec_handle_area_end(cc);
            match spec_frame_tag(s) {
                Err(e) => Err(e),
                Ok(tag) => if tag != TpmSt::Sessions {
                    Ok((end as usize, end as usize))
                } else {
                    spec_auth_area_after(s, end)
                },
            }
        },
    }
}

/// The authorization area of a command frame as `(start, end)`. A command
/// without sessions has none: its tag is `InvalidTag` here.
pub open spec fn spec_command_auth_area(s: Seq<u8>) -> TpmResult<(usize, usize)> {
    match spec_command_areas(s) {
        Err(e) => Err(e),
        Ok(r) => if spec_frame_tag(s) == Ok::<TpmSt, TpmError>(TpmSt::Sessions) {
            Ok(r)
        } else {
            Err(TpmError::InvalidTag { offset: TAG_OFFSET, value: spec_be16(s, TAG_OFFSET as int) as u64 })
        },
    }
}

/// Skips a size-prefixed buffer (a two-byte size and that many bytes) that
/// starts at `pos` within `s[..end]`, giving the position after it.
pub open spec fn spec_skip_tpm2b(s: Seq<u8>, pos: int, end: int) -> TpmResult<usize> {
    if end - pos < 2 {
        Err(TpmError::UnexpectedEnd { offset: pos as usize, needed: 2, available: (end - pos) as usize })
    } else {
        let size = spec_be16(s, pos) as int;
        if end - pos < 2 + size {
            Err(TpmError::UnexpectedEnd {
                offset: pos as usize,
                needed: (2 + size) as usize,
                available: (end - pos) as usize,
            })
        } else {
            Ok((pos + 2 + size) as usize)
        }
    }
}

/// `s[pos..end]` is a sequence of command authorizations, `count` of them
/// having been seen before `pos`: each a four-byte session handle, a nonce,
/// one attribute byte and an HMAC, at most `MAX_SESSIONS` in all.
pub open spec fn spec_auth_commands(s: Seq<u8>, pos: int, end: int, count: nat) -> TpmResult<()>
    decreases end - pos,
    when 0 <= pos && end <= usize::MAX
{
    if pos >= end {
        Ok(())
    } else if count >= MAX_SESSIONS {
        Err(TpmError::TooManyItems { offset: pos as usize, limit: MAX_SESSIONS, actual: (count + 1) as usize })
    } else if end - pos < 4 {
        Err(TpmError::UnexpectedEnd { offset: pos as usize, needed: 4, available: (end - pos) as usize })
    } else {
        match spec_skip_tpm2b(s, pos + 4, end) {
            Err(e) => Err(e),
            Ok(p2) => if p2 >= end {
                Err(TpmError::UnexpectedEnd { offset: p2, needed: 1, available: 0 })
            } else {
                match spec_skip_tpm2b(s, p2 + 1, end) {
                    Err(e) => Err(e),
                    Ok(p4) => spec_auth_commands(s, p4 as int, end, count + 1),
                }
            },
        }
    }
}

/// `s[pos..end]` is a sequence of response authorizations, `count` of them
/// having been seen before `pos`: each a nonce, one attribute byte and an
/// HMAC, at most `MAX_SESSIONS` in all.
pub open spec fn spec_auth_responses(s: Seq<u8>, pos: int, end: int, count: nat) -> TpmResult<()>
    decreases end - pos,
    when 0 <= pos && end <= usize::MAX
{
    if pos >= end {
        Ok(())
    } else if count >= MAX_SESSIONS {
        Err(TpmError::TooManyItems { offset: pos as usize, limit: MAX_SESSIONS, actual: (count + 1) as usize })
    } else {
        match spec_skip_tpm2b(s, pos, end) {
            Err(e) => Err(e),
            Ok(p2) => if p2 >= end {
                Err(TpmError::UnexpectedEnd { offset: p2, needed: 1, available: 0 })
            } else {
                match spec_skip_tpm2b(s, p2 + 1, end) {
                    Err(e) => Err(e),
                    Ok(p4) => spec_auth_responses(s, p4 as int, end, count + 1),
                }
            },
        }
    }
}

/// A command frame is well formed: its envelope is valid and its
/// authorization area is a valid sequence of command authorizations.
pub open spec fn spec_validate_command(s: Seq<u8>) -> TpmResult<()> {
    match spec_command_envelope(s) {
        Err(e) => Err(e),
        Ok(_) => match spec_command_areas(s) {
            Err(e) => Err(e),
            Ok((start, end)) => spec_auth_commands(s, start as int, end as int, 0),
        },
    }
}

/// A response frame is exactly as long as its header says, and its tag and
/// response code are defined.
pub open spec fn spec_response_envelope(s: Seq<u8>) -> TpmResult<()> {
    match spec_validate_frame_size(s) {
        Err(e) => Err(e),
        Ok(_) => match spec_envelope_tag(s) {
            Err(e) => Err(e),
            Ok(_) => match spec_response_code(s) {
                Err(e) => Err(e),
                Ok(_) => Ok(()),
            },
        },
    }
}

/// A response frame to the command `cc` is well formed: its envelope is
/// valid, and a successful response with sessions holds its handle area, a
/// parameter size, that many parameter bytes and a valid sequence of response
/// authorizations up to the end.
pub open spec fn spec_validate_response(s: Seq<u8>, cc: TpmCc) -> TpmResult<()> {
    match spec_response_envelope(s) {
        Err(e) => Err(e),
        Ok(_) => if spec_response_code(s) != Ok::<TpmRc, TpmError>(TpmRc::Fmt0(TpmRcBase::Success)) {
            Ok(())
        } else if spec_frame_tag(s) != Ok::<TpmSt, TpmError>(TpmSt::Sessions) {
            Ok(())
        } else {
            let handle_area = 4 * cc.spec_response_handles();
            let body_len = s.len() - TPM_HEADER_SIZE;
            if body_len < handle_area {
                Err(TpmError::UnexpectedEnd {
                    offset: TPM_HEADER_SIZE,
                    needed: handle_area as usize,
                    available: body_len as usize,
                })
            } else {
                let after = TPM_HEADER_SIZE + handle_area;
                match spec_auth_area_after(s, after) {
                    Err(e) => Err(e),
                    Ok((_, sessions_start)) => spec_auth_responses(s, sessions_start as int, s.len() as int, 0),
                }
            }
        },
    }
}

// ---------------------------------------------------------------------------
// Checks over byte slices.
// ---------------------------------------------------------------------------

/// Returns the size declared by the frame at the start of `buf`.
pub fn frame_prefix_size(buf: &[u8]) -> (r: TpmResult<usize>)
    ensures
        r == spec_frame_prefix_size(buf@),
{
    if buf.len() < TPM_HEADER_SIZE {
        return Err(TpmError::UnexpectedEnd { offset: 0, needed: TPM_HEADER_SIZE, available: buf.len() });
    }
    let size = read_u32(buf, SIZE_OFFSET) as usize;
    if buf.len() < size {
        return Err(TpmError::UnexpectedEnd { offset: buf.len(), needed: size - buf.len(), available: 0 });
    }
    Ok(size)
}

/// Checks that `buf` is exactly as long as its header says.
pub fn validate_frame_size(buf: &[u8]) -> (r: TpmResult<()>)
    ensures
        r == spec_validate_frame_size(buf@),
{
    let size = frame_prefix_size(buf)?;
    if buf.len() > size {
        return Err(TpmError::TrailingData { offset: size, actual: buf.len() - size });
    }
    Ok(())
}

/// Decodes the tag of the frame in `buf`.
fn frame_tag(buf: &[u8]) -> (r: TpmResult<TpmSt>)
    requires
        TPM_HEADER_SIZE <= buf@.len(),
    ensures
        r == spec_frame_tag(buf@),
{
    let raw = read_u16(buf, TAG_OFFSET);
    match TpmSt::from_u16(raw) {
        Some(tag) => Ok(tag),
        None => Err(TpmError::VariantNotAvailable { offset: TAG_OFFSET, value: raw as u64 }),
    }
}

/// Decodes the tag of the frame in `buf` as the envelope checks read it.
fn envelope_tag(buf: &[u8]) -> (r: TpmResult<TpmSt>)
    requires
        TPM_HEADER_SIZE <= buf@.len(),
    ensures
        r == spec_envelope_tag(buf@),
{
    let raw = read_u16(buf, TAG_OFFSET);
    match TpmSt::from_u16(raw) {
        Some(tag) => Ok(tag),
        None => Err(TpmError::InvalidTag { offset: TAG_OFFSET, value: raw as u64 }),
    }
}

/// Decodes the command code of the command frame in `buf`.
pub fn command_code(buf: &[u8]) -> (r: TpmResult<TpmCc>)
    requires
        TPM_HEADER_SIZE <= buf@.len(),
    ensures
        r == spec_command_code(buf@),
{
    let raw = read_u32(buf, CODE_OFFSET);
    match TpmCc::from_u32(raw) {
        Some(cc) => Ok(cc),
        None => Err(TpmError::InvalidCc { offset: CODE_OFFSET, value: raw as u64 }),
    }
}

/// Decodes the response code of the response frame in `buf`.
fn response_code(buf: &[u8]) -> (r: TpmResult<TpmRc>)
    requires
        TPM_HEADER_SIZE <= buf@.len(),
    ensures
        r == spec_response_code(buf@),
{
    let raw = read_u32(buf, CODE_OFFSET);
    match TpmRc::try_from_u32(raw) {
        Ok(rc) => Ok(rc),
        Err(_) => Err(TpmError::InvalidRc { offset: CODE_OFFSET, value: raw as u64 }),
    }
}

/// Finds the authorization area that follows the handle area ending at `end`.
fn auth_area_after(buf: &[u8], end: usize) -> (r: TpmResult<(usize, usize)>)
    requires
        end <= buf@.len(),
    ensures
        r == spec_auth_area_after(buf@, end as int),
        r matches Ok((a, b)) ==> end + 4 == a <= b <= buf@.len(),
{
    let rest = buf.len() - end;
    if rest < 4 {
        return Err(TpmError::UnexpectedEnd { offset: end, needed: 4, available: rest });
    }
    let auth_size = read_u32(buf, end) as usize;
    let auth_end = match 4usize.checked_add(auth_size) {
        Some(n) => n,
        None => return Err(TpmError::IntegerTooLarge { offset: end, value: auth_size as u64 }),
    };
    if rest < auth_end {
        return Err(TpmError::UnexpectedEnd { offset: end + 4, needed: auth_size, available: rest - 4 });
    }
    Ok((end + 4, end + auth_end))
}

/// Checks the envelope of the command frame in `buf`.
pub fn validate_command_envelope(buf: &[u8]) -> (r: TpmResult<()>)
    ensures
        r == spec_command_envelope(buf@),
        r is Ok ==> TPM_HEADER_SIZE <= buf@.len() && spec_handle_area_fits(buf@),
{
    validate_frame_size(buf)?;
    let tag = envelope_tag(buf)?;
    if tag != TpmSt::NoSessions && tag != TpmSt::Sessions {
        let raw = read_u16(buf, TAG_OFFSET);
        return Err(TpmError::InvalidTag { offset: TAG_OFFSET, value: raw as u64 });
    }
    let cc = command_code(buf)?;
    let dispatch = dispatch_for(cc);
    let body_len = buf.len() - TPM_HEADER_SIZE;
    let handle_area_size = dispatch.handles * 4;
    if body_len < handle_area_size {
        return Err(TpmError::UnexpectedEnd { offset: TPM_HEADER_SIZE, needed: handle_area_size, available: body_len });
    }
    if tag == TpmSt::Sessions {
        auth_area_after(buf, TPM_HEADER_SIZE + handle_area_size)?;
    }
    Ok(())
}

/// Skips the size-prefixed buffer that starts at `pos` within `base[..end]`.
pub fn skip_tpm2b(base: &[u8], pos: usize, end: usize) -> (r: TpmResult<usize>)
    requires
        pos <= end <= base@.len(),
    ensures
        r == spec_skip_tpm2b(base@, pos as int, end as int),
        r matches Ok(p) ==> pos + 2 <= p <= end,
{
    if end - pos < 2 {
        return Err(TpmError::UnexpectedEnd { offset: pos, needed: 2, available: end - pos });
    }
    let size = read_u16(base, pos) as usize;
    let skip = 2 + size;
    if end - pos < skip {
        return Err(TpmError::UnexpectedEnd { offset: pos, needed: skip, available: end - pos });
    }
    Ok(pos + skip)
}

/// Checks that `base[start..end]` is a sequence of command authorizations.
pub fn validate_auth_commands(base: &[u8], start: usize, end: usize) -> (r: TpmResult<()>)
    requires
        start <= end <= base@.len(),
    ensures
        r == spec_auth_commands(base@, start as int, end as int, 0),
{
    let mut pos = start;
    let mut count: usize = 0;
    while pos < end
        invariant
            start <= pos <= end <= base@.len(),
            count <= MAX_SESSIONS,
            spec_auth_commands(base@, start as int, end as int, 0) == spec_auth_commands(
                base@,
                pos as int,
                end as int,
                count as nat,
            ),
        decreases end - pos,
    {
        if count >= MAX_SESSIONS {
            return Err(TpmError::TooManyItems { offset: pos, limit: MAX_SESSIONS, actual: count + 1 });
        }
        if end - pos < 4 {
            return Err(TpmError::UnexpectedEnd { offset: pos, needed: 4, available: end - pos });
        }
        let p2 = skip_tpm2b(base, pos + 4, end)?;
        if p2 >= end {
            return Err(TpmError::UnexpectedEnd { offset: p2, needed: 1, available: 0 });
        }
        let p4 = skip_tpm2b(base, p2 + 1, end)?;
        pos = p4;
        count = count + 1;
    }
    Ok(())
}

/// Checks that `base[start..end]` is a sequence of response authorizations.
pub fn validate_auth_responses(base: &[u8], start: usize, end: usize) -> (r: TpmResult<()>)
    requires
        start <= end <= base@.len(),
    ensures
        r == spec_auth_responses(base@, start as int, end as int, 0),
{
    let mut pos = start;
    let mut count: usize = 0;
    while pos < end
        invariant
            start <= pos <= end <= base@.len(),
            count <= MAX_SESSIONS,
            spec_auth_responses(base@, start as int, end as int, 0) == spec_auth_responses(
                base@,
                pos as int,
                end as int,
                count as nat,
            ),
        decreases end - pos,
    {
        if count >= MAX_SESSIONS {
            return Err(TpmError::TooManyItems { offset: pos, limit: MAX_SESSIONS, actual: count + 1 });
        }
        let p2 = skip_tpm2b(base, pos, end)?;
        if p2 >= end {
            return Err(TpmError::UnexpectedEnd { offset: p2, needed: 1, available: 0 });
        }
        let p4 = skip_tpm2b(base, p2 + 1, end)?;
        pos = p4;
        count = count + 1;
    }
    Ok(())
}

// ---------------------------------------------------------------------------
// Command frames.
// ---------------------------------------------------------------------------

/// A TPM command frame: the bytes of one complete command.
pub struct TpmCommand {
    bytes: Vec<u8>,
}

impl View for TpmCommand {
    type V = Seq<u8>;

    closed spec fn view(&self) -> Seq<u8> {
        self.bytes@
    }
}

impl TpmCommand {
    /// The frame holds at least a header.
    pub open spec fn has_header(&self) -> bool {
        TPM_HEADER_SIZE <= self@.len()
    }

    /// Checks the command envelope of `buf` and takes a copy of it as a
    /// command frame.
    pub fn cast(buf: &[u8]) -> (r: TpmResult<TpmCommand>)
        ensures
            r is Ok <==> spec_command_envelope(buf@) is Ok,
            r matches Ok(c) ==> c@ == buf@ && c.has_header() && spec_handle_area_fits(c@),
            r matches Err(e) ==> spec_command_envelope(buf@) == Err::<(), TpmError>(e),
    {
        validate_command_envelope(buf)?;
        Ok(TpmCommand { bytes: slice_to_vec(buf) })
    }

    /// Takes the command frame at the start of `buf`, returning it and the
    /// bytes after it.
    pub fn cast_prefix(buf: &[u8]) -> (r: TpmResult<(TpmCommand, &[u8])>)
        ensures
            match spec_frame_prefix_size(buf@) {
                Err(e) => r == Err::<(TpmCommand, &[u8]), TpmError>(e),
                Ok(size) => {
                    let frame = buf@.subrange(0, size as int);
                    &&& r is Ok <==> spec_command_envelope(frame) is Ok
                    &&& r matches Ok((c, tail)) ==> c@ == frame && tail@ == buf@.subrange(
                        size as int,
                        buf@.len() as int,
                    ) && c.has_header() && spec_handle_area_fits(c@)
                    &&& r matches Err(e) ==> spec_command_envelope(frame) == Err::<(), TpmError>(e)
                },
            },
    {
        let frame_len = frame_prefix_size(buf)?;
        let (frame, tail) = buf.split_at(frame_len);
        validate_command_envelope(frame)?;
        Ok((TpmCommand { bytes: slice_to_vec(frame) }, tail))
    }

    /// Returns the complete command frame bytes.
    pub fn as_bytes(&self) -> (r: &[u8])
        ensures
            r@ == self@,
    {
        self.bytes.as_slice()
    }

    /// Returns the command frame bytes for in-place changes. The frame keeps
    /// its length.
    pub fn as_bytes_mut(&mut self) -> (r: &mut [u8])
        ensures
            r@ == old(self)@,
            final(self)@ == final(r)@,
            final(r)@.len() == r@.len(),
    {
        let len = self.bytes.len();
        let all = self.bytes.as_mut_slice();
        subslice_mut(all, 0, len)
    }

    /// Returns the command tag.
    pub fn tag(&self) -> (r: TpmResult<TpmSt>)
        requires
            self.has_header(),
        ensures
            r == spec_frame_tag(self@),
    {
        frame_tag(self.bytes.as_slice())
    }

    /// Returns the command frame size field.
    pub fn size(&self) -> (r: u32)
        requires
            self.has_header(),
        ensures
            r == spec_be32(self@, SIZE_OFFSET as int),
    {
        read_u32(self.bytes.as_slice(), SIZE_OFFSET)
    }

    /// Returns the command code.
    pub fn cc(&self) -> (r: TpmResult<TpmCc>)
        requires
            self.has_header(),
        ensures
            r == spec_command_code(self@),
    {
        command_code(self.bytes.as_slice())
    }

    /// Sets the command tag without changing the frame shape.
    pub fn set_tag(&mut self, tag: TpmSt)
        requires
            old(self).has_header(),
        ensures
            final(self)@ == spec_splice(old(self)@, TAG_OFFSET as int, spec_be16_bytes(tag.spec_value())),
            final(self).has_header(),
    {
        write_u16(&mut self.bytes, TAG_OFFSET, tag.value());
    }

    /// Sets the command code without changing the frame shape. Every command
    /// code has a dispatch entry, so this always succeeds.
    pub fn set_cc(&mut self, cc: TpmCc) -> (r: TpmResult<()>)
        requires
            old(self).has_header(),
        ensures
            r is Ok,
            final(self)@ == spec_splice(old(self)@, CODE_OFFSET as int, spec_be32_bytes(cc.spec_value())),
            final(self).has_header(),
    {
        let _ = dispatch_for(cc);
        write_u32(&mut self.bytes, CODE_OFFSET, cc.value());
        Ok(())
    }

    /// The bounds of the handle area.
    fn handle_area_range(&self) -> (r: TpmResult<(usize, usize)>)
        requires
            self.has_header(),
            spec_handle_area_fits(self@),
        ensures
            match spec_command_code(self@) {
                Err(e) => r == Err::<(usize, usize), TpmError>(e),
                Ok(cc) => r == Ok::<(usize, usize), TpmError>(
                    (TPM_HEADER_SIZE, spec_handle_area_end(cc) as usize),
                ),
            },
            r matches Ok((a, b)) ==> a <= b <= self@.len(),
    {
        let dispatch = dispatch_for(self.cc()?);
        let handle_area_size = dispatch.handles * 4;
        Ok((TPM_HEADER_SIZE, TPM_HEADER_SIZE + handle_area_size))
    }

    /// The bounds of the authorization area; the parameters follow it up to
    /// the end of the frame.
    fn session_and_parameter_ranges(&self) -> (r: TpmResult<(usize, usize)>)
        requires
            self.has_header(),
            spec_handle_area_fits(self@),
        ensures
            r == spec_command_areas(self@),
            r matches Ok((a, b)) ==> a <= b <= self@.len(),
    {
        let (_, end) = self.handle_area_range()?;
        let tag = self.tag()?;
        if tag != TpmSt::Sessions {
            return Ok((end, end));
        }
        auth_area_after(self.bytes.as_slice(), end)
    }

    /// Returns the command handle area bytes.
    pub fn handles(&self) -> (r: TpmResult<&[u8]>)
        requires
            self.has_header(),
            spec_handle_area_fits(self@),
        ensures
            match spec_command_code(self@) {
                Err(e) => r == Err::<&[u8], TpmError>(e),
                Ok(cc) => r matches Ok(h) && h@ == self@.subrange(
                    TPM_HEADER_SIZE as int,
                    spec_handle_area_end(cc),
                ),
            },
    {
        let (a, b) = self.handle_area_range()?;
        Ok(slice_subrange(self.bytes.as_slice(), a, b))
    }

    /// Returns the command handle area bytes for in-place changes.
    pub fn handles_mut(&mut self) -> (r: TpmResult<&mut [u8]>)
        requires
            old(self).has_header(),
            spec_handle_area_fits(old(self)@),
        ensures
            match spec_command_code(old(self)@) {
                Err(e) => r == Err::<&mut [u8], TpmError>(e) && final(self)@ == old(self)@,
                Ok(cc) => r matches Ok(h) && h@ == old(self)@.subrange(
                    TPM_HEADER_SIZE as int,
                    spec_handle_area_end(cc),
                ) && final(h)@.len() == h@.len() && final(self)@ == spec_splice(
                    old(self)@,
                    TPM_HEADER_SIZE as int,
                    final(h)@,
                ),
            },
    {
        let (a, b) = self.handle_area_range()?;
        let all = self.bytes.as_mut_slice();
        let area = subslice_mut(all, a, b);
        Ok(area)
    }

    /// Returns the command authorization area bytes; a command without
    /// sessions has none, which is an error.
    pub fn auth_area(&self) -> (r: TpmResult<&[u8]>)
        requires
            self.has_header(),
            spec_handle_area_fits(self@),
        ensures
            match spec_command_auth_area(self@) {
                Err(e) => r == Err::<&[u8], TpmError>(e),
                Ok((a, b)) => r matches Ok(area) && area@ == self@.subrange(a as int, b as int),
            },
    {
        let (a, b) = self.session_and_parameter_ranges()?;
        let tag = self.tag()?;
        if tag != TpmSt::Sessions {
            let raw = read_u16(self.bytes.as_slice(), TAG_OFFSET);
            return Err(TpmError::InvalidTag { offset: TAG_OFFSET, value: raw as u64 });
        }
        Ok(slice_subrange(self.bytes.as_slice(), a, b))
    }

    /// Returns the command authorization area bytes for in-place changes; a
    /// command without sessions has none, which is an error.
    pub fn auth_area_mut(&mut self) -> (r: TpmResult<&mut [u8]>)
        requires
            old(self).has_header(),
            spec_handle_area_fits(old(self)@),
        ensures
            match spec_command_auth_area(old(self)@) {
                Err(e) => r == Err::<&mut [u8], TpmError>(e) && final(self)@ == old(self)@,
                Ok((a, b)) => r matches Ok(area) && area@ == old(self)@.subrange(a as int, b as int)
                    && final(area)@.len() == area@.len() && final(self)@ == spec_splice(
                    old(self)@,
                    a as int,
                    final(area)@,
                ),
            },
    {
        let (a, b) = self.session_and_parameter_ranges()?;
        let tag = self.tag()?;
        if tag != TpmSt::Sessions {
            let raw = read_u16(self.bytes.as_slice(), TAG_OFFSET);
            return Err(TpmError::InvalidTag { offset: TAG_OFFSET, value: raw as u64 });
        }
        let all = self.bytes.as_mut_slice();
        let area = subslice_mut(all, a, b);
        Ok(area)
    }

    /// Returns the command parameter area bytes.
    pub fn parameters(&self) -> (r: TpmResult<&[u8]>)
        requires
            self.has_header(),
            spec_handle_area_fits(self@),
        ensures
            match spec_command_areas(self@) {
                Err(e) => r == Err::<&[u8], TpmError>(e),
                Ok((_, b)) => r matches Ok(p) && p@ == self@.subrange(b as int, self@.len() as int),
            },
    {
        let (_, b) = self.session_and_parameter_ranges()?;
        Ok(slice_subrange(self.bytes.as_slice(), b, self.bytes.len()))
    }

    /// Returns the command parameter area bytes for in-place changes.
    pub fn parameters_mut(&mut self) -> (r: TpmResult<&mut [u8]>)
        requires
            old(self).has_header(),
            spec_handle_area_fits(old(self)@),
        ensures
            match spec_command_areas(old(self)@) {
                Err(e) => r == Err::<&mut [u8], TpmError>(e) && final(self)@ == old(self)@,
                Ok((_, b)) => r matches Ok(p) && p@ == old(self)@.subrange(
                    b as int,
                    old(self)@.len() as int,
                ) && final(p)@.len() == p@.len() && final(self)@ == spec_splice(
                    old(self)@,
                    b as int,
                    final(p)@,
                ),
            },
    {
        let (_, b) = self.session_and_parameter_ranges()?;
        let len = self.bytes.len();
        let all = self.bytes.as_mut_slice();
        let area = subslice_mut(all, b, len);
        Ok(area)
    }

    /// Validates the command frame structure: the envelope and every command
    /// authorization.
    pub fn validate(&self) -> (r: TpmResult<()>)
        ensures
            r == spec_validate_command(self@),
    {
        validate_command_envelope(self.bytes.as_slice())?;
        let (a, b) = self.session_and_parameter_ranges()?;
        validate_auth_commands(self.bytes.as_slice(), a, b)
    }

    /// Returns `true` when the command frame contains no bytes.
    pub fn is_empty(&self) -> (r: bool)
        ensures
            r == (self@.len() == 0),
    {
        self.bytes.len() == 0
    }

    /// Returns the command frame length.
    pub fn len(&self) -> (r: usize)
        ensures
            r == self@.len(),
    {
        self.bytes.len()
    }
}

// ---------------------------------------------------------------------------
// Response frames.
// ---------------------------------------------------------------------------

/// Checks the envelope of the response frame in `buf`.
pub fn validate_response_envelope(buf: &[u8]) -> (r: TpmResult<()>)
    ensures
        r == spec_response_envelope(buf@),
        r is Ok ==> TPM_HEADER_SIZE <= buf@.len(),
{
    validate_frame_size(buf)?;
    let _ = envelope_tag(buf)?;
    let _ = response_code(buf)?;
    Ok(())
}

/// A TPM response frame: the bytes of one complete response.
pub struct TpmResponse {
    bytes: Vec<u8>,
}

impl View for TpmResponse {
    type V = Seq<u8>;

    closed spec fn view(&self) -> Seq<u8> {
        self.bytes@
    }
}

impl TpmResponse {
    /// The frame holds at least a header.
    pub open spec fn has_header(&self) -> bool {
        TPM_HEADER_SIZE <= self@.len()
    }

    /// Checks the response envelope of `buf` and takes a copy of it as a
    /// response frame.
    pub fn cast(buf: &[u8]) -> (r: TpmResult<TpmResponse>)
        ensures
            r is Ok <==> spec_response_envelope(buf@) is Ok,
            r matches Ok(c) ==> c@ == buf@ && c.has_header(),
            r matches Err(e) ==> spec_response_envelope(buf@) == Err::<(), TpmError>(e),
    {
        validate_response_envelope(buf)?;
        Ok(TpmResponse { bytes: slice_to_vec(buf) })
    }

    /// Takes the response frame at the start of `buf`, returning it and the
    /// bytes after it.
    pub fn cast_prefix(buf: &[u8]) -> (r: TpmResult<(TpmResponse, &[u8])>)
        ensures
            match spec_frame_prefix_size(buf@) {
                Err(e) => r == Err::<(TpmResponse, &[u8]), TpmError>(e),
                Ok(size) => {
                    let frame = buf@.subrange(0, size as int);
                    &&& r is Ok <==> spec_response_envelope(frame) is Ok
                    &&& r matches Ok((c, tail)) ==> c@ == frame && tail@ == buf@.subrange(
                        size as int,
                        buf@.len() as int,
                    ) && c.has_header()
                    &&& r matches Err(e) ==> spec_response_envelope(frame) == Err::<(), TpmError>(e)
                },
            },
    {
        let frame_len = frame_prefix_size(buf)?;
        let (frame, tail) = buf.split_at(frame_len);
        validate_response_envelope(frame)?;
        Ok((TpmResponse { bytes: slice_to_vec(frame) }, tail))
    }

    /// Returns the complete response frame bytes.
    pub fn as_bytes(&self) -> (r: &[u8])
        ensures
            r@ == self@,
    {
        self.bytes.as_slice()
    }

    /// Returns the response frame bytes for in-place changes. The frame keeps
    /// its length.
    pub fn as_bytes_mut(&mut self) -> (r: &mut [u8])
        ensures
            r@ == old(self)@,
            final(self)@ == final(r)@,
            final(r)@.len() == r@.len(),
    {
        let len = self.bytes.len();
        let all = self.bytes.as_mut_slice();
        subslice_mut(all, 0, len)
    }

    /// Returns the response tag.
    pub fn tag(&self) -> (r: TpmResult<TpmSt>)
        requires
            self.has_header(),
        ensures
            r == spec_frame_tag(self@),
    {
        frame_tag(self.bytes.as_slice())
    }

    /// Returns the response frame size field.
    pub fn size(&self) -> (r: u32)
        requires
            self.has_header(),
        ensures
            r == spec_be32(self@, SIZE_OFFSET as int),
    {
        read_u32(self.bytes.as_slice(), SIZE_OFFSET)
    }

    /// Returns the response code.
    pub fn rc(&self) -> (r: TpmResult<TpmRc>)
        requires
            self.has_header(),
        ensures
            r == spec_response_code(self@),
    {
        response_code(self.bytes.as_slice())
    }

    /// Sets the response tag without changing the frame shape.
    pub fn set_tag(&mut self, tag: TpmSt)
        requires
            old(self).has_header(),
        ensures
            final(self)@ == spec_splice(old(self)@, TAG_OFFSET as int, spec_be16_bytes(tag.spec_value())),
            final(self).has_header(),
    {
        write_u16(&mut self.bytes, TAG_OFFSET, tag.value());
    }

    /// Sets the response code without changing the frame shape.
    pub fn set_rc(&mut self, rc: TpmRc)
        requires
            old(self).has_header(),
            rc.value_defined(),
        ensures
            final(self)@ == spec_splice(old(self)@, CODE_OFFSET as int, spec_be32_bytes(rc.spec_value())),
            final(self).has_header(),
    {
        write_u32(&mut self.bytes, CODE_OFFSET, rc.value());
    }

    /// Returns the response body bytes after the header.
    pub fn body(&self) -> (r: &[u8])
        requires
            self.has_header(),
        ensures
            r@ == self@.subrange(TPM_HEADER_SIZE as int, self@.len() as int),
    {
        slice_subrange(self.bytes.as_slice(), TPM_HEADER_SIZE, self.bytes.len())
    }

    /// Returns the response body bytes after the header for in-place changes.
    pub fn body_mut(&mut self) -> (r: &mut [u8])
        requires
            old(self).has_header(),
        ensures
            r@ == old(self)@.subrange(TPM_HEADER_SIZE as int, old(self)@.len() as int),
            final(r)@.len() == r@.len(),
            final(self)@ == spec_splice(old(self)@, TPM_HEADER_SIZE as int, final(r)@),
    {
        let len = self.bytes.len();
        let all = self.bytes.as_mut_slice();
        subslice_mut(all, TPM_HEADER_SIZE, len)
    }

    /// Validates the response frame structure as a response to `cc`.
    pub fn validate(&self, cc: TpmCc) -> (r: TpmResult<()>)
        ensures
            r == spec_validate_response(self@, cc),
    {
        validate_response_envelope(self.bytes.as_slice())?;
        let dispatch = dispatch_for(cc);
        let rc = self.rc()?;
        if rc != TpmRc::Fmt0(TpmRcBase::Success) {
            return Ok(());
        }
        let tag = self.tag()?;
        if tag != TpmSt::Sessions {
            return Ok(());
        }
        let handle_area_size = dispatch.response_handles * 4;
        let body_len = self.bytes.len() - TPM_HEADER_SIZE;
        if body_len < handle_area_size {
            return Err(TpmError::UnexpectedEnd { offset: TPM_HEADER_SIZE, needed: handle_area_size, available: body_len });
        }
        let (_, sessions_start) = auth_area_after(self.bytes.as_slice(), TPM_HEADER_SIZE + handle_area_size)?;
        validate_auth_responses(self.bytes.as_slice(), sessions_start, self.bytes.len())
    }

    /// Returns `true` when the response frame contains no bytes.
    pub fn is_empty(&self) -> (r: bool)
        ensures
            r == (self@.len() == 0),
    {
        self.bytes.len() == 0
    }

    /// Returns the response frame length.
    pub fn len(&self) -> (r: usize)
        ensures
            r == self@.len(),
    {
        self.bytes.len()
    }
}

} // verus!
