//! Command parsing with the coarse error kinds of the message layer.

use crate::constant::TPM_HEADER_SIZE;
use crate::data::cc::{spec_cc_from_u32, TpmCc};
use crate::data::st::{spec_tpm_st_from_u16, TpmSt};
use crate::error::TpmError;
use crate::data::rc::{spec_rc_from_u32, TpmRc, TpmRcBase};
use crate::frame::auth::{
    auth_command_views, auth_response_views, parse_auth_commands, parse_auth_responses,
    spec_parse_auth_commands, spec_parse_auth_responses, AuthCommandView, AuthResponseView,
    TpmsAuthCommand, TpmsAuthResponse,
};
use crate::frame::codec::{read_u16, read_u32, spec_be16, spec_be32};
use crate::frame::dispatch::dispatch_for;
use crate::frame::marshal::{TpmCommandBody, TpmResponseBody};
use crate::frame::unmarshal::{
    read_handles, spec_read_handles, spec_unmarshal_command, spec_unmarshal_response, CommandParts,
    ResponseParts,
};
use vstd::prelude::*;
use vstd::slice::{slice_subrange, slice_to_vec};

verus! {

/// What went wrong while parsing a message, coarsely.
#[derive(Debug, Clone, Copy, PartialEq, Eq)]
pub enum TpmErrorKind {
    /// The buffer is too small.
    ParseUnderflow,
    /// A value is not a discriminant of the named type.
    NotDiscriminant(&'static str, u64),
    /// Bytes are left over.
    TrailingData,
    /// A value is not allowed where it stands.
    InvalidValue,
    /// A list holds more items than it may.
    ParseCapacity,
}

/// A message error as plain values.
pub enum TpmErrorKindView {
    ParseUnderflow,
    NotDiscriminant(Seq<char>, u64),
    TrailingData,
    InvalidValue,
    ParseCapacity,
}

impl View for TpmErrorKind {
    type V = TpmErrorKindView;

    open spec fn view(&self) -> TpmErrorKindView {
        match self {
            TpmErrorKind::ParseUnderflow => TpmErrorKindView::ParseUnderflow,
            TpmErrorKind::NotDiscriminant(name, v) => TpmErrorKindView::NotDiscriminant(name@, *v),
            TpmErrorKind::TrailingData => TpmErrorKindView::TrailingData,
            TpmErrorKind::InvalidValue => TpmErrorKindView::InvalidValue,
            TpmErrorKind::ParseCapacity => TpmErrorKindView::ParseCapacity,
        }
    }
}

/// The coarse kind of an authorization parsing error: a short buffer is an
/// underflow, too many items or too large a buffer a capacity error.
pub open spec fn spec_error_kind(e: TpmError) -> TpmErrorKindView {
    match e {
        TpmError::UnexpectedEnd { .. } => TpmErrorKindView::ParseUnderflow,
        TpmError::TooManyItems { .. } => TpmErrorKindView::ParseCapacity,
        _ => TpmErrorKindView::InvalidValue,
    }
}

fn error_kind(e: TpmError) -> (r: TpmErrorKind)
    ensures
        r@ == spec_error_kind(e),
{
    match e {
        TpmError::UnexpectedEnd { .. } => TpmErrorKind::ParseUnderflow,
        TpmError::TooManyItems { .. } => TpmErrorKind::ParseCapacity,
        _ => TpmErrorKind::InvalidValue,
    }
}

/// The result of parsing the command frame `s`: the tag is decoded first,
/// then the size is checked against the buffer, then the command code is
/// decoded; the tag must be a command tag; the handle area, and under
/// `Sessions` the authorization area, must fit; the rest is parameters.
pub open spec fn spec_parse_command(s: Seq<u8>) -> Result<CommandParts, TpmErrorKindView> {
    let len = s.len();
    if len < TPM_HEADER_SIZE {
        Err(TpmErrorKindView::ParseUnderflow)
    } else {
        let raw_tag = spec_be16(s, 0);
        let size = spec_be32(s, 2);
        let raw_cc = spec_be32(s, 6);
        match spec_tpm_st_from_u16(raw_tag) {
            None => Err(TpmErrorKindView::NotDiscriminant("TpmSt"@, raw_tag as u64)),
            Some(tag) => if len < size {
                Err(TpmErrorKindView::ParseUnderflow)
            } else if len > size {
                Err(TpmErrorKindView::TrailingData)
            } else {
                match spec_cc_from_u32(raw_cc) {
                    None => Err(TpmErrorKindView::NotDiscriminant("TpmCc"@, raw_cc as u64)),
                    Some(cc) => if tag != TpmSt::NoSessions && tag != TpmSt::Sessions {
                        Err(TpmErrorKindView::InvalidValue)
                    } else {
                        let n = cc.spec_command_handles();
                        let hend = TPM_HEADER_SIZE + 4 * n;
                        if len - TPM_HEADER_SIZE < 4 * n {
                            Err(TpmErrorKindView::ParseUnderflow)
                        } else {
                            let handles = spec_read_handles(s, TPM_HEADER_SIZE as int, n as nat);
                            if tag == TpmSt::Sessions {
                                if len - hend < 4 {
                                    Err(TpmErrorKindView::ParseUnderflow)
                                } else {
                                    let asize = spec_be32(s, hend) as int;
                                    let astart = hend + 4;
                                    if len - astart < asize {
                                        Err(TpmErrorKindView::ParseUnderflow)
                                    } else {
                                        match spec_parse_auth_commands(s, astart, astart + asize, 0) {
                                            Err(e) => Err(spec_error_kind(e)),
                                            Ok(sessions) => Ok(CommandParts {
                                                cc,
                                                handles,
                                                parameters: s.subrange(astart + asize, len as int),
                                                sessions,
                                            }),
                                        }
                                    }
                                }
                            } else {
                                Ok(CommandParts {
                                    cc,
                                    handles,
                                    parameters: s.subrange(hend, len as int),
                                    sessions: Seq::empty(),
                                })
                            }
                        }
                    },
                }
            },
        }
    }
}

/// Parses a command from a TPM command buffer.
#[verifier::spinoff_prover]
pub fn tpm_parse_command(buf: &[u8]) -> (r: Result<(Vec<u32>, TpmCommandBody, Vec<TpmsAuthCommand>), TpmErrorKind>)
    ensures
        match spec_parse_command(buf@) {
            Err(e) => r matches Err(k) && k@ == e,
            Ok(p) => r matches Ok((handles, body, sessions)) && handles@ == p.handles
                && body.cc == p.cc && body.handles@ == p.handles && body.parameters@ == p.parameters
                && auth_command_views(sessions@) == p.sessions,
        },
{
    let len = buf.len();
    if len < TPM_HEADER_SIZE {
        return Err(TpmErrorKind::ParseUnderflow);
    }
    let raw_tag = read_u16(buf, 0);
    let tag = match TpmSt::from_u16(raw_tag) {
        Some(t) => t,
        None => return Err(TpmErrorKind::NotDiscriminant("TpmSt", raw_tag as u64)),
    };
    let size = read_u32(buf, 2) as usize;
    let raw_cc = read_u32(buf, 6);
    if len < size {
        return Err(TpmErrorKind::ParseUnderflow);
    } else if len > size {
        return Err(TpmErrorKind::TrailingData);
    }
    let cc = match TpmCc::from_u32(raw_cc) {
        Some(c) => c,
        None => return Err(TpmErrorKind::NotDiscriminant("TpmCc", raw_cc as u64)),
    };
    let dispatch = dispatch_for(cc);
    if tag != TpmSt::NoSessions && tag != TpmSt::Sessions {
        return Err(TpmErrorKind::InvalidValue);
    }
    let handle_area_size = dispatch.handles * 4;
    if len - TPM_HEADER_SIZE < handle_area_size {
        return Err(TpmErrorKind::ParseUnderflow);
    }
    let handle_end = TPM_HEADER_SIZE + handle_area_size;
    let (sessions, param_start) = if tag == TpmSt::Sessions {
        if len - handle_end < 4 {
            return Err(TpmErrorKind::ParseUnderflow);
        }
        let auth_size = read_u32(buf, handle_end) as usize;
        let auth_start = handle_end + 4;
        if len - auth_start < auth_size {
            return Err(TpmErrorKind::ParseUnderflow);
        }
        let sessions = match parse_auth_commands(buf, auth_start, auth_start + auth_size) {
            Ok(s) => s,
            Err(e) => return Err(error_kind(e)),
        };
        (sessions, auth_start + auth_size)
    } else {
        (Vec::new(), handle_end)
    };
    let parameters = slice_to_vec(slice_subrange(buf, param_start, len));
    let handles = read_handles(buf, TPM_HEADER_SIZE, dispatch.handles);
    let body_handles = read_handles(buf, TPM_HEADER_SIZE, dispatch.handles);
    proof {
        if tag != TpmSt::Sessions {
            assert(auth_command_views(sessions@) =~= Seq::<AuthCommandView>::empty());
        }
    }
    Ok((handles, TpmCommandBody { cc, handles: body_handles, parameters }, sessions))
}

/// The two command parsers accept the same frames and give the same parts;
/// they differ only in how they report an error.
pub proof fn lemma_parse_agrees_with_unmarshal(s: Seq<u8>)
    ensures
        spec_parse_command(s) is Ok <==> spec_unmarshal_command(s) is Ok,
        spec_parse_command(s) is Ok ==> spec_parse_command(s)->Ok_0 == spec_unmarshal_command(s)->Ok_0,
{
}

/// The result of parsing the response frame `s` to the command `cc`: the
/// size is checked against the buffer first, then the response code is
/// decoded, and an unsuccessful response ends there; then the tag is decoded
/// and the handle area, the parameter area and (under `Sessions`) the
/// authorizations must fit.
pub open spec fn spec_parse_response(cc: TpmCc, s: Seq<u8>) -> Result<Result<ResponseParts, TpmRc>, TpmErrorKindView> {
    let len = s.len();
    if len < TPM_HEADER_SIZE {
        Err(TpmErrorKindView::ParseUnderflow)
    } else {
        let raw_tag = spec_be16(s, 0);
        let size = spec_be32(s, 2);
        let raw_rc = spec_be32(s, 6);
        if len < size {
            Err(TpmErrorKindView::ParseUnderflow)
        } else if len > size {
            Err(TpmErrorKindView::TrailingData)
        } else {
            match spec_rc_from_u32(raw_rc) {
                Err(_) => Err(TpmErrorKindView::NotDiscriminant("TpmRc"@, raw_rc as u64)),
                Ok(rc) => if rc != TpmRc::Fmt0(TpmRcBase::Success) {
                    Ok(Err(rc))
                } else {
                    match spec_tpm_st_from_u16(raw_tag) {
                        None => Err(TpmErrorKindView::NotDiscriminant("TpmSt"@, raw_tag as u64)),
                        Some(tag) => {
                            let n = cc.spec_response_handles();
                            let hend = TPM_HEADER_SIZE + 4 * n;
                            if len - TPM_HEADER_SIZE < 4 * n {
                                Err(TpmErrorKindView::ParseUnderflow)
                            } else {
                                let handles = spec_read_handles(s, TPM_HEADER_SIZE as int, n as nat);
                                if tag == TpmSt::Sessions {
                                    if len - hend < 4 {
                                        Err(TpmErrorKindView::ParseUnderflow)
                                    } else {
                                        let psize = spec_be32(s, hend) as int;
                                        let pstart = hend + 4;
                                        if len - pstart < psize {
                                            Err(TpmErrorKindView::ParseUnderflow)
                                        } else {
                                            match spec_parse_auth_responses(s, pstart + psize, len as int, 0) {
                                                Err(e) => Err(spec_error_kind(e)),
                                                Ok(sessions) => Ok(Ok(ResponseParts {
                                                    handles,
                                                    parameters: s.subrange(pstart, pstart + psize),
                                                    sessions,
                                                })),
                                            }
                                        }
                                    }
                                } else {
                                    Ok(Ok(ResponseParts {
                                        handles,
                                        parameters: s.subrange(hend, len as int),
                                        sessions: Seq::empty(),
                                    }))
                                }
                            }
                        },
                    }
                },
            }
        }
    }
}

/// Parses a response from a TPM response buffer.
#[verifier::spinoff_prover]
pub fn tpm_parse_response(cc: TpmCc, buf: &[u8]) -> (r: Result<Result<(TpmResponseBody, Vec<TpmsAuthResponse>), TpmRc>, TpmErrorKind>)
    ensures
        match spec_parse_response(cc, buf@) {
            Err(e) => r matches Err(k) && k@ == e,
            Ok(Err(rc)) => r == Ok::<Result<(TpmResponseBody, Vec<TpmsAuthResponse>), TpmRc>, TpmErrorKind>(Err(rc)),
            Ok(Ok(p)) => r matches Ok(Ok((body, sessions))) && body.cc == cc && body.handles@ == p.handles
                && body.parameters@ == p.parameters && auth_response_views(sessions@) == p.sessions,
        },
{
    let len = buf.len();
    if len < TPM_HEADER_SIZE {
        return Err(TpmErrorKind::ParseUnderflow);
    }
    let raw_tag = read_u16(buf, 0);
    let size = read_u32(buf, 2) as usize;
    let raw_rc = read_u32(buf, 6);
    if len < size {
        return Err(TpmErrorKind::ParseUnderflow);
    } else if len > size {
        return Err(TpmErrorKind::TrailingData);
    }
    let rc = match TpmRc::try_from_u32(raw_rc) {
        Ok(rc) => rc,
        Err(_) => return Err(TpmErrorKind::NotDiscriminant("TpmRc", raw_rc as u64)),
    };
    if rc != TpmRc::Fmt0(TpmRcBase::Success) {
        return Ok(Err(rc));
    }
    let tag = match TpmSt::from_u16(raw_tag) {
        Some(t) => t,
        None => return Err(TpmErrorKind::NotDiscriminant("TpmSt", raw_tag as u64)),
    };
    let dispatch = dispatch_for(cc);
    let handle_area_size = dispatch.response_handles * 4;
    if len - TPM_HEADER_SIZE < handle_area_size {
        return Err(TpmErrorKind::ParseUnderflow);
    }
    let handle_end = TPM_HEADER_SIZE + handle_area_size;
    let handles = read_handles(buf, TPM_HEADER_SIZE, dispatch.response_handles);
    if tag == TpmSt::Sessions {
        if len - handle_end < 4 {
            return Err(TpmErrorKind::ParseUnderflow);
        }
        let param_size = read_u32(buf, handle_end) as usize;
        let param_start = handle_end + 4;
        if len - param_start < param_size {
            return Err(TpmErrorKind::ParseUnderflow);
        }
        let param_end = param_start + param_size;
        let sessions = match parse_auth_responses(buf, param_end, len) {
            Ok(s) => s,
            Err(e) => return Err(error_kind(e)),
        };
        let parameters = slice_to_vec(slice_subrange(buf, param_start, param_end));
        Ok(Ok((TpmResponseBody { cc, handles, parameters }, sessions)))
    } else {
        let parameters = slice_to_vec(slice_subrange(buf, handle_end, len));
        let sessions: Vec<TpmsAuthResponse> = Vec::new();
        assert(auth_response_views(sessions@) =~= Seq::<AuthResponseView>::empty());
        Ok(Ok((TpmResponseBody { cc, handles, parameters }, sessions)))
    }
}

/// On frames whose tag is defined, the two response parsers accept the same
/// successful frames and give the same parts, and give the same response
/// code for the same unsuccessful ones; they differ only in how they report
/// an error. (An unsuccessful response with an undefined tag is refused by
/// `tpm_unmarshal_response` and answered with its code by
/// `tpm_parse_response`.)
pub proof fn lemma_parse_response_agrees_with_unmarshal(cc: TpmCc, s: Seq<u8>)
    requires
        s.len() >= TPM_HEADER_SIZE ==> spec_tpm_st_from_u16(spec_be16(s, 0)) is Some,
    ensures
        spec_parse_response(cc, s) is Ok <==> spec_unmarshal_response(cc, s) is Ok,
        spec_parse_response(cc, s) is Ok ==> spec_parse_response(cc, s)->Ok_0 == spec_unmarshal_response(cc, s)->Ok_0,
{
}

} // verus!
