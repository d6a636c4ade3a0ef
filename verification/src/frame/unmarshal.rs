//! Unmarshaling of command and response frames.

use crate::constant::TPM_HEADER_SIZE;
use crate::data::cc::{spec_cc_from_u32, TpmCc};
use crate::data::rc::{spec_rc_from_u32, TpmRc, TpmRcBase};
use crate::data::st::{spec_tpm_st_from_u16, TpmSt};
use crate::error::{TpmError, TpmResult};
use crate::frame::auth::{
    auth_command_views, auth_response_views, parse_auth_commands, parse_auth_responses,
    spec_parse_auth_commands, spec_parse_auth_responses, AuthCommandView, AuthResponseView,
    TpmsAuthCommand, TpmsAuthResponse,
};
use crate::frame::codec::{read_u16, read_u32, spec_be16, spec_be32};
use crate::frame::dispatch::dispatch_for;
use crate::frame::marshal::{TpmCommandBody, TpmResponseBody};
use vstd::prelude::*;
use vstd::slice::{slice_subrange, slice_to_vec};

verus! {

/// The parts of an unmarshaled command frame.
pub struct CommandParts {
    pub cc: TpmCc,
    pub handles: Seq<u32>,
    pub parameters: Seq<u8>,
    pub sessions: Seq<AuthCommandView>,
}

/// The parts of an unmarshaled successful response frame.
pub struct ResponseParts {
    pub handles: Seq<u32>,
    pub parameters: Seq<u8>,
    pub sessions: Seq<AuthResponseView>,
}

/// The `n` big-endian handles stored from `start` on.
pub open spec fn spec_read_handles(s: Seq<u8>, start: int, n: nat) -> Seq<u32> {
    Seq::new(n, |i: int| spec_be32(s, start + 4 * i))
}

/// The result of unmarshaling the command frame `s`.
///
/// The header must hold a defined tag, the size of `s` and a defined command
/// code; the tag must be one of the two command tags; the handle area must
/// fit; under `Sessions` a four-byte size and that many bytes of command
/// authorizations follow the handles (at most `MAX_SESSIONS` of them); the
/// rest of the frame is the parameter area.
pub open spec fn spec_unmarshal_command(s: Seq<u8>) -> TpmResult<CommandParts> {
    let len = s.len();
    if len < TPM_HEADER_SIZE {
        Err(TpmError::UnexpectedEnd { offset: 0, needed: TPM_HEADER_SIZE, available: len as usize })
    } else {
        let raw_tag = spec_be16(s, 0);
        let size = spec_be32(s, 2) as usize;
        let raw_cc = spec_be32(s, 6);
        match spec_tpm_st_from_u16(raw_tag) {
            None => Err(TpmError::InvalidTag { offset: 0, value: raw_tag as u64 }),
            Some(tag) => match spec_cc_from_u32(raw_cc) {
                None => Err(TpmError::InvalidCc { offset: 6, value: raw_cc as u64 }),
                Some(cc) => if len < size {
                    Err(TpmError::UnexpectedEnd { offset: len as usize, needed: (size - len) as usize, available: 0 })
                } else if len > size {
                    Err(TpmError::TrailingData { offset: size, actual: (len - size) as usize })
                } else if tag != TpmSt::NoSessions && tag != TpmSt::Sessions {
                    Err(TpmError::InvalidTag { offset: 0, value: raw_tag as u64 })
                } else {
                    let n = cc.spec_command_handles();
                    let handle_end = TPM_HEADER_SIZE + 4 * n;
                    if len - TPM_HEADER_SIZE < 4 * n {
                        Err(TpmError::UnexpectedEnd {
                            offset: TPM_HEADER_SIZE,
                            needed: (4 * n) as usize,
                            available: (len - TPM_HEADER_SIZE) as usize,
                        })
                    } else {
                        let handles = spec_read_handles(s, TPM_HEADER_SIZE as int, n as nat);
                        if tag == TpmSt::Sessions {
                            if len - handle_end < 4 {
                                Err(TpmError::UnexpectedEnd {
                                    offset: handle_end as usize,
                                    needed: 4,
                                    available: (len - handle_end) as usize,
                                })
                            } else {
                                let auth_size = spec_be32(s, handle_end) as int;
                                let auth_start = handle_end + 4;
                                if len - auth_start < auth_size {
                                    Err(TpmError::UnexpectedEnd {
                                        offset: auth_start as usize,
                                        needed: auth_size as usize,
                                        available: (len - auth_start) as usize,
                                    })
                                } else {
                                    match spec_parse_auth_commands(s, auth_start, auth_start + auth_size, 0) {
                                        Err(e) => Err(e),
                                        Ok(sessions) => Ok(CommandParts {
                                            cc,
                                            handles,
                                            parameters: s.subrange(auth_start + auth_size, len as int),
                                            sessions,
                                        }),
                                    }
                                }
                            }
                        } else {
                            Ok(CommandParts {
                                cc,
                                handles,
                                parameters: s.subrange(handle_end, len as int),
                                sessions: Seq::empty(),
                            })
                        }
                    }
                },
            },
        }
    }
}

/// The result of unmarshaling the response frame `s` to the command `cc`:
/// an error, the response code of an unsuccessful response, or the parts of a
/// successful one.
///
/// The header must hold a defined tag, the size of `s` and a defined response
/// code. A successful response holds its handles; under `Sessions` a
/// four-byte parameter size and that many parameter bytes follow, and the
/// rest of the frame is response authorizations (at most `MAX_SESSIONS`);
/// otherwise the rest of the frame is the parameters.
pub open spec fn spec_unmarshal_response(cc: TpmCc, s: Seq<u8>) -> TpmResult<Result<ResponseParts, TpmRc>> {
    let len = s.len();
    if len < TPM_HEADER_SIZE {
        Err(TpmError::UnexpectedEnd { offset: 0, needed: TPM_HEADER_SIZE, available: len as usize })
    } else {
        let raw_tag = spec_be16(s, 0);
        let size = spec_be32(s, 2) as usize;
        let raw_rc = spec_be32(s, 6);
        match spec_tpm_st_from_u16(raw_tag) {
            None => Err(TpmError::InvalidTag { offset: 0, value: raw_tag as u64 }),
            Some(tag) => match spec_rc_from_u32(raw_rc) {
                Err(_) => Err(TpmError::InvalidRc { offset: 6, value: raw_rc as u64 }),
                Ok(rc) => if len < size {
                    Err(TpmError::UnexpectedEnd { offset: len as usize, needed: (size - len) as usize, available: 0 })
                } else if len > size {
                    Err(TpmError::TrailingData { offset: size, actual: (len - size) as usize })
                } else if rc != TpmRc::Fmt0(TpmRcBase::Success) {
                    Ok(Err(rc))
                } else {
                    let n = cc.spec_response_handles();
                    let handle_end = TPM_HEADER_SIZE + 4 * n;
                    if len - TPM_HEADER_SIZE < 4 * n {
                        Err(TpmError::UnexpectedEnd {
                            offset: TPM_HEADER_SIZE,
                            needed: (4 * n) as usize,
                            available: (len - TPM_HEADER_SIZE) as usize,
                        })
                    } else {
                        let handles = spec_read_handles(s, TPM_HEADER_SIZE as int, n as nat);
                        if tag == TpmSt::Sessions {
                            if len - handle_end < 4 {
                                Err(TpmError::UnexpectedEnd {
                                    offset: handle_end as usize,
                                    needed: 4,
                                    available: (len - handle_end) as usize,
                                })
                            } else {
                                let param_size = spec_be32(s, handle_end) as int;
                                let param_start = handle_end + 4;
                                if len - param_start < param_size {
                                    Err(TpmError::UnexpectedEnd {
                                        offset: param_start as usize,
                                        needed: param_size as usize,
                                        available: (len - param_start) as usize,
                                    })
                                } else {
                                    let param_end = param_start + param_size;
                                    match spec_parse_auth_responses(s, param_end, len as int, 0) {
                                        Err(e) => Err(e),
                                        Ok(sessions) => Ok(Ok(ResponseParts {
                                            handles,
                                            parameters: s.subrange(param_start, param_end),
                                            sessions,
                                        })),
                                    }
                                }
                            }
                        } else {
                            Ok(Ok(ResponseParts {
                                handles,
                                parameters: s.subrange(handle_end, len as int),
                                sessions: Seq::empty(),
                            }))
                        }
                    }
                },
            },
        }
    }
}

/// Reads `n` big-endian handles from `start` on.
pub(crate) fn read_handles(buf: &[u8], start: usize, n: usize) -> (r: Vec<u32>)
    requires
        start + 4 * n <= buf@.len(),
    ensures
        r@ == spec_read_handles(buf@, start as int, n as nat),
{
    let mut handles: Vec<u32> = Vec::new();
    let mut i: usize = 0;
    let blen = buf.len();
    while i < n
        invariant
            i <= n,
            blen == buf@.len(),
            start + 4 * n <= buf@.len(),
            handles@ == spec_read_handles(buf@, start as int, i as nat),
        decreases n - i,
    {
        let h = read_u32(buf, start + 4 * i);
        handles.push(h);
        i = i + 1;
        assert(handles@ =~= spec_read_handles(buf@, start as int, i as nat));
    }
    handles
}

/// Unmarshals a command frame into its handles, its body and its
/// authorizations.
#[verifier::spinoff_prover]
pub fn tpm_unmarshal_command(buf: &[u8]) -> (r: TpmResult<(Vec<u32>, TpmCommandBody, Vec<TpmsAuthCommand>)>)
    ensures
        match spec_unmarshal_command(buf@) {
            Err(e) => r == Err::<(Vec<u32>, TpmCommandBody, Vec<TpmsAuthCommand>), TpmError>(e),
            Ok(p) => r matches Ok((handles, body, sessions)) && handles@ == p.handles
                && body.cc == p.cc && body.handles@ == p.handles && body.parameters@ == p.parameters
                && auth_command_views(sessions@) == p.sessions,
        },
{
    let len = buf.len();
    if len < TPM_HEADER_SIZE {
        return Err(TpmError::UnexpectedEnd { offset: 0, needed: TPM_HEADER_SIZE, available: len });
    }
    let raw_tag = read_u16(buf, 0);
    let tag = match TpmSt::from_u16(raw_tag) {
        Some(t) => t,
        None => return Err(TpmError::InvalidTag { offset: 0, value: raw_tag as u64 }),
    };
    let size = read_u32(buf, 2) as usize;
    let raw_cc = read_u32(buf, 6);
    let cc = match TpmCc::from_u32(raw_cc) {
        Some(c) => c,
        None => return Err(TpmError::InvalidCc { offset: 6, value: raw_cc as u64 }),
    };
    if len < size {
        return Err(TpmError::UnexpectedEnd { offset: len, needed: size - len, available: 0 });
    } else if len > size {
        return Err(TpmError::TrailingData { offset: size, actual: len - size });
    }
    let dispatch = dispatch_for(cc);
    if tag != TpmSt::NoSessions && tag != TpmSt::Sessions {
        return Err(TpmError::InvalidTag { offset: 0, value: raw_tag as u64 });
    }
    let handle_area_size = dispatch.handles * 4;
    if len - TPM_HEADER_SIZE < handle_area_size {
        return Err(TpmError::UnexpectedEnd {
            offset: TPM_HEADER_SIZE,
            needed: handle_area_size,
            available: len - TPM_HEADER_SIZE,
        });
    }
    let handle_end = TPM_HEADER_SIZE + handle_area_size;
    let (sessions, param_start) = if tag == TpmSt::Sessions {
        if len - handle_end < 4 {
            return Err(TpmError::UnexpectedEnd { offset: handle_end, needed: 4, available: len - handle_end });
        }
        let auth_size = read_u32(buf, handle_end) as usize;
        let auth_start = handle_end + 4;
        if len - auth_start < auth_size {
            return Err(TpmError::UnexpectedEnd { offset: auth_start, needed: auth_size, available: len - auth_start });
        }
        let sessions = parse_auth_commands(buf, auth_start, auth_start + auth_size)?;
        (sessions, auth_start + auth_size)
    } else {
        (Vec::new(), handle_end)
    };
    let parameters = slice_to_vec(slice_subrange(buf, param_start, len));
    let handles = read_handles(buf, TPM_HEADER_SIZE, dispatch.handles);
    let body_handles = read_handles(buf, TPM_HEADER_SIZE, dispatch.handles);
    proof {
        if tag != TpmSt::Sessions {
            assert(auth_command_views(sessions@) =~= Seq::<AuthCommandView>::empty());
        }
    }
    Ok((handles, TpmCommandBody { cc, handles: body_handles, parameters }, sessions))
}

/// Unmarshals a response frame to the command `cc`: either the response code
/// of an unsuccessful response, or the body and the authorizations of a
/// successful one.
#[verifier::spinoff_prover]
pub fn tpm_unmarshal_response(cc: TpmCc, buf: &[u8]) -> (r: TpmResult<Result<(TpmResponseBody, Vec<TpmsAuthResponse>), TpmRc>>)
    ensures
        match spec_unmarshal_response(cc, buf@) {
            Err(e) => r == Err::<Result<(TpmResponseBody, Vec<TpmsAuthResponse>), TpmRc>, TpmError>(e),
            Ok(Err(rc)) => r == Ok::<Result<(TpmResponseBody, Vec<TpmsAuthResponse>), TpmRc>, TpmError>(Err(rc)),
            Ok(Ok(p)) => r matches Ok(Ok((body, sessions))) && body.cc == cc && body.handles@ == p.handles
                && body.parameters@ == p.parameters && auth_response_views(sessions@) == p.sessions,
        },
{
    let len = buf.len();
    if len < TPM_HEADER_SIZE {
        return Err(TpmError::UnexpectedEnd { offset: 0, needed: TPM_HEADER_SIZE, available: len });
    }
    let raw_tag = read_u16(buf, 0);
    let tag = match TpmSt::from_u16(raw_tag) {
        Some(t) => t,
        None => return Err(TpmError::InvalidTag { offset: 0, value: raw_tag as u64 }),
    };
    let size = read_u32(buf, 2) as usize;
    let raw_rc = read_u32(buf, 6);
    let rc = match TpmRc::try_from_u32(raw_rc) {
        Ok(rc) => rc,
        Err(_) => return Err(TpmError::InvalidRc { offset: 6, value: raw_rc as u64 }),
    };
    if len < size {
        return Err(TpmError::UnexpectedEnd { offset: len, needed: size - len, available: 0 });
    } else if len > size {
        return Err(TpmError::TrailingData { offset: size, actual: len - size });
    }
    if rc != TpmRc::Fmt0(TpmRcBase::Success) {
        return Ok(Err(rc));
    }
    let dispatch = dispatch_for(cc);
    let handle_area_size = dispatch.response_handles * 4;
    if len - TPM_HEADER_SIZE < handle_area_size {
        return Err(TpmError::UnexpectedEnd {
            offset: TPM_HEADER_SIZE,
            needed: handle_area_size,
            available: len - TPM_HEADER_SIZE,
        });
    }
    let handle_end = TPM_HEADER_SIZE + handle_area_size;
    let handles = read_handles(buf, TPM_HEADER_SIZE, dispatch.response_handles);
    if tag == TpmSt::Sessions {
        if len - handle_end < 4 {
            return Err(TpmError::UnexpectedEnd { offset: handle_end, needed: 4, available: len - handle_end });
        }
        let param_size = read_u32(buf, handle_end) as usize;
        let param_start = handle_end + 4;
        if len - param_start < param_size {
            return Err(TpmError::UnexpectedEnd { offset: param_start, needed: param_size, available: len - param_start });
        }
        let param_end = param_start + param_size;
        let sessions = parse_auth_responses(buf, param_end, len)?;
        let parameters = slice_to_vec(slice_subrange(buf, param_start, param_end));
        Ok(Ok((TpmResponseBody { cc, handles, parameters }, sessions)))
    } else {
        let parameters = slice_to_vec(slice_subrange(buf, handle_end, len));
        let sessions: Vec<TpmsAuthResponse> = Vec::new();
        assert(auth_response_views(sessions@) =~= Seq::<AuthResponseView>::empty());
        Ok(Ok((TpmResponseBody { cc, handles, parameters }, sessions)))
    }
}

} // verus!
