//! What frame validation accepts, in terms of the authorization records that
//! an authorization area is made of.

use crate::constant::{MAX_SESSIONS, TPM_HEADER_SIZE};
use crate::data::rc::{TpmRc, TpmRcBase};
use crate::data::st::TpmSt;
use crate::error::TpmError;
use crate::frame::codec::{spec_be16, spec_be32};
use crate::frame::wire::{
    spec_auth_area_after, spec_auth_commands, spec_auth_responses, spec_command_code,
    spec_command_envelope, spec_envelope_tag, spec_frame_tag, spec_response_code,
    spec_response_envelope, spec_validate_command, spec_validate_response,
};
use vstd::prelude::*;

verus! {

/// The end of the command authorization record that starts at `pos`, when it
/// fits in `s[..end]`: a four-byte session handle, a nonce (a two-byte size
/// and that many bytes), one attribute byte and an HMAC (a two-byte size and
/// that many bytes).
pub open spec fn spec_command_record_end(s: Seq<u8>, pos: int, end: int) -> Option<int> {
    if end - pos < 6 {
        None
    } else {
        let e1 = pos + 6 + spec_be16(s, pos + 4);
        if end - e1 < 3 {
            None
        } else {
            let e2 = e1 + 3 + spec_be16(s, e1 + 1);
            if e2 > end {
                None
            } else {
                Some(e2)
            }
        }
    }
}

/// The end of the response authorization record that starts at `pos`, when
/// it fits in `s[..end]`: a nonce, one attribute byte and an HMAC.
pub open spec fn spec_response_record_end(s: Seq<u8>, pos: int, end: int) -> Option<int> {
    if end - pos < 2 {
        None
    } else {
        let e1 = pos + 2 + spec_be16(s, pos);
        if end - e1 < 3 {
            None
        } else {
            let e2 = e1 + 3 + spec_be16(s, e1 + 1);
            if e2 > end {
                None
            } else {
                Some(e2)
            }
        }
    }
}

/// `s[pos..end]` is exactly `k` command authorization records, one after
/// the other.
pub open spec fn spec_command_records(s: Seq<u8>, pos: int, end: int, k: nat) -> bool
    decreases k,
{
    if k == 0 {
        pos == end
    } else {
        match spec_command_record_end(s, pos, end) {
            None => false,
            Some(e) => spec_command_records(s, e, end, (k - 1) as nat),
        }
    }
}

/// `s[pos..end]` is exactly `k` response authorization records, one after
/// the other.
pub open spec fn spec_response_records(s: Seq<u8>, pos: int, end: int, k: nat) -> bool
    decreases k,
{
    if k == 0 {
        pos == end
    } else {
        match spec_response_record_end(s, pos, end) {
            None => false,
            Some(e) => spec_response_records(s, e, end, (k - 1) as nat),
        }
    }
}

/// The scan of command authorizations, `count` of them seen already,
/// succeeds exactly when the rest is a run of records that keeps the total
/// within `MAX_SESSIONS`.
proof fn lemma_auth_commands_records(s: Seq<u8>, pos: int, end: int, count: nat)
    requires
        0 <= pos <= end <= usize::MAX,
        count <= MAX_SESSIONS,
    ensures
        spec_auth_commands(s, pos, end, count) is Ok <==> exists|k: nat|
            count + k <= MAX_SESSIONS && #[trigger] spec_command_records(s, pos, end, k),
    decreases end - pos,
{
    if pos == end {
        assert(spec_command_records(s, pos, end, 0));
    } else if count >= MAX_SESSIONS {
        assert forall|k: nat| count + k <= MAX_SESSIONS implies !#[trigger] spec_command_records(
            s,
            pos,
            end,
            k,
        ) by {
            assert(k == 0);
        }
    } else {
        match spec_command_record_end(s, pos, end) {
            None => {
                assert forall|k: nat| count + k <= MAX_SESSIONS implies !#[trigger] spec_command_records(
                    s,
                    pos,
                    end,
                    k,
                ) by {
                    if k > 0 {
                        assert(spec_command_record_end(s, pos, end) is None);
                    }
                }
            },
            Some(e) => {
                lemma_auth_commands_records(s, e, end, count + 1);
                if spec_auth_commands(s, pos, end, count) is Ok {
                    let k2 = choose|k: nat|
                        count + 1 + k <= MAX_SESSIONS && #[trigger] spec_command_records(s, e, end, k);
                    assert(spec_command_records(s, pos, end, k2 + 1));
                }
                if exists|k: nat| count + k <= MAX_SESSIONS && #[trigger] spec_command_records(s, pos, end, k) {
                    let k = choose|k: nat| count + k <= MAX_SESSIONS && #[trigger] spec_command_records(s, pos, end, k);
                    assert(k > 0);
                    assert(spec_command_records(s, e, end, (k - 1) as nat));
                }
            },
        }
    }
}

/// The scan of response authorizations, `count` of them seen already,
/// succeeds exactly when the rest is a run of records that keeps the total
/// within `MAX_SESSIONS`.
proof fn lemma_auth_responses_records(s: Seq<u8>, pos: int, end: int, count: nat)
    requires
        0 <= pos <= end <= usize::MAX,
        count <= MAX_SESSIONS,
    ensures
        spec_auth_responses(s, pos, end, count) is Ok <==> exists|k: nat|
            count + k <= MAX_SESSIONS && #[trigger] spec_response_records(s, pos, end, k),
    decreases end - pos,
{
    if pos == end {
        assert(spec_response_records(s, pos, end, 0));
    } else if count >= MAX_SESSIONS {
        assert forall|k: nat| count + k <= MAX_SESSIONS implies !#[trigger] spec_response_records(
            s,
            pos,
            end,
            k,
        ) by {
            assert(k == 0);
        }
    } else {
        match spec_response_record_end(s, pos, end) {
            None => {
                assert forall|k: nat| count + k <= MAX_SESSIONS implies !#[trigger] spec_response_records(
                    s,
                    pos,
                    end,
                    k,
                ) by {
                    if k > 0 {
                        assert(spec_response_record_end(s, pos, end) is None);
                    }
                }
            },
            Some(e) => {
                lemma_auth_responses_records(s, e, end, count + 1);
                if spec_auth_responses(s, pos, end, count) is Ok {
                    let k2 = choose|k: nat|
                        count + 1 + k <= MAX_SESSIONS && #[trigger] spec_response_records(s, e, end, k);
                    assert(spec_response_records(s, pos, end, k2 + 1));
                }
                if exists|k: nat| count + k <= MAX_SESSIONS && #[trigger] spec_response_records(s, pos, end, k) {
                    let k = choose|k: nat| count + k <= MAX_SESSIONS && #[trigger] spec_response_records(s, pos, end, k);
                    assert(k > 0);
                    assert(spec_response_records(s, e, end, (k - 1) as nat));
                }
            },
        }
    }
}

/// Validating a command frame succeeds exactly when its envelope is valid
/// and either its tag is `NoSessions`, or its authorization area (a
/// four-byte size right after the handles, then that many bytes) is a run of
/// at most `MAX_SESSIONS` command authorization records.
pub proof fn lemma_validate_command_records(s: Seq<u8>)
    requires
        s.len() <= usize::MAX,
    ensures
        spec_validate_command(s) is Ok <==> {
            &&& spec_command_envelope(s) is Ok
            &&& spec_frame_tag(s) == Ok::<TpmSt, TpmError>(TpmSt::NoSessions) || (
            spec_command_code(s) matches Ok(cc) && {
                let h = TPM_HEADER_SIZE + 4 * cc.spec_command_handles();
                let a = spec_be32(s, h) as int;
                exists|k: nat| k <= MAX_SESSIONS && #[trigger] spec_command_records(s, h + 4, h + 4 + a, k)
            })
        },
{
    if spec_command_envelope(s) is Ok {
        let tag = spec_envelope_tag(s)->Ok_0;
        assert(spec_frame_tag(s) == Ok::<TpmSt, TpmError>(tag));
        let cc = spec_command_code(s)->Ok_0;
        let h = TPM_HEADER_SIZE + 4 * cc.spec_command_handles();
        if tag == TpmSt::Sessions {
            let a = spec_be32(s, h) as int;
            assert(spec_auth_area_after(s, h) == Ok::<(usize, usize), TpmError>(((h + 4) as usize, (h + 4 + a) as usize)));
            lemma_auth_commands_records(s, h + 4, h + 4 + a, 0);
        } else {
            assert(tag == TpmSt::NoSessions);
        }
    }
}

/// Validating a response frame to the command `cc` succeeds exactly when
/// its envelope is valid and, for a successful response whose tag is
/// `Sessions`, the frame holds the handle area, a four-byte parameter size
/// and that many parameter bytes, and the rest of the frame is a run of at
/// most `MAX_SESSIONS` response authorization records.
pub proof fn lemma_validate_response_records(s: Seq<u8>, cc: crate::data::cc::TpmCc)
    requires
        s.len() <= usize::MAX,
    ensures
        spec_validate_response(s, cc) is Ok <==> {
            &&& spec_response_envelope(s) is Ok
            &&& spec_response_code(s) == Ok::<TpmRc, TpmError>(TpmRc::Fmt0(TpmRcBase::Success))
                && spec_frame_tag(s) == Ok::<TpmSt, TpmError>(TpmSt::Sessions) ==> {
                let h = TPM_HEADER_SIZE + 4 * cc.spec_response_handles();
                let p = spec_be32(s, h) as int;
                &&& s.len() >= h + 4
                &&& s.len() >= h + 4 + p
                &&& exists|k: nat| k <= MAX_SESSIONS && #[trigger] spec_response_records(s, h + 4 + p, s.len() as int, k)
            }
        },
{
    if spec_response_envelope(s) is Ok && spec_response_code(s) == Ok::<TpmRc, TpmError>(
        TpmRc::Fmt0(TpmRcBase::Success),
    ) && spec_frame_tag(s) == Ok::<TpmSt, TpmError>(TpmSt::Sessions) {
        let h = TPM_HEADER_SIZE + 4 * cc.spec_response_handles();
        let p = spec_be32(s, h) as int;
        if s.len() >= h + 4 && s.len() >= h + 4 + p {
            assert(spec_auth_area_after(s, h) == Ok::<(usize, usize), TpmError>(((h + 4) as usize, (h + 4 + p) as usize)));
            lemma_auth_responses_records(s, h + 4 + p, s.len() as int, 0);
        }
    }
}

} // verus!
