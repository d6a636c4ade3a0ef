//! What unmarshaling gives back of a marshaled frame.

use crate::constant::{MAX_DIGEST_SIZE, MAX_SESSIONS, TPM_HEADER_SIZE};
use crate::data::cc::{lemma_cc_value_roundtrip, TpmCc};
use crate::data::rc::{lemma_rc_decode_encode, TpmRc, TpmRcBase};
use crate::data::st::{lemma_st_value_roundtrip, TpmSt};
use crate::frame::auth::{
    auth_commands_wf, auth_responses_wf, spec_auth_commands_bytes, spec_auth_responses_bytes,
    spec_parse_auth_command, spec_parse_auth_commands, spec_parse_auth_response,
    spec_parse_auth_responses, spec_parse_tpm2b, spec_tpm2b_bytes, AuthCommandView,
    AuthResponseView,
};
use crate::frame::codec::{
    lemma_be16_roundtrip, lemma_be32_roundtrip, spec_be16, spec_be16_bytes, spec_be32,
    spec_be32_bytes,
};
use crate::frame::marshal::{
    lemma_handles_bytes_len, spec_command_auth_area, spec_command_frame,
    spec_error_response_frame, spec_handles_bytes, spec_response_frame,
};
use crate::frame::wire::{spec_command_code, spec_frame_tag, spec_response_code};
use crate::frame::codec::spec_splice;
use crate::frame::unmarshal::{
    spec_read_handles, spec_unmarshal_command, spec_unmarshal_response, CommandParts,
    ResponseParts,
};
use vstd::prelude::*;

verus! {

/// A part of a part of `s` is a part of `s`.
pub proof fn lemma_subrange_of_eq(s: Seq<u8>, pos: int, x: Seq<u8>, off: int, len: int)
    requires
        0 <= pos,
        pos + x.len() <= s.len(),
        s.subrange(pos, pos + x.len()) == x,
        0 <= off,
        0 <= len,
        off + len <= x.len(),
    ensures
        s.subrange(pos + off, pos + off + len) == x.subrange(off, off + len),
{
    assert forall|j: int| 0 <= j < len implies #[trigger] s.subrange(pos + off, pos + off + len)[j] == x.subrange(
        off,
        off + len,
    )[j] by {
        assert(s.subrange(pos, pos + x.len())[off + j] == x[off + j]);
    }
    assert(s.subrange(pos + off, pos + off + len) =~= x.subrange(off, off + len));
}

/// A `u16` written at `i` reads back.
pub proof fn lemma_be16_at(s: Seq<u8>, i: int, v: u16)
    requires
        0 <= i,
        i + 2 <= s.len(),
        s.subrange(i, i + 2) == spec_be16_bytes(v),
    ensures
        spec_be16(s, i) == v,
{
    lemma_be16_roundtrip(v);
    assert(s[i] == s.subrange(i, i + 2)[0]);
    assert(s[i + 1] == s.subrange(i, i + 2)[1]);
}

/// A `u32` written at `i` reads back.
pub proof fn lemma_be32_at(s: Seq<u8>, i: int, v: u32)
    requires
        0 <= i,
        i + 4 <= s.len(),
        s.subrange(i, i + 4) == spec_be32_bytes(v),
    ensures
        spec_be32(s, i) == v,
{
    lemma_be32_roundtrip(v);
    assert(s[i] == s.subrange(i, i + 4)[0]);
    assert(s[i + 1] == s.subrange(i, i + 4)[1]);
    assert(s[i + 2] == s.subrange(i, i + 4)[2]);
    assert(s[i + 3] == s.subrange(i, i + 4)[3]);
}

/// Handles written from `start` on read back.
pub proof fn lemma_read_handles_of_bytes(s: Seq<u8>, start: int, h: Seq<u32>)
    requires
        0 <= start,
        start + 4 * h.len() <= s.len(),
        s.subrange(start, start + 4 * h.len()) == spec_handles_bytes(h),
    ensures
        spec_read_handles(s, start, h.len()) == h,
    decreases h.len(),
{
    lemma_handles_bytes_len(h);
    if h.len() > 0 {
        let rest = h.drop_first();
        lemma_handles_bytes_len(rest);
        let x = spec_handles_bytes(h);
        assert(x == spec_be32_bytes(h[0]) + spec_handles_bytes(rest));
        lemma_subrange_of_eq(s, start, x, 0, 4);
        assert(x.subrange(0, 4) =~= spec_be32_bytes(h[0]));
        lemma_be32_at(s, start, h[0]);
        lemma_subrange_of_eq(s, start, x, 4, 4 * rest.len() as int);
        assert(x.subrange(4, 4 + 4 * rest.len() as int) =~= spec_handles_bytes(rest));
        lemma_read_handles_of_bytes(s, start + 4, rest);
        assert forall|i: int| 0 <= i < h.len() implies #[trigger] spec_read_handles(s, start, h.len())[i] == h[i] by {
            if i > 0 {
                assert(spec_read_handles(s, start + 4, rest.len())[i - 1] == rest[i - 1]);
            }
        }
        assert(spec_read_handles(s, start, h.len()) =~= h);
    } else {
        assert(spec_read_handles(s, start, h.len()) =~= h);
    }
}

/// A size-prefixed buffer written at `pos` parses back.
pub proof fn lemma_parse_tpm2b_of_bytes(s: Seq<u8>, pos: int, end: int, data: Seq<u8>, cap: usize)
    requires
        s.len() <= usize::MAX,
        0 <= pos,
        data.len() <= cap,
        data.len() <= u16::MAX,
        pos + 2 + data.len() <= end <= s.len(),
        s.subrange(pos, pos + 2 + data.len()) == spec_tpm2b_bytes(data),
    ensures
        spec_parse_tpm2b(s, pos, end, cap) == Ok::<(Seq<u8>, usize), crate::error::TpmError>(
            (data, (pos + 2 + data.len()) as usize),
        ),
{
    let n = data.len() as u16;
    lemma_be16_roundtrip(n);
    let x = spec_tpm2b_bytes(data);
    lemma_subrange_of_eq(s, pos, x, 0, 2);
    assert(x.subrange(0, 2) =~= spec_be16_bytes(n));
    lemma_be16_at(s, pos, n);
    lemma_subrange_of_eq(s, pos, x, 2, data.len() as int);
    assert(x.subrange(2, 2 + data.len() as int) =~= data);
}

/// A command authorization written at `pos` parses back.
pub proof fn lemma_parse_auth_command_of_bytes(s: Seq<u8>, pos: int, end: int, a: AuthCommandView)
    requires
        s.len() <= usize::MAX,
        0 <= pos,
        a.wf(),
        pos + a.spec_bytes().len() <= end <= s.len(),
        s.subrange(pos, pos + a.spec_bytes().len()) == a.spec_bytes(),
    ensures
        spec_parse_auth_command(s, pos, end) == Ok::<(AuthCommandView, usize), crate::error::TpmError>(
            (a, (pos + a.spec_bytes().len()) as usize),
        ),
{
    let b = a.spec_bytes();
    lemma_be32_roundtrip(a.session_handle);
    lemma_be16_roundtrip(a.nonce.len() as u16);
    lemma_be16_roundtrip(a.hmac.len() as u16);
    let p1 = pos + 4;
    let p2 = p1 + 2 + a.nonce.len();
    let p3 = p2 + 1;
    lemma_subrange_of_eq(s, pos, b, 0, 4);
    assert(b.subrange(0, 4) =~= spec_be32_bytes(a.session_handle));
    lemma_be32_at(s, pos, a.session_handle);
    lemma_subrange_of_eq(s, pos, b, 4, 2 + a.nonce.len() as int);
    assert(b.subrange(4, 6 + a.nonce.len() as int) =~= spec_tpm2b_bytes(a.nonce));
    lemma_parse_tpm2b_of_bytes(s, p1, end, a.nonce, MAX_DIGEST_SIZE);
    assert(s.subrange(pos, pos + b.len())[p2 - pos] == b[p2 - pos]);
    assert(b[p2 - pos] == a.session_attributes);
    lemma_subrange_of_eq(s, pos, b, p3 - pos, 2 + a.hmac.len() as int);
    assert(b.subrange(p3 - pos, p3 - pos + 2 + a.hmac.len() as int) =~= spec_tpm2b_bytes(a.hmac));
    lemma_parse_tpm2b_of_bytes(s, p3, end, a.hmac, MAX_DIGEST_SIZE);
}

/// A response authorization written at `pos` parses back.
pub proof fn lemma_parse_auth_response_of_bytes(s: Seq<u8>, pos: int, end: int, a: AuthResponseView)
    requires
        s.len() <= usize::MAX,
        0 <= pos,
        a.wf(),
        pos + a.spec_bytes().len() <= end <= s.len(),
        s.subrange(pos, pos + a.spec_bytes().len()) == a.spec_bytes(),
    ensures
        spec_parse_auth_response(s, pos, end) == Ok::<(AuthResponseView, usize), crate::error::TpmError>(
            (a, (pos + a.spec_bytes().len()) as usize),
        ),
{
    let b = a.spec_bytes();
    lemma_be16_roundtrip(a.nonce.len() as u16);
    lemma_be16_roundtrip(a.hmac.len() as u16);
    let p2 = pos + 2 + a.nonce.len();
    let p3 = p2 + 1;
    lemma_subrange_of_eq(s, pos, b, 0, 2 + a.nonce.len() as int);
    assert(b.subrange(0, 2 + a.nonce.len() as int) =~= spec_tpm2b_bytes(a.nonce));
    lemma_parse_tpm2b_of_bytes(s, pos, end, a.nonce, MAX_DIGEST_SIZE);
    assert(s.subrange(pos, pos + b.len())[p2 - pos] == b[p2 - pos]);
    assert(b[p2 - pos] == a.session_attributes);
    lemma_subrange_of_eq(s, pos, b, p3 - pos, 2 + a.hmac.len() as int);
    assert(b.subrange(p3 - pos, p3 - pos + 2 + a.hmac.len() as int) =~= spec_tpm2b_bytes(a.hmac));
    lemma_parse_tpm2b_of_bytes(s, p3, end, a.hmac, MAX_DIGEST_SIZE);
}

/// Command authorizations written from `pos` on parse back, when there are
/// few enough of them.
#[verifier::spinoff_prover]
#[verifier::rlimit(40)]
pub proof fn lemma_parse_auth_commands_of_bytes(s: Seq<u8>, pos: int, a: Seq<AuthCommandView>, count: nat)
    requires
        s.len() <= usize::MAX,
        0 <= pos,
        auth_commands_wf(a),
        count + a.len() <= MAX_SESSIONS,
        pos + spec_auth_commands_bytes(a).len() <= s.len(),
        s.subrange(pos, pos + spec_auth_commands_bytes(a).len()) == spec_auth_commands_bytes(a),
    ensures
        spec_parse_auth_commands(s, pos, pos + spec_auth_commands_bytes(a).len(), count)
            == Ok::<Seq<AuthCommandView>, crate::error::TpmError>(a),
    decreases a.len(),
{
    let end = pos + spec_auth_commands_bytes(a).len();
    if a.len() == 0 {
        assert(spec_auth_commands_bytes(a) =~= Seq::<u8>::empty());
        assert(a =~= Seq::<AuthCommandView>::empty());
    } else {
        let first = a[0];
        let rest = a.drop_first();
        let fb = first.spec_bytes();
        let rb = spec_auth_commands_bytes(rest);
        assert(first.wf());
        assert(auth_commands_wf(rest)) by {
            assert forall|i: int| 0 <= i < rest.len() implies (#[trigger] rest[i]).wf() by {
                assert(rest[i] == a[i + 1]);
            }
        }
        let x = spec_auth_commands_bytes(a);
        assert(x == fb + rb);
        lemma_subrange_of_eq(s, pos, x, 0, fb.len() as int);
        assert(x.subrange(0, fb.len() as int) =~= fb);
        lemma_parse_auth_command_of_bytes(s, pos, end, first);
        lemma_subrange_of_eq(s, pos, x, fb.len() as int, rb.len() as int);
        assert(x.subrange(fb.len() as int, fb.len() + rb.len() as int) =~= rb);
        lemma_parse_auth_commands_of_bytes(s, pos + fb.len(), rest, count + 1);
        assert(pos + fb.len() + rb.len() == end);
        assert(fb.len() > 0);
        assert(count < MAX_SESSIONS);
        assert(spec_parse_auth_command(s, pos, end) == Ok::<(AuthCommandView, usize), crate::error::TpmError>((first, (pos + fb.len()) as usize)));
        assert(seq![first] + rest =~= a);
        let p = (pos + fb.len()) as usize;
        assert(p as int == pos + fb.len());
        assert(spec_parse_auth_commands(s, p as int, end, count + 1) == Ok::<Seq<AuthCommandView>, crate::error::TpmError>(rest));
        assert(spec_parse_auth_commands(s, pos, end, count) == Ok::<Seq<AuthCommandView>, crate::error::TpmError>(seq![first] + rest));
    }
}

/// Response authorizations written from `pos` on parse back, when there are
/// few enough of them.
#[verifier::spinoff_prover]
#[verifier::rlimit(40)]
pub proof fn lemma_parse_auth_responses_of_bytes(s: Seq<u8>, pos: int, a: Seq<AuthResponseView>, count: nat)
    requires
        s.len() <= usize::MAX,
        0 <= pos,
        auth_responses_wf(a),
        count + a.len() <= MAX_SESSIONS,
        pos + spec_auth_responses_bytes(a).len() <= s.len(),
        s.subrange(pos, pos + spec_auth_responses_bytes(a).len()) == spec_auth_responses_bytes(a),
    ensures
        spec_parse_auth_responses(s, pos, pos + spec_auth_responses_bytes(a).len(), count)
            == Ok::<Seq<AuthResponseView>, crate::error::TpmError>(a),
    decreases a.len(),
{
    let end = pos + spec_auth_responses_bytes(a).len();
    if a.len() == 0 {
        assert(spec_auth_responses_bytes(a) =~= Seq::<u8>::empty());
        assert(a =~= Seq::<AuthResponseView>::empty());
    } else {
        let first = a[0];
        let rest = a.drop_first();
        let fb = first.spec_bytes();
        let rb = spec_auth_responses_bytes(rest);
        assert(first.wf());
        assert(auth_responses_wf(rest)) by {
            assert forall|i: int| 0 <= i < rest.len() implies (#[trigger] rest[i]).wf() by {
                assert(rest[i] == a[i + 1]);
            }
        }
        let x = spec_auth_responses_bytes(a);
        assert(x == fb + rb);
        lemma_subrange_of_eq(s, pos, x, 0, fb.len() as int);
        assert(x.subrange(0, fb.len() as int) =~= fb);
        lemma_parse_auth_response_of_bytes(s, pos, end, first);
        lemma_subrange_of_eq(s, pos, x, fb.len() as int, rb.len() as int);
        assert(x.subrange(fb.len() as int, fb.len() + rb.len() as int) =~= rb);
        lemma_parse_auth_responses_of_bytes(s, pos + fb.len(), rest, count + 1);
        assert(pos + fb.len() + rb.len() == end);
        assert(fb.len() > 0);
        assert(count < MAX_SESSIONS);
        assert(spec_parse_auth_response(s, pos, end) == Ok::<(AuthResponseView, usize), crate::error::TpmError>((first, (pos + fb.len()) as usize)));
        assert(seq![first] + rest =~= a);
        let p = (pos + fb.len()) as usize;
        assert(p as int == pos + fb.len());
        assert(spec_parse_auth_responses(s, p as int, end, count + 1) == Ok::<Seq<AuthResponseView>, crate::error::TpmError>(rest));
        assert(spec_parse_auth_responses(s, pos, end, count) == Ok::<Seq<AuthResponseView>, crate::error::TpmError>(seq![first] + rest));
    }
}

/// The three header fields written at the front of `s` read back.
pub proof fn lemma_header_reads(s: Seq<u8>, tag: u16, size: u32, code: u32)
    requires
        s.len() >= TPM_HEADER_SIZE,
        s.subrange(0, TPM_HEADER_SIZE as int) == spec_be16_bytes(tag) + spec_be32_bytes(size)
            + spec_be32_bytes(code),
    ensures
        spec_be16(s, 0) == tag,
        spec_be32(s, 2) == size,
        spec_be32(s, 6) == code,
{
    let h = spec_be16_bytes(tag) + spec_be32_bytes(size) + spec_be32_bytes(code);
    lemma_subrange_of_eq(s, 0, h, 0, 2);
    assert(h.subrange(0, 2) =~= spec_be16_bytes(tag));
    lemma_be16_at(s, 0, tag);
    lemma_subrange_of_eq(s, 0, h, 2, 4);
    assert(h.subrange(2, 6) =~= spec_be32_bytes(size));
    lemma_be32_at(s, 2, size);
    lemma_subrange_of_eq(s, 0, h, 6, 4);
    assert(h.subrange(6, 10) =~= spec_be32_bytes(code));
    lemma_be32_at(s, 6, code);
}

/// What `spec_unmarshal_command` gives on a frame whose fields read back as
/// stated.
proof fn lemma_unmarshal_command_fields(
    s: Seq<u8>,
    cc: TpmCc,
    tag: TpmSt,
    handles: Seq<u32>,
    parameters: Seq<u8>,
    sessions: Seq<AuthCommandView>,
)
    requires
        s.len() >= TPM_HEADER_SIZE + 4 * handles.len(),
        s.len() <= u32::MAX,
        handles.len() == cc.spec_command_handles(),
        tag == TpmSt::NoSessions || tag == TpmSt::Sessions,
        spec_be16(s, 0) == tag.spec_value(),
        spec_be32(s, 2) == s.len(),
        spec_be32(s, 6) == cc.spec_value(),
        spec_read_handles(s, TPM_HEADER_SIZE as int, handles.len()) == handles,
        tag == TpmSt::NoSessions ==> s.subrange(TPM_HEADER_SIZE + 4 * handles.len(), s.len() as int)
            == parameters,
        tag == TpmSt::Sessions ==> {
            let hend = TPM_HEADER_SIZE + 4 * handles.len();
            let asize = spec_be32(s, hend) as int;
            &&& s.len() - hend >= 4
            &&& s.len() - (hend + 4) >= asize
            &&& spec_parse_auth_commands(s, hend + 4, hend + 4 + asize, 0) == Ok::<
                Seq<AuthCommandView>,
                crate::error::TpmError,
            >(sessions)
            &&& s.subrange(hend + 4 + asize, s.len() as int) == parameters
        },
    ensures
        spec_unmarshal_command(s) == Ok::<CommandParts, crate::error::TpmError>(
            CommandParts {
                cc,
                handles,
                parameters,
                sessions: if tag == TpmSt::Sessions { sessions } else { Seq::empty() },
            },
        ),
{
    lemma_st_value_roundtrip(tag);
    lemma_cc_value_roundtrip(cc);
}

/// The two parts of a concatenation are its front and its back.
pub proof fn lemma_concat_parts(a: Seq<u8>, b: Seq<u8>)
    ensures
        (a + b).subrange(0, a.len() as int) == a,
        (a + b).subrange(a.len() as int, (a + b).len() as int) == b,
{
    assert((a + b).subrange(0, a.len() as int) =~= a);
    assert((a + b).subrange(a.len() as int, (a + b).len() as int) =~= b);
}

/// Unmarshaling a marshaled command frame gives back its command code,
/// handles and parameters, and its authorizations when the tag announces
/// sessions (none otherwise): for every command body whose handle count
/// matches its code, every tag that `tpm_marshal_command` accepts, at most
/// `MAX_SESSIONS` authorizations whose nonces and HMACs fit their buffers,
/// and every frame whose size fits its `u32` size field.
#[verifier::spinoff_prover]
#[verifier::rlimit(40)]
pub proof fn lemma_unmarshal_marshaled_command(
    cc: TpmCc,
    handles: Seq<u32>,
    parameters: Seq<u8>,
    tag: TpmSt,
    sessions: Seq<AuthCommandView>,
)
    requires
        handles.len() == cc.spec_command_handles(),
        tag == TpmSt::NoSessions || tag == TpmSt::Sessions,
        auth_commands_wf(sessions),
        tag == TpmSt::Sessions ==> sessions.len() <= MAX_SESSIONS,
        spec_command_frame(cc, handles, parameters, tag, sessions).len() <= u32::MAX,
    ensures
        spec_unmarshal_command(spec_command_frame(cc, handles, parameters, tag, sessions))
            == Ok::<CommandParts, crate::error::TpmError>(CommandParts {
            cc,
            handles,
            parameters,
            sessions: if tag == TpmSt::Sessions { sessions } else { Seq::empty() },
        }),
{
    let hb = spec_handles_bytes(handles);
    let auth = spec_command_auth_area(tag, sessions);
    let rest = auth + parameters;
    let body = hb + rest;
    let frame = spec_command_frame(cc, handles, parameters, tag, sessions);
    let size = (TPM_HEADER_SIZE + body.len()) as u32;
    let header = spec_be16_bytes(tag.spec_value()) + spec_be32_bytes(size) + spec_be32_bytes(
        cc.spec_value(),
    );
    let n: int = handles.len() as int;
    let hend = TPM_HEADER_SIZE + 4 * n;
    lemma_handles_bytes_len(handles);
    assert(hb + auth + parameters =~= body);
    assert(frame == header + body);
    lemma_concat_parts(header, body);
    lemma_header_reads(frame, tag.spec_value(), size, cc.spec_value());
    lemma_concat_parts(hb, rest);
    lemma_subrange_of_eq(frame, TPM_HEADER_SIZE as int, body, 0, 4 * n);
    lemma_read_handles_of_bytes(frame, TPM_HEADER_SIZE as int, handles);
    lemma_subrange_of_eq(frame, TPM_HEADER_SIZE as int, body, 4 * n, rest.len() as int);
    assert(frame.subrange(hend, frame.len() as int) == rest);
    lemma_concat_parts(auth, parameters);
    if tag == TpmSt::Sessions {
        lemma_command_sessions_tail(frame, hend, sessions, parameters);
    } else {
        assert(auth =~= Seq::<u8>::empty());
        assert(rest =~= parameters);
    }
    lemma_unmarshal_command_fields(frame, cc, tag, handles, parameters, sessions);
}

/// The tail of a command frame under `Sessions`: the authorization size,
/// the authorizations and the parameters read back.
proof fn lemma_command_sessions_tail(
    frame: Seq<u8>,
    hend: int,
    sessions: Seq<AuthCommandView>,
    parameters: Seq<u8>,
)
    requires
        0 <= hend <= frame.len(),
        frame.len() <= u32::MAX,
        auth_commands_wf(sessions),
        sessions.len() <= MAX_SESSIONS,
        frame.subrange(hend, frame.len() as int) == spec_command_auth_area(TpmSt::Sessions, sessions)
            + parameters,
    ensures
        ({
            let asize = spec_be32(frame, hend) as int;
            &&& frame.len() - hend >= 4
            &&& frame.len() - (hend + 4) >= asize
            &&& spec_parse_auth_commands(frame, hend + 4, hend + 4 + asize, 0) == Ok::<
                Seq<AuthCommandView>,
                crate::error::TpmError,
            >(sessions)
            &&& frame.subrange(hend + 4 + asize, frame.len() as int) == parameters
        }),
{
    let b = spec_auth_commands_bytes(sessions);
    let bl: int = b.len() as int;
    let asize = b.len() as u32;
    let auth = spec_command_auth_area(TpmSt::Sessions, sessions);
    let rest = auth + parameters;
    assert(auth == spec_be32_bytes(asize) + b);
    lemma_concat_parts(spec_be32_bytes(asize), b);
    lemma_concat_parts(auth, parameters);
    lemma_subrange_of_eq(frame, hend, rest, 0, 4);
    lemma_subrange_of_eq(rest, 0, auth, 0, 4);
    lemma_be32_at(frame, hend, asize);
    lemma_subrange_of_eq(frame, hend, rest, 4, bl);
    lemma_subrange_of_eq(rest, 0, auth, 4, bl);
    lemma_parse_auth_commands_of_bytes(frame, hend + 4, sessions, 0);
    lemma_subrange_of_eq(frame, hend, rest, 4 + bl, parameters.len() as int);
}

/// What `spec_unmarshal_response` gives on a successful response frame whose
/// fields read back as stated.
proof fn lemma_unmarshal_response_fields(
    s: Seq<u8>,
    cc: TpmCc,
    handles: Seq<u32>,
    parameters: Seq<u8>,
    sessions: Seq<AuthResponseView>,
)
    requires
        s.len() >= TPM_HEADER_SIZE + 4 * handles.len(),
        s.len() <= u32::MAX,
        handles.len() == cc.spec_response_handles(),
        spec_be16(s, 0) == (if sessions.len() > 0 { TpmSt::Sessions } else { TpmSt::NoSessions }).spec_value(),
        spec_be32(s, 2) == s.len(),
        spec_be32(s, 6) == TpmRc::Fmt0(TpmRcBase::Success).spec_value(),
        spec_read_handles(s, TPM_HEADER_SIZE as int, handles.len()) == handles,
        sessions.len() == 0 ==> s.subrange(TPM_HEADER_SIZE + 4 * handles.len(), s.len() as int)
            == parameters,
        sessions.len() > 0 ==> {
            let hend = TPM_HEADER_SIZE + 4 * handles.len();
            let psize = spec_be32(s, hend) as int;
            &&& s.len() - hend >= 4
            &&& s.len() - (hend + 4) >= psize
            &&& s.subrange(hend + 4, hend + 4 + psize) == parameters
            &&& spec_parse_auth_responses(s, hend + 4 + psize, s.len() as int, 0) == Ok::<
                Seq<AuthResponseView>,
                crate::error::TpmError,
            >(sessions)
        },
    ensures
        spec_unmarshal_response(cc, s) == Ok::<Result<ResponseParts, TpmRc>, crate::error::TpmError>(
            Ok(ResponseParts { handles, parameters, sessions }),
        ),
{
    lemma_st_value_roundtrip(TpmSt::Sessions);
    lemma_st_value_roundtrip(TpmSt::NoSessions);
    assert(TpmRc::Fmt0(TpmRcBase::Success).is_canonical()) by {
        assert(0u32 & 0x80 == 0 && 0u32 & 0x900 != 0x900) by (bit_vector);
    }
    lemma_rc_decode_encode(TpmRc::Fmt0(TpmRcBase::Success));
    if sessions.len() == 0 {
        assert(sessions =~= Seq::<AuthResponseView>::empty());
    }
}

/// The tail of a successful response frame with sessions: the parameter
/// size, the parameters and the authorizations read back.
proof fn lemma_response_sessions_tail(
    frame: Seq<u8>,
    hend: int,
    parameters: Seq<u8>,
    sessions: Seq<AuthResponseView>,
)
    requires
        0 <= hend <= frame.len(),
        frame.len() <= u32::MAX,
        auth_responses_wf(sessions),
        sessions.len() <= MAX_SESSIONS,
        frame.subrange(hend, frame.len() as int) == spec_be32_bytes(parameters.len() as u32)
            + parameters + spec_auth_responses_bytes(sessions),
    ensures
        ({
            let psize = spec_be32(frame, hend) as int;
            &&& frame.len() - hend >= 4
            &&& frame.len() - (hend + 4) >= psize
            &&& frame.subrange(hend + 4, hend + 4 + psize) == parameters
            &&& spec_parse_auth_responses(frame, hend + 4 + psize, frame.len() as int, 0) == Ok::<
                Seq<AuthResponseView>,
                crate::error::TpmError,
            >(sessions)
        }),
{
    let b = spec_auth_responses_bytes(sessions);
    let pl: int = parameters.len() as int;
    let psize = parameters.len() as u32;
    let rest = spec_be32_bytes(psize) + parameters + b;
    assert(rest.len() == 4 + pl + b.len());
    lemma_subrange_of_eq(frame, hend, rest, 0, 4);
    assert(rest.subrange(0, 4) =~= spec_be32_bytes(psize));
    lemma_be32_at(frame, hend, psize);
    lemma_subrange_of_eq(frame, hend, rest, 4, pl);
    assert(rest.subrange(4, 4 + pl) =~= parameters);
    lemma_subrange_of_eq(frame, hend, rest, 4 + pl, b.len() as int);
    assert(rest.subrange(4 + pl, 4 + pl + b.len()) =~= b);
    lemma_parse_auth_responses_of_bytes(frame, hend + 4 + pl, sessions, 0);
}

/// Unmarshaling a marshaled successful response frame gives back its
/// handles, parameters and authorizations: for every response body whose
/// handle count matches the command's, at most `MAX_SESSIONS` authorizations
/// whose nonces and HMACs fit their buffers, and every frame whose size fits
/// its `u32` size field.
#[verifier::spinoff_prover]
#[verifier::rlimit(60)]
pub proof fn lemma_unmarshal_marshaled_response(
    cc: TpmCc,
    handles: Seq<u32>,
    parameters: Seq<u8>,
    sessions: Seq<AuthResponseView>,
)
    requires
        handles.len() == cc.spec_response_handles(),
        auth_responses_wf(sessions),
        sessions.len() <= MAX_SESSIONS,
        spec_response_frame(handles, parameters, sessions).len() <= u32::MAX,
    ensures
        spec_unmarshal_response(cc, spec_response_frame(handles, parameters, sessions)) == Ok::<
            Result<ResponseParts, TpmRc>,
            crate::error::TpmError,
        >(Ok(ResponseParts { handles, parameters, sessions })),
{
    let has_sessions = sessions.len() > 0;
    let tag = if has_sessions { TpmSt::Sessions } else { TpmSt::NoSessions };
    let size_field = if has_sessions {
        spec_be32_bytes(parameters.len() as u32)
    } else {
        Seq::empty()
    };
    let sessions_bytes = if has_sessions { spec_auth_responses_bytes(sessions) } else { Seq::empty() };
    let hb = spec_handles_bytes(handles);
    let rest = size_field + parameters + sessions_bytes;
    let body = hb + rest;
    let frame = spec_response_frame(handles, parameters, sessions);
    let size = (TPM_HEADER_SIZE + body.len()) as u32;
    let code = TpmRc::Fmt0(TpmRcBase::Success).spec_value();
    let header = spec_be16_bytes(tag.spec_value()) + spec_be32_bytes(size) + spec_be32_bytes(code);
    let n: int = handles.len() as int;
    let hend = TPM_HEADER_SIZE + 4 * n;
    lemma_handles_bytes_len(handles);
    assert(hb + size_field + parameters + sessions_bytes =~= body);
    assert(frame == header + body);
    lemma_concat_parts(header, body);
    lemma_header_reads(frame, tag.spec_value(), size, code);
    lemma_concat_parts(hb, rest);
    lemma_subrange_of_eq(frame, TPM_HEADER_SIZE as int, body, 0, 4 * n);
    lemma_read_handles_of_bytes(frame, TPM_HEADER_SIZE as int, handles);
    lemma_subrange_of_eq(frame, TPM_HEADER_SIZE as int, body, 4 * n, rest.len() as int);
    assert(frame.subrange(hend, frame.len() as int) == rest);
    if has_sessions {
        lemma_response_sessions_tail(frame, hend, parameters, sessions);
        assert(sessions.len() > 0 ==> {
            let hend = TPM_HEADER_SIZE + 4 * handles.len();
            let psize = spec_be32(frame, hend) as int;
            &&& frame.len() - hend >= 4
            &&& frame.len() - (hend + 4) >= psize
            &&& frame.subrange(hend + 4, hend + 4 + psize) == parameters
            &&& spec_parse_auth_responses(frame, hend + 4 + psize, frame.len() as int, 0) == Ok::<
                Seq<AuthResponseView>,
                crate::error::TpmError,
            >(sessions)
        });
    } else {
        assert(rest =~= parameters);
    }
    assert(frame.len() == TPM_HEADER_SIZE + body.len());
    assert(spec_be32(frame, 2) == frame.len());
    assert(spec_be16(frame, 0) == (if sessions.len() > 0 { TpmSt::Sessions } else { TpmSt::NoSessions }).spec_value());
    assert(sessions.len() == 0 ==> frame.subrange(TPM_HEADER_SIZE + 4 * handles.len(), frame.len() as int)
            == parameters);
    lemma_unmarshal_response_fields(frame, cc, handles, parameters, sessions);
}

/// Unmarshaling the frame of an unsuccessful response gives back its
/// response code, for every response code that decoding can produce.
pub proof fn lemma_unmarshal_error_response(cc: TpmCc, rc: TpmRc)
    requires
        rc.is_canonical(),
        rc != TpmRc::Fmt0(TpmRcBase::Success),
    ensures
        spec_unmarshal_response(cc, spec_error_response_frame(rc)) == Ok::<
            Result<ResponseParts, TpmRc>,
            crate::error::TpmError,
        >(Err(rc)),
{
    let frame = spec_error_response_frame(rc);
    lemma_rc_decode_encode(rc);
    lemma_st_value_roundtrip(TpmSt::NoSessions);
    assert(frame.subrange(0, TPM_HEADER_SIZE as int) =~= frame);
    lemma_header_reads(frame, TpmSt::NoSessions.spec_value(), TPM_HEADER_SIZE as u32, rc.spec_value());
}

/// Splicing bytes at `i` leaves `s` unchanged outside `i .. i + bytes.len()`
/// and puts `bytes` there.
proof fn lemma_splice_parts(s: Seq<u8>, i: int, bytes: Seq<u8>)
    requires
        0 <= i,
        i + bytes.len() <= s.len(),
    ensures
        spec_splice(s, i, bytes).len() == s.len(),
        spec_splice(s, i, bytes).subrange(i, i + bytes.len()) == bytes,
        forall|j: int| 0 <= j < s.len() && !(i <= j < i + bytes.len()) ==> #[trigger] spec_splice(s, i, bytes)[j] == s[j],
{
    assert(spec_splice(s, i, bytes).subrange(i, i + bytes.len()) =~= bytes);
}

/// Writing a tag into a frame header makes it read back as that tag, and
/// leaves the size and code fields as they were.
pub proof fn lemma_tag_after_set_tag(s: Seq<u8>, tag: TpmSt)
    requires
        s.len() >= TPM_HEADER_SIZE,
    ensures
        spec_frame_tag(spec_splice(s, 0, spec_be16_bytes(tag.spec_value()))) == Ok::<TpmSt, crate::error::TpmError>(tag),
        spec_be32(spec_splice(s, 0, spec_be16_bytes(tag.spec_value())), 2) == spec_be32(s, 2),
        spec_be32(spec_splice(s, 0, spec_be16_bytes(tag.spec_value())), 6) == spec_be32(s, 6),
{
    let t = spec_splice(s, 0, spec_be16_bytes(tag.spec_value()));
    lemma_be16_roundtrip(tag.spec_value());
    lemma_splice_parts(s, 0, spec_be16_bytes(tag.spec_value()));
    lemma_be16_at(t, 0, tag.spec_value());
    lemma_st_value_roundtrip(tag);
    assert(t[2] == s[2] && t[3] == s[3] && t[4] == s[4] && t[5] == s[5]);
    assert(t[6] == s[6] && t[7] == s[7] && t[8] == s[8] && t[9] == s[9]);
}

/// Writing a command code into a frame header makes it read back as that
/// code, and leaves the tag and size fields as they were.
pub proof fn lemma_cc_after_set_cc(s: Seq<u8>, cc: TpmCc)
    requires
        s.len() >= TPM_HEADER_SIZE,
    ensures
        spec_command_code(spec_splice(s, 6, spec_be32_bytes(cc.spec_value()))) == Ok::<TpmCc, crate::error::TpmError>(cc),
        spec_be16(spec_splice(s, 6, spec_be32_bytes(cc.spec_value())), 0) == spec_be16(s, 0),
        spec_be32(spec_splice(s, 6, spec_be32_bytes(cc.spec_value())), 2) == spec_be32(s, 2),
{
    let t = spec_splice(s, 6, spec_be32_bytes(cc.spec_value()));
    lemma_be32_roundtrip(cc.spec_value());
    lemma_splice_parts(s, 6, spec_be32_bytes(cc.spec_value()));
    lemma_be32_at(t, 6, cc.spec_value());
    lemma_cc_value_roundtrip(cc);
    assert(t[0] == s[0] && t[1] == s[1]);
    assert(t[2] == s[2] && t[3] == s[3] && t[4] == s[4] && t[5] == s[5]);
}

/// Writing a response code that decoding can produce into a frame header
/// makes it read back as that code, and leaves the tag and size fields as
/// they were.
pub proof fn lemma_rc_after_set_rc(s: Seq<u8>, rc: TpmRc)
    requires
        s.len() >= TPM_HEADER_SIZE,
        rc.is_canonical(),
    ensures
        spec_response_code(spec_splice(s, 6, spec_be32_bytes(rc.spec_value()))) == Ok::<TpmRc, crate::error::TpmError>(rc),
        spec_be16(spec_splice(s, 6, spec_be32_bytes(rc.spec_value())), 0) == spec_be16(s, 0),
        spec_be32(spec_splice(s, 6, spec_be32_bytes(rc.spec_value())), 2) == spec_be32(s, 2),
{
    let t = spec_splice(s, 6, spec_be32_bytes(rc.spec_value()));
    lemma_be32_roundtrip(rc.spec_value());
    lemma_splice_parts(s, 6, spec_be32_bytes(rc.spec_value()));
    lemma_be32_at(t, 6, rc.spec_value());
    lemma_rc_decode_encode(rc);
    assert(t[0] == s[0] && t[1] == s[1]);
    assert(t[2] == s[2] && t[3] == s[3] && t[4] == s[4] && t[5] == s[5]);
}

/// The layout of a marshaled command frame: the tag, the size and the
/// command code stand in the header, the size field holds the frame's
/// length, which is the header, four bytes per handle, the parameters and,
/// under `Sessions`, a four-byte authorization size followed by that many
/// bytes of authorizations; that size stands right after the handles.
pub proof fn lemma_command_frame_layout(
    cc: TpmCc,
    handles: Seq<u32>,
    parameters: Seq<u8>,
    tag: TpmSt,
    sessions: Seq<AuthCommandView>,
)
    requires
        spec_command_frame(cc, handles, parameters, tag, sessions).len() <= u32::MAX,
    ensures
        ({
            let w = spec_command_frame(cc, handles, parameters, tag, sessions);
            let h = 4 * handles.len();
            let a = spec_auth_commands_bytes(sessions).len();
            &&& spec_be16(w, 0) == tag.spec_value()
            &&& spec_be32(w, 2) == w.len()
            &&& spec_be32(w, 6) == cc.spec_value()
            &&& w.len() == TPM_HEADER_SIZE + h + parameters.len() + (if tag == TpmSt::Sessions {
                4 + a
            } else {
                0
            })
            &&& tag == TpmSt::Sessions ==> spec_be32(w, TPM_HEADER_SIZE + h) == a
        }),
{
    let hb = spec_handles_bytes(handles);
    let auth = spec_command_auth_area(tag, sessions);
    let rest = auth + parameters;
    let body = hb + rest;
    let frame = spec_command_frame(cc, handles, parameters, tag, sessions);
    let size = (TPM_HEADER_SIZE + body.len()) as u32;
    let header = spec_be16_bytes(tag.spec_value()) + spec_be32_bytes(size) + spec_be32_bytes(
        cc.spec_value(),
    );
    let n: int = handles.len() as int;
    let hend = TPM_HEADER_SIZE + 4 * n;
    lemma_be16_roundtrip(tag.spec_value());
    lemma_be32_roundtrip(size);
    lemma_be32_roundtrip(cc.spec_value());
    lemma_handles_bytes_len(handles);
    assert(hb + auth + parameters =~= body);
    assert(frame == header + body);
    lemma_concat_parts(header, body);
    lemma_header_reads(frame, tag.spec_value(), size, cc.spec_value());
    if tag == TpmSt::Sessions {
        let b = spec_auth_commands_bytes(sessions);
        let asize = b.len() as u32;
        lemma_be32_roundtrip(asize);
        assert(auth == spec_be32_bytes(asize) + b);
        lemma_concat_parts(hb, rest);
        lemma_subrange_of_eq(frame, TPM_HEADER_SIZE as int, body, 4 * n, rest.len() as int);
        lemma_concat_parts(spec_be32_bytes(asize), b);
        lemma_concat_parts(auth, parameters);
        lemma_subrange_of_eq(frame, hend, rest, 0, 4);
        lemma_subrange_of_eq(rest, 0, auth, 0, 4);
        lemma_be32_at(frame, hend, asize);
    } else {
        assert(auth =~= Seq::<u8>::empty());
    }
}

/// The layout of a marshaled successful response frame: the tag announces
/// sessions exactly when there are some, the size field holds the frame's
/// length, the response code is zero, and the length is the header, four
/// bytes per handle, the parameters and, with sessions, a four-byte
/// parameter size and the authorizations; that size, right after the
/// handles, is the parameters' length.
pub proof fn lemma_response_frame_layout(
    handles: Seq<u32>,
    parameters: Seq<u8>,
    sessions: Seq<AuthResponseView>,
)
    requires
        spec_response_frame(handles, parameters, sessions).len() <= u32::MAX,
    ensures
        ({
            let w = spec_response_frame(handles, parameters, sessions);
            let h = 4 * handles.len();
            let k = sessions.len() > 0;
            &&& spec_be16(w, 0) == (if k { TpmSt::Sessions } else { TpmSt::NoSessions }).spec_value()
            &&& spec_be32(w, 2) == w.len()
            &&& spec_be32(w, 6) == 0
            &&& w.len() == TPM_HEADER_SIZE + h + parameters.len() + (if k {
                4 + spec_auth_responses_bytes(sessions).len()
            } else {
                0
            })
            &&& k ==> spec_be32(w, TPM_HEADER_SIZE + h) == parameters.len()
        }),
{
    let has_sessions = sessions.len() > 0;
    let tag = if has_sessions { TpmSt::Sessions } else { TpmSt::NoSessions };
    let size_field = if has_sessions {
        spec_be32_bytes(parameters.len() as u32)
    } else {
        Seq::empty()
    };
    let sessions_bytes = if has_sessions { spec_auth_responses_bytes(sessions) } else { Seq::empty() };
    let hb = spec_handles_bytes(handles);
    let rest = size_field + parameters + sessions_bytes;
    let body = hb + rest;
    let frame = spec_response_frame(handles, parameters, sessions);
    let size = (TPM_HEADER_SIZE + body.len()) as u32;
    let code = TpmRc::Fmt0(TpmRcBase::Success).spec_value();
    let header = spec_be16_bytes(tag.spec_value()) + spec_be32_bytes(size) + spec_be32_bytes(code);
    let n: int = handles.len() as int;
    let hend = TPM_HEADER_SIZE + 4 * n;
    lemma_be16_roundtrip(tag.spec_value());
    lemma_be32_roundtrip(size);
    lemma_be32_roundtrip(code);
    lemma_handles_bytes_len(handles);
    assert(hb + size_field + parameters + sessions_bytes =~= body);
    assert(frame == header + body);
    lemma_concat_parts(header, body);
    lemma_header_reads(frame, tag.spec_value(), size, code);
    if has_sessions {
        let psize = parameters.len() as u32;
        lemma_be32_roundtrip(psize);
        lemma_concat_parts(hb, rest);
        lemma_subrange_of_eq(frame, TPM_HEADER_SIZE as int, body, 4 * n, rest.len() as int);
        lemma_subrange_of_eq(frame, hend, rest, 0, 4);
        assert(rest.subrange(0, 4) =~= spec_be32_bytes(psize));
        lemma_be32_at(frame, hend, psize);
    }
}

} // verus!
