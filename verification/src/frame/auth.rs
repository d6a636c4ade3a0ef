//! Authorization areas of command and response frames.

use crate::constant::{MAX_DIGEST_SIZE, MAX_SESSIONS};
use crate::data::attr::TpmaSession;
use crate::error::{TpmError, TpmResult};
use crate::frame::codec::{
    push_bytes, push_u16, push_u32, read_u16, read_u32, spec_be16, spec_be16_bytes, spec_be32,
    spec_be32_bytes,
};
use vstd::prelude::*;
use vstd::slice::slice_subrange;
use vstd::slice::slice_to_vec;

verus! {

/// A command authorization (`TPMS_AUTH_COMMAND`).
#[derive(Debug, Clone, PartialEq, Eq)]
pub struct TpmsAuthCommand {
    pub session_handle: u32,
    pub nonce: Vec<u8>,
    pub session_attributes: TpmaSession,
    pub hmac: Vec<u8>,
}

/// A response authorization (`TPMS_AUTH_RESPONSE`).
#[derive(Debug, Clone, PartialEq, Eq)]
pub struct TpmsAuthResponse {
    pub nonce: Vec<u8>,
    pub session_attributes: TpmaSession,
    pub hmac: Vec<u8>,
}

/// The value of a command authorization.
pub struct AuthCommandView {
    pub session_handle: u32,
    pub nonce: Seq<u8>,
    pub session_attributes: u8,
    pub hmac: Seq<u8>,
}

/// The value of a response authorization.
pub struct AuthResponseView {
    pub nonce: Seq<u8>,
    pub session_attributes: u8,
    pub hmac: Seq<u8>,
}

impl View for TpmsAuthCommand {
    type V = AuthCommandView;

    open spec fn view(&self) -> AuthCommandView {
        AuthCommandView {
            session_handle: self.session_handle,
            nonce: self.nonce@,
            session_attributes: self.session_attributes.0,
            hmac: self.hmac@,
        }
    }
}

impl View for TpmsAuthResponse {
    type V = AuthResponseView;

    open spec fn view(&self) -> AuthResponseView {
        AuthResponseView {
            nonce: self.nonce@,
            session_attributes: self.session_attributes.0,
            hmac: self.hmac@,
        }
    }
}

/// A size-prefixed buffer: its two-byte size and its bytes.
pub open spec fn spec_tpm2b_bytes(data: Seq<u8>) -> Seq<u8> {
    spec_be16_bytes(data.len() as u16) + data
}

impl AuthCommandView {
    /// Nonce and HMAC fit their buffers.
    pub open spec fn wf(self) -> bool {
        self.nonce.len() <= MAX_DIGEST_SIZE && self.hmac.len() <= MAX_DIGEST_SIZE
    }

    /// The wire encoding.
    pub open spec fn spec_bytes(self) -> Seq<u8> {
        spec_be32_bytes(self.session_handle) + spec_tpm2b_bytes(self.nonce) + seq![
            self.session_attributes,
        ] + spec_tpm2b_bytes(self.hmac)
    }
}

impl AuthResponseView {
    /// Nonce and HMAC fit their buffers.
    pub open spec fn wf(self) -> bool {
        self.nonce.len() <= MAX_DIGEST_SIZE && self.hmac.len() <= MAX_DIGEST_SIZE
    }

    /// The wire encoding.
    pub open spec fn spec_bytes(self) -> Seq<u8> {
        spec_tpm2b_bytes(self.nonce) + seq![self.session_attributes] + spec_tpm2b_bytes(self.hmac)
    }
}

/// The views of a sequence of command authorizations.
pub open spec fn auth_command_views(s: Seq<TpmsAuthCommand>) -> Seq<AuthCommandView> {
    s.map_values(|a: TpmsAuthCommand| a@)
}

/// The views of a sequence of response authorizations.
pub open spec fn auth_response_views(s: Seq<TpmsAuthResponse>) -> Seq<AuthResponseView> {
    s.map_values(|a: TpmsAuthResponse| a@)
}

/// Every authorization in the sequence fits its buffers.
pub open spec fn auth_commands_wf(s: Seq<AuthCommandView>) -> bool {
    forall|i: int| 0 <= i < s.len() ==> (#[trigger] s[i]).wf()
}

/// Every authorization in the sequence fits its buffers.
pub open spec fn auth_responses_wf(s: Seq<AuthResponseView>) -> bool {
    forall|i: int| 0 <= i < s.len() ==> (#[trigger] s[i]).wf()
}

/// The wire encoding of a sequence of command authorizations.
pub open spec fn spec_auth_commands_bytes(s: Seq<AuthCommandView>) -> Seq<u8>
    decreases s.len(),
{
    if s.len() == 0 {
        Seq::empty()
    } else {
        s[0].spec_bytes() + spec_auth_commands_bytes(s.drop_first())
    }
}

/// The wire encoding of a sequence of response authorizations.
pub open spec fn spec_auth_responses_bytes(s: Seq<AuthResponseView>) -> Seq<u8>
    decreases s.len(),
{
    if s.len() == 0 {
        Seq::empty()
    } else {
        s[0].spec_bytes() + spec_auth_responses_bytes(s.drop_first())
    }
}

/// Encoding one more command authorization appends its encoding.
pub proof fn lemma_auth_commands_bytes_push(s: Seq<AuthCommandView>, a: AuthCommandView)
    ensures
        spec_auth_commands_bytes(s.push(a)) == spec_auth_commands_bytes(s) + a.spec_bytes(),
    decreases s.len(),
{
    if s.len() == 0 {
        assert(s.push(a).drop_first() =~= Seq::<AuthCommandView>::empty());
        assert(s.push(a)[0] == a);
        assert(spec_auth_commands_bytes(Seq::<AuthCommandView>::empty()) =~= Seq::<u8>::empty());
        assert(spec_auth_commands_bytes(s.push(a)) =~= a.spec_bytes());
    } else {
        lemma_auth_commands_bytes_push(s.drop_first(), a);
        assert(s.push(a).drop_first() =~= s.drop_first().push(a));
        assert(spec_auth_commands_bytes(s.push(a)) =~= spec_auth_commands_bytes(s) + a.spec_bytes());
    }
}

/// Encoding one more response authorization appends its encoding.
pub proof fn lemma_auth_responses_bytes_push(s: Seq<AuthResponseView>, a: AuthResponseView)
    ensures
        spec_auth_responses_bytes(s.push(a)) == spec_auth_responses_bytes(s) + a.spec_bytes(),
    decreases s.len(),
{
    if s.len() == 0 {
        assert(s.push(a).drop_first() =~= Seq::<AuthResponseView>::empty());
        assert(s.push(a)[0] == a);
        assert(spec_auth_responses_bytes(Seq::<AuthResponseView>::empty()) =~= Seq::<u8>::empty());
        assert(spec_auth_responses_bytes(s.push(a)) =~= a.spec_bytes());
    } else {
        lemma_auth_responses_bytes_push(s.drop_first(), a);
        assert(s.push(a).drop_first() =~= s.drop_first().push(a));
        assert(spec_auth_responses_bytes(s.push(a)) =~= spec_auth_responses_bytes(s) + a.spec_bytes());
    }
}

// ---------------------------------------------------------------------------
// Parsing, as spec functions over the frame bytes `s`, reading from `pos`
// without passing `end`.
// ---------------------------------------------------------------------------

/// A size-prefixed buffer of at most `cap` bytes, and the position after it.
pub open spec fn spec_parse_tpm2b(s: Seq<u8>, pos: int, end: int, cap: usize) -> TpmResult<(Seq<u8>, usize)> {
    if end - pos < 2 {
        Err(TpmError::UnexpectedEnd { offset: pos as usize, needed: 2, available: (end - pos) as usize })
    } else {
        let size = spec_be16(s, pos) as usize;
        if size > cap {
            Err(TpmError::TooManyItems { offset: pos as usize, limit: cap, actual: size })
        } else if end - pos - 2 < size {
            Err(TpmError::UnexpectedEnd {
                offset: (pos + 2) as usize,
                needed: size,
                available: (end - pos - 2) as usize,
            })
        } else {
            Ok((s.subrange(pos + 2, pos + 2 + size), (pos + 2 + size) as usize))
        }
    }
}

/// One command authorization, and the position after it.
pub open spec fn spec_parse_auth_command(s: Seq<u8>, pos: int, end: int) -> TpmResult<(AuthCommandView, usize)> {
    if end - pos < 4 {
        Err(TpmError::UnexpectedEnd { offset: pos as usize, needed: 4, available: (end - pos) as usize })
    } else {
        match spec_parse_tpm2b(s, pos + 4, end, MAX_DIGEST_SIZE) {
            Err(e) => Err(e),
            Ok((nonce, p)) => if p >= end {
                Err(TpmError::UnexpectedEnd { offset: p, needed: 1, available: 0 })
            } else {
                match spec_parse_tpm2b(s, p + 1, end, MAX_DIGEST_SIZE) {
                    Err(e) => Err(e),
                    Ok((hmac, q)) => Ok((
                        AuthCommandView {
                            session_handle: spec_be32(s, pos),
                            nonce,
                            session_attributes: s[p as int],
                            hmac,
                        },
                        q,
                    )),
                }
            },
        }
    }
}

/// One response authorization, and the position after it.
pub open spec fn spec_parse_auth_response(s: Seq<u8>, pos: int, end: int) -> TpmResult<(AuthResponseView, usize)> {
    match spec_parse_tpm2b(s, pos, end, MAX_DIGEST_SIZE) {
        Err(e) => Err(e),
        Ok((nonce, p)) => if p >= end {
            Err(TpmError::UnexpectedEnd { offset: p, needed: 1, available: 0 })
        } else {
            match spec_parse_tpm2b(s, p + 1, end, MAX_DIGEST_SIZE) {
                Err(e) => Err(e),
                Ok((hmac, q)) => Ok((
                    AuthResponseView { nonce, session_attributes: s[p as int], hmac },
                    q,
                )),
            }
        },
    }
}

/// All command authorizations in `s[pos..end]`, `count` of them having been
/// read before `pos`; at most `MAX_SESSIONS` in all.
pub open spec fn spec_parse_auth_commands(s: Seq<u8>, pos: int, end: int, count: nat) -> TpmResult<Seq<AuthCommandView>>
    decreases end - pos,
{
    if pos >= end {
        Ok(Seq::empty())
    } else {
        match spec_parse_auth_command(s, pos, end) {
            Err(e) => Err(e),
            Ok((a, p)) => if count >= MAX_SESSIONS {
                Err(TpmError::TooManyItems { offset: pos as usize, limit: MAX_SESSIONS, actual: (count + 1) as usize })
            } else if p <= pos {
                Ok(Seq::empty())
            } else {
                match spec_parse_auth_commands(s, p as int, end, count + 1) {
                    Err(e) => Err(e),
                    Ok(rest) => Ok(seq![a] + rest),
                }
            },
        }
    }
}

/// All response authorizations in `s[pos..end]`, `count` of them having been
/// read before `pos`; at most `MAX_SESSIONS` in all.
pub open spec fn spec_parse_auth_responses(s: Seq<u8>, pos: int, end: int, count: nat) -> TpmResult<Seq<AuthResponseView>>
    decreases end - pos,
{
    if pos >= end {
        Ok(Seq::empty())
    } else {
        match spec_parse_auth_response(s, pos, end) {
            Err(e) => Err(e),
            Ok((a, p)) => if count >= MAX_SESSIONS {
                Err(TpmError::TooManyItems { offset: pos as usize, limit: MAX_SESSIONS, actual: (count + 1) as usize })
            } else if p <= pos {
                Ok(Seq::empty())
            } else {
                match spec_parse_auth_responses(s, p as int, end, count + 1) {
                    Err(e) => Err(e),
                    Ok(rest) => Ok(seq![a] + rest),
                }
            },
        }
    }
}

// ---------------------------------------------------------------------------
// Executable marshaling and parsing.
// ---------------------------------------------------------------------------

impl TpmsAuthCommand {
    /// Returns the encoded length.
    pub fn len(&self) -> (r: usize)
        requires
            self@.wf(),
        ensures
            r == self@.spec_bytes().len(),
    {
        4 + 2 + self.nonce.len() + 1 + 2 + self.hmac.len()
    }

    /// Appends the wire encoding to `buf`.
    pub fn marshal(&self, buf: &mut Vec<u8>)
        requires
            self@.wf(),
        ensures
            final(buf)@ == old(buf)@ + self@.spec_bytes(),
    {
        push_u32(buf, self.session_handle);
        push_u16(buf, self.nonce.len() as u16);
        push_bytes(buf, self.nonce.as_slice());
        buf.push(self.session_attributes.0);
        push_u16(buf, self.hmac.len() as u16);
        push_bytes(buf, self.hmac.as_slice());
        assert(buf@ =~= old(buf)@ + self@.spec_bytes());
    }
}

impl TpmsAuthResponse {
    /// Returns the encoded length.
    pub fn len(&self) -> (r: usize)
        requires
            self@.wf(),
        ensures
            r == self@.spec_bytes().len(),
    {
        2 + self.nonce.len() + 1 + 2 + self.hmac.len()
    }

    /// Appends the wire encoding to `buf`.
    pub fn marshal(&self, buf: &mut Vec<u8>)
        requires
            self@.wf(),
        ensures
            final(buf)@ == old(buf)@ + self@.spec_bytes(),
    {
        push_u16(buf, self.nonce.len() as u16);
        push_bytes(buf, self.nonce.as_slice());
        buf.push(self.session_attributes.0);
        push_u16(buf, self.hmac.len() as u16);
        push_bytes(buf, self.hmac.as_slice());
        assert(buf@ =~= old(buf)@ + self@.spec_bytes());
    }
}

/// Parses a size-prefixed buffer of at most `cap` bytes at `pos`.
pub fn parse_tpm2b(s: &[u8], pos: usize, end: usize, cap: usize) -> (r: TpmResult<(Vec<u8>, usize)>)
    requires
        pos <= end <= s@.len(),
    ensures
        match spec_parse_tpm2b(s@, pos as int, end as int, cap) {
            Err(e) => r == Err::<(Vec<u8>, usize), TpmError>(e),
            Ok((data, p)) => r matches Ok((v, q)) && v@ == data && q == p,
        },
        r matches Ok((_, q)) ==> pos + 2 <= q <= end,
{
    if end - pos < 2 {
        return Err(TpmError::UnexpectedEnd { offset: pos, needed: 2, available: end - pos });
    }
    let size = read_u16(s, pos) as usize;
    if size > cap {
        return Err(TpmError::TooManyItems { offset: pos, limit: cap, actual: size });
    }
    if end - pos - 2 < size {
        return Err(TpmError::UnexpectedEnd { offset: pos + 2, needed: size, available: end - pos - 2 });
    }
    let data = slice_to_vec(slice_subrange(s, pos + 2, pos + 2 + size));
    Ok((data, pos + 2 + size))
}

/// Parses one command authorization at `pos`.
pub fn parse_auth_command(s: &[u8], pos: usize, end: usize) -> (r: TpmResult<(TpmsAuthCommand, usize)>)
    requires
        pos <= end <= s@.len(),
    ensures
        match spec_parse_auth_command(s@, pos as int, end as int) {
            Err(e) => r == Err::<(TpmsAuthCommand, usize), TpmError>(e),
            Ok((a, p)) => r matches Ok((v, q)) && v@ == a && q == p,
        },
        r matches Ok((_, q)) ==> pos < q <= end,
{
    if end - pos < 4 {
        return Err(TpmError::UnexpectedEnd { offset: pos, needed: 4, available: end - pos });
    }
    let session_handle = read_u32(s, pos);
    let (nonce, p) = parse_tpm2b(s, pos + 4, end, MAX_DIGEST_SIZE)?;
    if p >= end {
        return Err(TpmError::UnexpectedEnd { offset: p, needed: 1, available: 0 });
    }
    let session_attributes = TpmaSession(s[p]);
    let (hmac, q) = parse_tpm2b(s, p + 1, end, MAX_DIGEST_SIZE)?;
    Ok((TpmsAuthCommand { session_handle, nonce, session_attributes, hmac }, q))
}

/// Parses one response authorization at `pos`.
pub fn parse_auth_response(s: &[u8], pos: usize, end: usize) -> (r: TpmResult<(TpmsAuthResponse, usize)>)
    requires
        pos <= end <= s@.len(),
    ensures
        match spec_parse_auth_response(s@, pos as int, end as int) {
            Err(e) => r == Err::<(TpmsAuthResponse, usize), TpmError>(e),
            Ok((a, p)) => r matches Ok((v, q)) && v@ == a && q == p,
        },
        r matches Ok((_, q)) ==> pos < q <= end,
{
    let (nonce, p) = parse_tpm2b(s, pos, end, MAX_DIGEST_SIZE)?;
    if p >= end {
        return Err(TpmError::UnexpectedEnd { offset: p, needed: 1, available: 0 });
    }
    let session_attributes = TpmaSession(s[p]);
    let (hmac, q) = parse_tpm2b(s, p + 1, end, MAX_DIGEST_SIZE)?;
    Ok((TpmsAuthResponse { nonce, session_attributes, hmac }, q))
}

/// Parses all command authorizations in `s[start..end]`.
pub fn parse_auth_commands(s: &[u8], start: usize, end: usize) -> (r: TpmResult<Vec<TpmsAuthCommand>>)
    requires
        start <= end <= s@.len(),
    ensures
        match spec_parse_auth_commands(s@, start as int, end as int, 0) {
            Err(e) => r == Err::<Vec<TpmsAuthCommand>, TpmError>(e),
            Ok(v) => r matches Ok(w) && auth_command_views(w@) == v,
        },
{
    let mut sessions: Vec<TpmsAuthCommand> = Vec::new();
    let mut pos = start;
    while pos < end
        invariant
            start <= pos <= end <= s@.len(),
            sessions@.len() <= MAX_SESSIONS,
            match spec_parse_auth_commands(s@, start as int, end as int, 0) {
                Err(e) => spec_parse_auth_commands(s@, pos as int, end as int, sessions@.len()) == Err::<Seq<AuthCommandView>, TpmError>(e),
                Ok(v) => spec_parse_auth_commands(s@, pos as int, end as int, sessions@.len()) matches Ok(rest)
                    && v == auth_command_views(sessions@) + rest,
            },
        decreases end - pos,
    {
        let (session, p) = parse_auth_command(s, pos, end)?;
        if sessions.len() >= MAX_SESSIONS {
            return Err(TpmError::TooManyItems { offset: pos, limit: MAX_SESSIONS, actual: sessions.len() + 1 });
        }
        let ghost old_views = auth_command_views(sessions@);
        sessions.push(session);
        proof {
            assert(auth_command_views(sessions@) =~= old_views.push(session@));
            match spec_parse_auth_commands(s@, start as int, end as int, 0) {
                Err(e) => {},
                Ok(v) => {
                    let rest = spec_parse_auth_commands(s@, p as int, end as int, sessions@.len()).unwrap();
                    assert(v =~= auth_command_views(sessions@) + rest);
                },
            }
        }
        pos = p;
    }
    proof {
        match spec_parse_auth_commands(s@, start as int, end as int, 0) {
            Err(e) => {},
            Ok(v) => {
                assert(v =~= auth_command_views(sessions@));
            },
        }
    }
    Ok(sessions)
}

/// Parses all response authorizations in `s[start..end]`.
pub fn parse_auth_responses(s: &[u8], start: usize, end: usize) -> (r: TpmResult<Vec<TpmsAuthResponse>>)
    requires
        start <= end <= s@.len(),
    ensures
        match spec_parse_auth_responses(s@, start as int, end as int, 0) {
            Err(e) => r == Err::<Vec<TpmsAuthResponse>, TpmError>(e),
            Ok(v) => r matches Ok(w) && auth_response_views(w@) == v,
        },
{
    let mut sessions: Vec<TpmsAuthResponse> = Vec::new();
    let mut pos = start;
    while pos < end
        invariant
            start <= pos <= end <= s@.len(),
            sessions@.len() <= MAX_SESSIONS,
            match spec_parse_auth_responses(s@, start as int, end as int, 0) {
                Err(e) => spec_parse_auth_responses(s@, pos as int, end as int, sessions@.len()) == Err::<Seq<AuthResponseView>, TpmError>(e),
                Ok(v) => spec_parse_auth_responses(s@, pos as int, end as int, sessions@.len()) matches Ok(rest)
                    && v == auth_response_views(sessions@) + rest,
            },
        decreases end - pos,
    {
        let (session, p) = parse_auth_response(s, pos, end)?;
        if sessions.len() >= MAX_SESSIONS {
            return Err(TpmError::TooManyItems { offset: pos, limit: MAX_SESSIONS, actual: sessions.len() + 1 });
        }
        let ghost old_views = auth_response_views(sessions@);
        sessions.push(session);
        proof {
            assert(auth_response_views(sessions@) =~= old_views.push(session@));
            match spec_parse_auth_responses(s@, start as int, end as int, 0) {
                Err(e) => {},
                Ok(v) => {
                    let rest = spec_parse_auth_responses(s@, p as int, end as int, sessions@.len()).unwrap();
                    assert(v =~= auth_response_views(sessions@) + rest);
                },
            }
        }
        pos = p;
    }
    proof {
        match spec_parse_auth_responses(s@, start as int, end as int, 0) {
            Err(e) => {},
            Ok(v) => {
                assert(v =~= auth_response_views(sessions@));
            },
        }
    }
    Ok(sessions)
}

} // verus!
