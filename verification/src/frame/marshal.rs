//! Marshaling of command and response frames.

use crate::constant::TPM_HEADER_SIZE;
use crate::data::cc::TpmCc;
use crate::data::rc::{TpmRc, TpmRcBase};
use crate::data::st::TpmSt;
use crate::error::{TpmError, TpmResult};
use crate::frame::auth::{
    auth_command_views, auth_commands_wf, auth_response_views, auth_responses_wf,
    lemma_auth_commands_bytes_push, lemma_auth_responses_bytes_push, spec_auth_commands_bytes,
    spec_auth_responses_bytes, AuthCommandView, AuthResponseView, TpmsAuthCommand,
    TpmsAuthResponse,
};
use crate::frame::codec::{push_bytes, push_u16, push_u32, spec_be16_bytes, spec_be32_bytes};
use vstd::prelude::*;

verus! {

/// A bounded output buffer that frames are marshaled into.
pub struct TpmWriter {
    bytes: Vec<u8>,
    capacity: usize,
}

impl TpmWriter {
    /// The bytes written so far.
    pub closed spec fn spec_bytes(&self) -> Seq<u8> {
        self.bytes@
    }

    /// The most bytes the writer holds.
    pub closed spec fn spec_capacity(&self) -> usize {
        self.capacity
    }

    /// The written bytes fit the capacity.
    pub open spec fn inv(&self) -> bool {
        self.spec_bytes().len() <= self.spec_capacity()
    }

    /// Creates an empty writer that holds at most `capacity` bytes.
    pub fn new(capacity: usize) -> (w: TpmWriter)
        ensures
            w.spec_bytes() == Seq::<u8>::empty(),
            w.spec_capacity() == capacity,
            w.inv(),
    {
        TpmWriter { bytes: Vec::new(), capacity }
    }

    /// Returns the number of bytes written.
    pub fn len(&self) -> (r: usize)
        ensures
            r == self.spec_bytes().len(),
    {
        self.bytes.len()
    }

    /// Returns `true` when nothing has been written.
    pub fn is_empty(&self) -> (r: bool)
        ensures
            r == (self.spec_bytes().len() == 0),
    {
        self.bytes.len() == 0
    }

    /// Returns the bytes written.
    pub fn as_bytes(&self) -> (r: &[u8])
        ensures
            r@ == self.spec_bytes(),
    {
        self.bytes.as_slice()
    }

    /// Appends `data` when it fits.
    pub fn write_bytes(&mut self, data: &[u8]) -> (r: TpmResult<()>)
        requires
            old(self).inv(),
        ensures
            final(self).spec_capacity() == old(self).spec_capacity(),
            final(self).inv(),
            if old(self).spec_bytes().len() + data@.len() <= old(self).spec_capacity() {
                r is Ok && final(self).spec_bytes() == old(self).spec_bytes() + data@
            } else {
                r == Err::<(), TpmError>(TpmError::BufferOverflow {
                    offset: old(self).spec_bytes().len() as usize,
                    needed: data@.len() as usize,
                    available: (old(self).spec_capacity() - old(self).spec_bytes().len()) as usize,
                }) && final(self).spec_bytes() == old(self).spec_bytes()
            },
    {
        let available = self.capacity - self.bytes.len();
        if data.len() > available {
            return Err(TpmError::BufferOverflow { offset: self.bytes.len(), needed: data.len(), available });
        }
        push_bytes(&mut self.bytes, data);
        Ok(())
    }
}

/// The body of a command: its code, its handles and its marshaled
/// parameters.
#[derive(Debug, Clone, PartialEq, Eq)]
pub struct TpmCommandBody {
    pub cc: TpmCc,
    pub handles: Vec<u32>,
    pub parameters: Vec<u8>,
}

/// The body of a response: the code of its command, its handles and its
/// marshaled parameters.
#[derive(Debug, Clone, PartialEq, Eq)]
pub struct TpmResponseBody {
    pub cc: TpmCc,
    pub handles: Vec<u32>,
    pub parameters: Vec<u8>,
}

impl TpmCommandBody {
    /// The handle count matches the command code.
    pub open spec fn wf(&self) -> bool {
        self.handles@.len() == self.cc.spec_command_handles()
    }
}

impl TpmResponseBody {
    /// The handle count matches the response layout of the command code.
    pub open spec fn wf(&self) -> bool {
        self.handles@.len() == self.cc.spec_response_handles()
    }
}

/// The big-endian encoding of a list of handles.
pub open spec fn spec_handles_bytes(h: Seq<u32>) -> Seq<u8>
    decreases h.len(),
{
    if h.len() == 0 {
        Seq::empty()
    } else {
        spec_be32_bytes(h[0]) + spec_handles_bytes(h.drop_first())
    }
}

/// Encoding one more handle appends its encoding.
pub proof fn lemma_handles_bytes_push(h: Seq<u32>, v: u32)
    ensures
        spec_handles_bytes(h.push(v)) == spec_handles_bytes(h) + spec_be32_bytes(v),
    decreases h.len(),
{
    if h.len() == 0 {
        assert(h.push(v).drop_first() =~= Seq::<u32>::empty());
        assert(h.push(v)[0] == v);
        assert(spec_handles_bytes(Seq::<u32>::empty()) =~= Seq::<u8>::empty());
        assert(spec_handles_bytes(h.push(v)) =~= spec_be32_bytes(v));
    } else {
        lemma_handles_bytes_push(h.drop_first(), v);
        assert(h.push(v).drop_first() =~= h.drop_first().push(v));
        assert(spec_handles_bytes(h.push(v)) =~= spec_handles_bytes(h) + spec_be32_bytes(v));
    }
}

/// Each handle takes four bytes.
pub proof fn lemma_handles_bytes_len(h: Seq<u32>)
    ensures
        spec_handles_bytes(h).len() == 4 * h.len(),
    decreases h.len(),
{
    if h.len() > 0 {
        lemma_handles_bytes_len(h.drop_first());
    }
}

/// The authorization area of a command: a four-byte size and the encoded
/// authorizations, present only under the `Sessions` tag.
pub open spec fn spec_command_auth_area(tag: TpmSt, sessions: Seq<AuthCommandView>) -> Seq<u8> {
    if tag == TpmSt::Sessions {
        let b = spec_auth_commands_bytes(sessions);
        spec_be32_bytes(b.len() as u32) + b
    } else {
        Seq::empty()
    }
}

/// The bytes of a command frame: the header, the handles, the authorization
/// area and the parameters.
pub open spec fn spec_command_frame(
    cc: TpmCc,
    handles: Seq<u32>,
    parameters: Seq<u8>,
    tag: TpmSt,
    sessions: Seq<AuthCommandView>,
) -> Seq<u8> {
    let body = spec_handles_bytes(handles) + spec_command_auth_area(tag, sessions) + parameters;
    spec_be16_bytes(tag.spec_value()) + spec_be32_bytes((TPM_HEADER_SIZE + body.len()) as u32)
        + spec_be32_bytes(cc.spec_value()) + body
}

/// The bytes of a successful response frame: the header, the handles, the
/// parameter size when there are sessions, the parameters and the
/// authorizations. The tag announces sessions exactly when there are some.
pub open spec fn spec_response_frame(
    handles: Seq<u32>,
    parameters: Seq<u8>,
    sessions: Seq<AuthResponseView>,
) -> Seq<u8> {
    let has_sessions = sessions.len() > 0;
    let tag = if has_sessions { TpmSt::Sessions } else { TpmSt::NoSessions };
    let size_field = if has_sessions {
        spec_be32_bytes(parameters.len() as u32)
    } else {
        Seq::empty()
    };
    let sessions_bytes = if has_sessions { spec_auth_responses_bytes(sessions) } else { Seq::empty() };
    let body = spec_handles_bytes(handles) + size_field + parameters + sessions_bytes;
    spec_be16_bytes(tag.spec_value()) + spec_be32_bytes((TPM_HEADER_SIZE + body.len()) as u32)
        + spec_be32_bytes(TpmRc::Fmt0(TpmRcBase::Success).spec_value()) + body
}

/// The frame of an error response: a bare header with the response code.
pub open spec fn spec_error_response_frame(rc: TpmRc) -> Seq<u8> {
    spec_be16_bytes(TpmSt::NoSessions.spec_value()) + spec_be32_bytes(TPM_HEADER_SIZE as u32)
        + spec_be32_bytes(rc.spec_value())
}

/// Appends the encoding of a list of handles.
fn push_handles(buf: &mut Vec<u8>, handles: &Vec<u32>)
    ensures
        final(buf)@ == old(buf)@ + spec_handles_bytes(handles@),
{
    let mut i: usize = 0;
    proof {
        assert(handles@.subrange(0, 0) =~= Seq::<u32>::empty());
        assert(old(buf)@ + spec_handles_bytes(Seq::<u32>::empty()) =~= old(buf)@);
    }
    while i < handles.len()
        invariant
            i <= handles@.len(),
            buf@ == old(buf)@ + spec_handles_bytes(handles@.subrange(0, i as int)),
        decreases handles@.len() - i,
    {
        proof {
            lemma_handles_bytes_push(handles@.subrange(0, i as int), handles@[i as int]);
            assert(handles@.subrange(0, i as int).push(handles@[i as int]) =~= handles@.subrange(
                0,
                i + 1,
            ));
        }
        push_u32(buf, handles[i]);
        i = i + 1;
    }
    assert(handles@.subrange(0, i as int) =~= handles@);
}

/// Appends the encoding of a list of command authorizations.
fn push_auth_commands(buf: &mut Vec<u8>, sessions: &[TpmsAuthCommand])
    requires
        auth_commands_wf(auth_command_views(sessions@)),
    ensures
        final(buf)@ == old(buf)@ + spec_auth_commands_bytes(auth_command_views(sessions@)),
{
    let mut i: usize = 0;
    proof {
        assert(auth_command_views(sessions@.subrange(0, 0)) =~= Seq::<AuthCommandView>::empty());
        assert(old(buf)@ + spec_auth_commands_bytes(Seq::<AuthCommandView>::empty()) =~= old(buf)@);
    }
    while i < sessions.len()
        invariant
            i <= sessions@.len(),
            auth_commands_wf(auth_command_views(sessions@)),
            buf@ == old(buf)@ + spec_auth_commands_bytes(auth_command_views(sessions@.subrange(0, i as int))),
        decreases sessions@.len() - i,
    {
        proof {
            lemma_auth_commands_bytes_push(
                auth_command_views(sessions@.subrange(0, i as int)),
                sessions@[i as int]@,
            );
            assert(auth_command_views(sessions@.subrange(0, i as int)).push(sessions@[i as int]@)
                =~= auth_command_views(sessions@.subrange(0, i + 1)));
            assert(auth_command_views(sessions@)[i as int] == sessions@[i as int]@);
        }
        sessions[i].marshal(buf);
        i = i + 1;
    }
    assert(sessions@.subrange(0, i as int) =~= sessions@);
}

/// Appends the encoding of a list of response authorizations.
fn push_auth_responses(buf: &mut Vec<u8>, sessions: &[TpmsAuthResponse])
    requires
        auth_responses_wf(auth_response_views(sessions@)),
    ensures
        final(buf)@ == old(buf)@ + spec_auth_responses_bytes(auth_response_views(sessions@)),
{
    let mut i: usize = 0;
    proof {
        assert(auth_response_views(sessions@.subrange(0, 0)) =~= Seq::<AuthResponseView>::empty());
        assert(old(buf)@ + spec_auth_responses_bytes(Seq::<AuthResponseView>::empty()) =~= old(buf)@);
    }
    while i < sessions.len()
        invariant
            i <= sessions@.len(),
            auth_responses_wf(auth_response_views(sessions@)),
            buf@ == old(buf)@ + spec_auth_responses_bytes(auth_response_views(sessions@.subrange(0, i as int))),
        decreases sessions@.len() - i,
    {
        proof {
            lemma_auth_responses_bytes_push(
                auth_response_views(sessions@.subrange(0, i as int)),
                sessions@[i as int]@,
            );
            assert(auth_response_views(sessions@.subrange(0, i as int)).push(sessions@[i as int]@)
                =~= auth_response_views(sessions@.subrange(0, i + 1)));
            assert(auth_response_views(sessions@)[i as int] == sessions@[i as int]@);
        }
        sessions[i].marshal(buf);
        i = i + 1;
    }
    assert(sessions@.subrange(0, i as int) =~= sessions@);
}

/// The encoded length of a list of command authorizations, when it fits a
/// `usize`.
fn auth_commands_len(sessions: &[TpmsAuthCommand]) -> (r: Option<usize>)
    requires
        auth_commands_wf(auth_command_views(sessions@)),
    ensures
        match r {
            Some(n) => n == spec_auth_commands_bytes(auth_command_views(sessions@)).len(),
            None => spec_auth_commands_bytes(auth_command_views(sessions@)).len() > usize::MAX,
        },
{
    let mut total: usize = 0;
    let mut i: usize = 0;
    while i < sessions.len()
        invariant
            i <= sessions@.len(),
            auth_commands_wf(auth_command_views(sessions@)),
            total == spec_auth_commands_bytes(auth_command_views(sessions@.subrange(0, i as int))).len(),
        decreases sessions@.len() - i,
    {
        proof {
            lemma_auth_commands_bytes_push(
                auth_command_views(sessions@.subrange(0, i as int)),
                sessions@[i as int]@,
            );
            assert(auth_command_views(sessions@.subrange(0, i as int)).push(sessions@[i as int]@)
                =~= auth_command_views(sessions@.subrange(0, i + 1)));
            assert(auth_command_views(sessions@)[i as int] == sessions@[i as int]@);
        }
        let n = sessions[i].len();
        match total.checked_add(n) {
            Some(t) => total = t,
            None => {
                proof {
                    lemma_auth_commands_prefix_len(auth_command_views(sessions@), i as int + 1);
                    assert(auth_command_views(sessions@).subrange(0, i + 1) =~= auth_command_views(
                        sessions@.subrange(0, i + 1),
                    ));
                }
                return None;
            },
        }
        i = i + 1;
    }
    assert(sessions@.subrange(0, i as int) =~= sessions@);
    Some(total)
}

/// The encoding of a prefix is no longer than the encoding of the whole.
pub proof fn lemma_auth_commands_prefix_len(s: Seq<AuthCommandView>, k: int)
    requires
        0 <= k <= s.len(),
    ensures
        spec_auth_commands_bytes(s.subrange(0, k)).len() <= spec_auth_commands_bytes(s).len(),
    decreases s.len() - k,
{
    if k < s.len() {
        lemma_auth_commands_prefix_len(s, k + 1);
        lemma_auth_commands_bytes_push(s.subrange(0, k), s[k]);
        assert(s.subrange(0, k).push(s[k]) =~= s.subrange(0, k + 1));
    } else {
        assert(s.subrange(0, k) =~= s);
    }
}

/// The encoded length of a list of response authorizations, when it fits a
/// `usize`.
fn auth_responses_len(sessions: &[TpmsAuthResponse]) -> (r: Option<usize>)
    requires
        auth_responses_wf(auth_response_views(sessions@)),
    ensures
        match r {
            Some(n) => n == spec_auth_responses_bytes(auth_response_views(sessions@)).len(),
            None => spec_auth_responses_bytes(auth_response_views(sessions@)).len() > usize::MAX,
        },
{
    let mut total: usize = 0;
    let mut i: usize = 0;
    while i < sessions.len()
        invariant
            i <= sessions@.len(),
            auth_responses_wf(auth_response_views(sessions@)),
            total == spec_auth_responses_bytes(auth_response_views(sessions@.subrange(0, i as int))).len(),
        decreases sessions@.len() - i,
    {
        proof {
            lemma_auth_responses_bytes_push(
                auth_response_views(sessions@.subrange(0, i as int)),
                sessions@[i as int]@,
            );
            assert(auth_response_views(sessions@.subrange(0, i as int)).push(sessions@[i as int]@)
                =~= auth_response_views(sessions@.subrange(0, i + 1)));
            assert(auth_response_views(sessions@)[i as int] == sessions@[i as int]@);
        }
        let n = sessions[i].len();
        match total.checked_add(n) {
            Some(t) => total = t,
            None => {
                proof {
                    lemma_auth_responses_prefix_len(auth_response_views(sessions@), i as int + 1);
                    assert(auth_response_views(sessions@).subrange(0, i + 1) =~= auth_response_views(
                        sessions@.subrange(0, i + 1),
                    ));
                }
                return None;
            },
        }
        i = i + 1;
    }
    assert(sessions@.subrange(0, i as int) =~= sessions@);
    Some(total)
}

/// The encoding of a prefix is no longer than the encoding of the whole.
pub proof fn lemma_auth_responses_prefix_len(s: Seq<AuthResponseView>, k: int)
    requires
        0 <= k <= s.len(),
    ensures
        spec_auth_responses_bytes(s.subrange(0, k)).len() <= spec_auth_responses_bytes(s).len(),
    decreases s.len() - k,
{
    if k < s.len() {
        lemma_auth_responses_prefix_len(s, k + 1);
        lemma_auth_responses_bytes_push(s.subrange(0, k), s[k]);
        assert(s.subrange(0, k).push(s[k]) =~= s.subrange(0, k + 1));
    } else {
        assert(s.subrange(0, k) =~= s);
    }
}

/// The length of a command body: handles, authorization area and
/// parameters.
pub open spec fn spec_command_body_len(
    handles: nat,
    parameters: nat,
    tag: TpmSt,
    sessions: Seq<AuthCommandView>,
) -> int {
    let auth: int = if tag == TpmSt::Sessions {
        4 + spec_auth_commands_bytes(sessions).len() as int
    } else {
        0
    };
    4 * handles as int + auth + parameters as int
}

/// Marshals a command frame into `writer`.
///
/// The tag must be `NoSessions` or `Sessions`; under `NoSessions` the
/// authorizations are not written. The frame size must fit a `u32` and the
/// frame must fit the writer; on any error the writer is left as it was.
#[verifier::spinoff_prover]
#[verifier::rlimit(40)]
pub fn tpm_marshal_command(
    command: &TpmCommandBody,
    tag: TpmSt,
    sessions: &[TpmsAuthCommand],
    writer: &mut TpmWriter,
) -> (r: TpmResult<()>)
    requires
        command.wf(),
        auth_commands_wf(auth_command_views(sessions@)),
        old(writer).inv(),
    ensures
        final(writer).spec_capacity() == old(writer).spec_capacity(),
        final(writer).inv(),
        ({
            let views = auth_command_views(sessions@);
            let body = spec_command_body_len(command.handles@.len(), command.parameters@.len(), tag, views);
            let frame = spec_command_frame(command.cc, command.handles@, command.parameters@, tag, views);
            let at = old(writer).spec_bytes().len() as usize;
            if tag != TpmSt::NoSessions && tag != TpmSt::Sessions {
                r == Err::<(), TpmError>(TpmError::InvalidTag { offset: at, value: tag.spec_value() as u64 })
                    && final(writer).spec_bytes() == old(writer).spec_bytes()
            } else if body > usize::MAX {
                r == Err::<(), TpmError>(TpmError::IntegerTooLarge { offset: at, value: command.parameters@.len() as u64 })
                    && final(writer).spec_bytes() == old(writer).spec_bytes()
            } else if TPM_HEADER_SIZE + body > usize::MAX {
                r == Err::<(), TpmError>(TpmError::IntegerTooLarge { offset: at, value: body as u64 })
                    && final(writer).spec_bytes() == old(writer).spec_bytes()
            } else if TPM_HEADER_SIZE + body > u32::MAX {
                r == Err::<(), TpmError>(TpmError::IntegerTooLarge { offset: at, value: (TPM_HEADER_SIZE + body) as u64 })
                    && final(writer).spec_bytes() == old(writer).spec_bytes()
            } else if old(writer).spec_bytes().len() + frame.len() > old(writer).spec_capacity() {
                r == Err::<(), TpmError>(TpmError::BufferOverflow {
                    offset: at,
                    needed: frame.len() as usize,
                    available: (old(writer).spec_capacity() - old(writer).spec_bytes().len()) as usize,
                }) && final(writer).spec_bytes() == old(writer).spec_bytes()
            } else {
                r is Ok && final(writer).spec_bytes() == old(writer).spec_bytes() + frame
            }
        }),
{
    let ghost views = auth_command_views(sessions@);
    if tag != TpmSt::NoSessions && tag != TpmSt::Sessions {
        return Err(TpmError::InvalidTag { offset: writer.len(), value: tag.value() as u64 });
    }
    let handle_area_size = command.handles.len() * 4;
    let param_area_size = command.parameters.len();
    let auth_area_size: usize = if tag == TpmSt::Sessions {
        match auth_commands_len(sessions) {
            Some(n) => match n.checked_add(4) {
                Some(a) => a,
                None => return Err(TpmError::IntegerTooLarge { offset: writer.len(), value: param_area_size as u64 }),
            },
            None => return Err(TpmError::IntegerTooLarge { offset: writer.len(), value: param_area_size as u64 }),
        }
    } else {
        0
    };
    let total_body_len = match handle_area_size.checked_add(auth_area_size) {
        Some(n) => match n.checked_add(param_area_size) {
            Some(m) => m,
            None => return Err(TpmError::IntegerTooLarge { offset: writer.len(), value: param_area_size as u64 }),
        },
        None => return Err(TpmError::IntegerTooLarge { offset: writer.len(), value: param_area_size as u64 }),
    };
    let command_size = match TPM_HEADER_SIZE.checked_add(total_body_len) {
        Some(n) => n,
        None => return Err(TpmError::IntegerTooLarge { offset: writer.len(), value: total_body_len as u64 }),
    };
    if command_size > u32::MAX as usize {
        return Err(TpmError::IntegerTooLarge { offset: writer.len(), value: command_size as u64 });
    }
    let mut buf: Vec<u8> = Vec::new();
    push_u16(&mut buf, tag.value());
    push_u32(&mut buf, command_size as u32);
    push_u32(&mut buf, command.cc.value());
    let ghost header = buf@;
    push_handles(&mut buf, &command.handles);
    let ghost after_handles = buf@;
    if tag == TpmSt::Sessions {
        push_u32(&mut buf, (auth_area_size - 4) as u32);
        push_auth_commands(&mut buf, sessions);
    }
    let ghost after_auth = buf@;
    push_bytes(&mut buf, command.parameters.as_slice());
    proof {
        lemma_handles_bytes_len(command.handles@);
        let frame = spec_command_frame(command.cc, command.handles@, command.parameters@, tag, views);
        assert(after_auth == header + spec_handles_bytes(command.handles@) + spec_command_auth_area(tag, views));
        assert(buf@ =~= frame);
    }
    writer.write_bytes(buf.as_slice())
}

/// Marshals a response frame into `writer`.
///
/// A response code other than success gives a bare header. Otherwise the tag
/// announces sessions exactly when there are some, and then a parameter size
/// precedes the parameters and the authorizations follow them. The frame
/// size must fit a `u32` and the frame must fit the writer; on any error the
/// writer is left as it was.
#[verifier::spinoff_prover]
#[verifier::rlimit(40)]
pub fn tpm_marshal_response(
    response: &TpmResponseBody,
    sessions: &[TpmsAuthResponse],
    rc: TpmRc,
    writer: &mut TpmWriter,
) -> (r: TpmResult<()>)
    requires
        response.wf(),
        auth_responses_wf(auth_response_views(sessions@)),
        rc.value_defined(),
        old(writer).inv(),
    ensures
        final(writer).spec_capacity() == old(writer).spec_capacity(),
        final(writer).inv(),
        ({
            let views = auth_response_views(sessions@);
            let has_sessions = sessions@.len() > 0;
            let body = 4 * response.handles@.len() + (if has_sessions { 4int } else { 0int })
                + response.parameters@.len() + (if has_sessions {
                spec_auth_responses_bytes(views).len() as int
            } else {
                0int
            });
            let frame = if rc != TpmRc::Fmt0(TpmRcBase::Success) {
                spec_error_response_frame(rc)
            } else {
                spec_response_frame(response.handles@, response.parameters@, views)
            };
            let at = old(writer).spec_bytes().len() as usize;
            if rc == TpmRc::Fmt0(TpmRcBase::Success) && body > usize::MAX {
                r == Err::<(), TpmError>(TpmError::IntegerTooLarge { offset: at, value: response.parameters@.len() as u64 })
                    && final(writer).spec_bytes() == old(writer).spec_bytes()
            } else if rc == TpmRc::Fmt0(TpmRcBase::Success) && TPM_HEADER_SIZE + body > usize::MAX {
                r == Err::<(), TpmError>(TpmError::IntegerTooLarge { offset: at, value: body as u64 })
                    && final(writer).spec_bytes() == old(writer).spec_bytes()
            } else if rc == TpmRc::Fmt0(TpmRcBase::Success) && TPM_HEADER_SIZE + body > u32::MAX {
                r == Err::<(), TpmError>(TpmError::IntegerTooLarge { offset: at, value: (TPM_HEADER_SIZE + body) as u64 })
                    && final(writer).spec_bytes() == old(writer).spec_bytes()
            } else if old(writer).spec_bytes().len() + frame.len() > old(writer).spec_capacity() {
                r == Err::<(), TpmError>(TpmError::BufferOverflow {
                    offset: at,
                    needed: frame.len() as usize,
                    available: (old(writer).spec_capacity() - old(writer).spec_bytes().len()) as usize,
                }) && final(writer).spec_bytes() == old(writer).spec_bytes()
            } else {
                r is Ok && final(writer).spec_bytes() == old(writer).spec_bytes() + frame
            }
        }),
{
    let ghost views = auth_response_views(sessions@);
    if rc != TpmRc::Fmt0(TpmRcBase::Success) {
        let mut buf: Vec<u8> = Vec::new();
        push_u16(&mut buf, TpmSt::NoSessions.value());
        push_u32(&mut buf, TPM_HEADER_SIZE as u32);
        push_u32(&mut buf, rc.value());
        assert(buf@ =~= spec_error_response_frame(rc));
        return writer.write_bytes(buf.as_slice());
    }
    let has_sessions = sessions.len() > 0;
    let tag = if has_sessions { TpmSt::Sessions } else { TpmSt::NoSessions };
    let handle_area_size = response.handles.len() * 4;
    let param_area_size = response.parameters.len();
    let sessions_len: usize = if has_sessions {
        match auth_responses_len(sessions) {
            Some(n) => n,
            None => return Err(TpmError::IntegerTooLarge { offset: writer.len(), value: param_area_size as u64 }),
        }
    } else {
        0
    };
    let size_field_len: usize = if has_sessions { 4 } else { 0 };
    let total_body_len = match handle_area_size.checked_add(size_field_len) {
        Some(a) => match a.checked_add(param_area_size) {
            Some(b) => match b.checked_add(sessions_len) {
                Some(c) => c,
                None => return Err(TpmError::IntegerTooLarge { offset: writer.len(), value: param_area_size as u64 }),
            },
            None => return Err(TpmError::IntegerTooLarge { offset: writer.len(), value: param_area_size as u64 }),
        },
        None => return Err(TpmError::IntegerTooLarge { offset: writer.len(), value: param_area_size as u64 }),
    };
    let response_size = match TPM_HEADER_SIZE.checked_add(total_body_len) {
        Some(n) => n,
        None => return Err(TpmError::IntegerTooLarge { offset: writer.len(), value: total_body_len as u64 }),
    };
    if response_size > u32::MAX as usize {
        return Err(TpmError::IntegerTooLarge { offset: writer.len(), value: response_size as u64 });
    }
    let mut buf: Vec<u8> = Vec::new();
    push_u16(&mut buf, tag.value());
    push_u32(&mut buf, response_size as u32);
    push_u32(&mut buf, rc.value());
    let ghost header = buf@;
    push_handles(&mut buf, &response.handles);
    if has_sessions {
        push_u32(&mut buf, param_area_size as u32);
    }
    let ghost after_size = buf@;
    push_bytes(&mut buf, response.parameters.as_slice());
    let ghost after_params = buf@;
    if has_sessions {
        push_auth_responses(&mut buf, sessions);
    }
    proof {
        lemma_handles_bytes_len(response.handles@);
        let frame = spec_response_frame(response.handles@, response.parameters@, views);
        assert(buf@ =~= frame);
    }
    writer.write_bytes(buf.as_slice())
}

} // verus!
