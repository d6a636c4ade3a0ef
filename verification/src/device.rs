//! Reading a response from a TPM device: deciding, as bytes arrive, whether
//! the response is complete, still coming, or broken.

use crate::constant::{TPM_HEADER_SIZE, TPM_MAX_COMMAND_SIZE};
use crate::data::cc::TpmCc;
use crate::data::rc::TpmRc;
use crate::data::st::TpmSt;
use crate::error::TpmError;
use crate::frame::auth::{
    auth_command_views, auth_commands_wf, auth_response_views, TpmsAuthCommand, TpmsAuthResponse,
};
use crate::frame::codec::{read_u32, spec_be32};
use crate::frame::marshal::{
    spec_command_body_len, spec_command_frame, tpm_marshal_command, TpmCommandBody,
    TpmResponseBody, TpmWriter,
};
use crate::frame::parse::{spec_parse_response, tpm_parse_response, TpmErrorKind};
use vstd::prelude::*;
use vstd::slice::slice_to_vec;

verus! {

/// What to do after an event while a response is read.
#[derive(Debug, Clone, Copy, PartialEq, Eq, Structural)]
pub enum ReadStep {
    /// Wait for more bytes.
    Continue,
    /// The response is complete.
    Done,
    /// The response is longer than it says, or says an impossible size.
    InvalidResponse,
    /// The device closed before the response was complete.
    UnexpectedEof,
}

/// The bytes of a response read so far, and its size once the header has
/// arrived.
pub struct ResponseReader {
    buf: Vec<u8>,
    total_size: Option<usize>,
}

/// The size a response header declares, when it is one a response can have.
pub open spec fn spec_declared_size(buf: Seq<u8>) -> Option<usize> {
    let size = spec_be32(buf, 2) as int;
    if TPM_HEADER_SIZE <= size <= TPM_MAX_COMMAND_SIZE {
        Some(size as usize)
    } else {
        None
    }
}

/// The size known after a check of `buf`, and what to do next: once ten
/// bytes are there the size is read from the header (an impossible size is
/// an invalid response); a response as long as its size is complete, a
/// longer one invalid.
pub open spec fn spec_check(buf: Seq<u8>, total: Option<usize>) -> (Option<usize>, ReadStep) {
    if total is None && buf.len() >= TPM_HEADER_SIZE && spec_declared_size(buf) is None {
        (total, ReadStep::InvalidResponse)
    } else {
        let known = if total is None && buf.len() >= TPM_HEADER_SIZE {
            spec_declared_size(buf)
        } else {
            total
        };
        match known {
            Some(size) => if buf.len() == size {
                (known, ReadStep::Done)
            } else if buf.len() > size {
                (known, ReadStep::InvalidResponse)
            } else {
                (known, ReadStep::Continue)
            },
            None => (known, ReadStep::Continue),
        }
    }
}

impl ResponseReader {
    /// The bytes read so far.
    pub closed spec fn spec_bytes(&self) -> Seq<u8> {
        self.buf@
    }

    /// The size of the response, once known.
    pub closed spec fn spec_total(&self) -> Option<usize> {
        self.total_size
    }

    /// A known size is the one the header of the bytes read declares.
    pub open spec fn wf(&self) -> bool {
        self.spec_total() matches Some(size) ==> self.spec_bytes().len() >= TPM_HEADER_SIZE && spec_declared_size(
            self.spec_bytes(),
        ) == Some(size)
    }

    /// A reader that has read nothing.
    pub fn new() -> (r: Self)
        ensures
            r.spec_bytes() == Seq::<u8>::empty(),
            r.spec_total() is None,
            r.wf(),
    {
        ResponseReader { buf: Vec::new(), total_size: None }
    }

    /// Returns the bytes read so far.
    pub fn as_bytes(&self) -> (r: &[u8])
        ensures
            r@ == self.spec_bytes(),
    {
        self.buf.as_slice()
    }

    /// Decides what to do with the bytes read so far.
    pub fn check(&mut self) -> (r: ReadStep)
        requires
            old(self).wf(),
        ensures
            final(self).wf(),
            final(self).spec_bytes() == old(self).spec_bytes(),
            (final(self).spec_total(), r) == spec_check(old(self).spec_bytes(), old(self).spec_total()),
    {
        let len = self.buf.len();
        if self.total_size.is_none() && len >= TPM_HEADER_SIZE {
            let size = read_u32(self.buf.as_slice(), 2) as usize;
            if size < TPM_HEADER_SIZE || size > TPM_MAX_COMMAND_SIZE {
                return ReadStep::InvalidResponse;
            }
            self.total_size = Some(size);
        }
        match self.total_size {
            Some(size) => if len == size {
                ReadStep::Done
            } else if len > size {
                ReadStep::InvalidResponse
            } else {
                ReadStep::Continue
            },
            None => ReadStep::Continue,
        }
    }

    /// Appends bytes that arrived and decides what to do.
    pub fn on_data(&mut self, data: &[u8]) -> (r: ReadStep)
        requires
            old(self).spec_bytes().len() + data@.len() <= usize::MAX,
            old(self).wf(),
        ensures
            final(self).wf(),
            final(self).spec_bytes() == old(self).spec_bytes() + data@,
            (final(self).spec_total(), r) == spec_check(old(self).spec_bytes() + data@, old(self).spec_total()),
    {
        let mut i: usize = 0;
        while i < data.len()
            invariant
                i <= data@.len(),
                self.buf@ == old(self).buf@ + data@.subrange(0, i as int),
                self.total_size == old(self).total_size,
            decreases data@.len() - i,
        {
            self.buf.push(data[i]);
            i = i + 1;
            assert(self.buf@ =~= old(self).buf@ + data@.subrange(0, i as int));
        }
        assert(data@.subrange(0, i as int) =~= data@);
        proof {
            if self.total_size is Some {
                let b = old(self).buf@;
                assert(self.buf@[2] == b[2] && self.buf@[3] == b[3] && self.buf@[4] == b[4] && self.buf@[5] == b[5]);
            }
        }
        self.check()
    }

    /// Decides what to do when the device has no more bytes: a response as
    /// long as its size is complete, anything else ends too early.
    pub fn on_end(&self) -> (r: ReadStep)
        ensures
            r == (if self.spec_total() matches Some(size) && self.spec_bytes().len() == size {
                ReadStep::Done
            } else {
                ReadStep::UnexpectedEof
            }),
    {
        match self.total_size {
            Some(size) => if self.buf.len() == size {
                ReadStep::Done
            } else {
                ReadStep::UnexpectedEof
            },
            None => ReadStep::UnexpectedEof,
        }
    }

    /// Hands over the bytes read.
    pub fn into_bytes(self) -> (r: Vec<u8>)
        ensures
            r@ == self.spec_bytes(),
    {
        self.buf
    }
}

/// A check that finds the response complete has read exactly as many bytes
/// as the response header declares, a size between the header's and the
/// largest command's.
pub proof fn lemma_done_is_declared_size(buf: Seq<u8>, total: Option<usize>)
    requires
        total matches Some(size) ==> buf.len() >= TPM_HEADER_SIZE && spec_declared_size(buf) == Some(size),
    ensures
        spec_check(buf, total).1 == ReadStep::Done ==> (buf.len() >= TPM_HEADER_SIZE && spec_declared_size(buf)
            == Some(buf.len() as usize)),
{
}

/// Why a command could not be carried out on the device.
#[derive(Debug, Clone, PartialEq, Eq)]
pub enum DeviceError {
    /// The device is already in use.
    AlreadyBorrowed,
    /// The user interrupted the operation.
    Interrupted,
    /// The response is longer than it says, or says an impossible size.
    InvalidResponse,
    /// No device is available.
    NotAvailable,
    /// The response belongs to another command.
    ResponseMismatch(TpmCc),
    /// The device did not answer in time.
    Timeout,
    /// The command frame could not be built.
    TpmProtocol(TpmError),
    /// The response frame could not be parsed.
    TpmParse(TpmErrorKind),
    /// The TPM answered with an error code.
    TpmRc(TpmRc),
}

/// The tag of a command with `n` authorizations: `NoSessions` without any,
/// `Sessions` otherwise.
pub open spec fn spec_session_tag(n: nat) -> TpmSt {
    if n == 0 {
        TpmSt::NoSessions
    } else {
        TpmSt::Sessions
    }
}

/// Builds the frame that is sent to the device for a command and its
/// authorizations: tagged `Sessions` when there are authorizations and
/// `NoSessions` otherwise, into a buffer of the largest command size.
///
/// The frame is the one `tpm_marshal_command` writes; it fails (with the error
/// `tpm_marshal_command` gives) exactly when the frame's size does not fit a
/// `u32` or the frame does not fit the buffer.
pub fn build_command_buffer(command: &TpmCommandBody, sessions: &[TpmsAuthCommand]) -> (r: Result<
    Vec<u8>,
    DeviceError,
>)
    requires
        command.wf(),
        auth_commands_wf(auth_command_views(sessions@)),
    ensures
        ({
            let views = auth_command_views(sessions@);
            let tag = spec_session_tag(sessions@.len());
            let body = spec_command_body_len(command.handles@.len(), command.parameters@.len(), tag, views);
            let frame = spec_command_frame(command.cc, command.handles@, command.parameters@, tag, views);
            &&& r matches Ok(b) ==> b@ == frame && b@.len() <= TPM_MAX_COMMAND_SIZE
            &&& r is Err <==> (body > usize::MAX || TPM_HEADER_SIZE + body > u32::MAX
                || frame.len() > TPM_MAX_COMMAND_SIZE)
            &&& r matches Err(e) ==> e is TpmProtocol
        }),
{
    let tag = if sessions.len() == 0 {
        TpmSt::NoSessions
    } else {
        TpmSt::Sessions
    };
    let mut writer = TpmWriter::new(TPM_MAX_COMMAND_SIZE);
    match tpm_marshal_command(command, tag, sessions, &mut writer) {
        Ok(()) => Ok(slice_to_vec(writer.as_bytes())),
        Err(e) => Err(DeviceError::TpmProtocol(e)),
    }
}

/// The result of a command whose response frame is `response`: the parsed
/// response when the TPM succeeded, the TPM's error code when it did not, and
/// the parse error when the frame is malformed.
pub fn execute_response(cc: TpmCc, response: &[u8]) -> (r: Result<
    (TpmResponseBody, Vec<TpmsAuthResponse>),
    DeviceError,
>)
    ensures
        match spec_parse_response(cc, response@) {
            Err(e) => r matches Err(DeviceError::TpmParse(k)) && k@ == e,
            Ok(Err(rc)) => r == Err::<(TpmResponseBody, Vec<TpmsAuthResponse>), DeviceError>(
                DeviceError::TpmRc(rc),
            ),
            Ok(Ok(p)) => r matches Ok((body, sessions)) && body.cc == cc && body.handles@
                == p.handles && body.parameters@ == p.parameters && auth_response_views(sessions@)
                == p.sessions,
        },
{
    match tpm_parse_response(cc, response) {
        Ok(Ok(x)) => Ok(x),
        Ok(Err(rc)) => Err(DeviceError::TpmRc(rc)),
        Err(e) => Err(DeviceError::TpmParse(e)),
    }
}

} // verus!
