//! Authorizing a command: the authorization area built from the command's
//! authorizations and the sessions they name.

use crate::constant::MAX_DIGEST_SIZE;
use crate::crypto::{spec_crypto_hash_size, spec_joined, crypto_hash_size};
use crate::data::alg::TpmAlgId;
use crate::data::attr::TpmaSession;
use crate::data::cc::TpmCc;
use crate::data::rc::{TpmRc, TpmRcBase};
use crate::error::TpmError;
use crate::frame::auth::{auth_command_views, AuthCommandView, TpmsAuthCommand};
use crate::frame::codec::{push_bytes, push_u32, spec_be32_bytes};
use crate::hash::{TpmCryptoError, TpmHash};
use crate::policy::command_list::TPM_RS_PW;
use vstd::prelude::*;
use vstd::slice::slice_to_vec;

verus! {

/// Why a command could not be authorized.
#[derive(Debug, Clone, PartialEq, Eq)]
pub enum JobError {
    /// No session is known under the virtual handle.
    HandleNotFound(u32),
    /// A policy authorization cannot authorize a handle.
    InvalidAuth,
    /// There are more authorizations than handles.
    TrailingAuthorizations,
    /// A digest or an HMAC could not be computed.
    Crypto(TpmCryptoError),
    /// A value does not fit its TPM buffer.
    Protocol(TpmError),
}

/// An authorization session known to the job: its virtual handle, its TPM
/// handle, whether it is an HMAC session (policy and trial sessions carry no
/// HMAC), its hash, its HMAC key, the TPM's last nonce and its attributes.
pub struct AuthSession {
    pub vhandle: u32,
    pub handle: u32,
    pub hmac_session: bool,
    pub auth_hash: TpmAlgId,
    pub hmac_key: Vec<u8>,
    pub nonce_tpm: Vec<u8>,
    pub attributes: TpmaSession,
}

/// An authorization session as plain values.
pub struct AuthSessionView {
    pub vhandle: u32,
    pub handle: u32,
    pub hmac_session: bool,
    pub auth_hash: TpmAlgId,
    pub hmac_key: Seq<u8>,
    pub nonce_tpm: Seq<u8>,
    pub attributes: u8,
}

impl View for AuthSession {
    type V = AuthSessionView;

    open spec fn view(&self) -> AuthSessionView {
        AuthSessionView {
            vhandle: self.vhandle,
            handle: self.handle,
            hmac_session: self.hmac_session,
            auth_hash: self.auth_hash,
            hmac_key: self.hmac_key@,
            nonce_tpm: self.nonce_tpm@,
            attributes: self.attributes.0,
        }
    }
}

/// How a handle of a command is authorized: by a password, by the session
/// under a virtual handle, or by a policy.
pub enum AuthSpec {
    Password(Vec<u8>),
    Session(u32),
    Policy,
}

/// The bytes an HMAC session authenticates: the command parameter hash, the
/// caller's and the TPM's nonces, the decrypt session's nonce and the
/// encrypt session's nonce (when it differs from the decrypt one), and the
/// session attributes.
pub open spec fn spec_hmac_payload(
    cp_hash: Seq<u8>,
    nonce_caller: Seq<u8>,
    nonce_tpm: Seq<u8>,
    dec: Option<Seq<u8>>,
    enc: Option<Seq<u8>>,
    attributes: u8,
) -> Seq<u8> {
    let d = match dec {
        Some(x) => x,
        None => Seq::empty(),
    };
    let e = match enc {
        Some(x) => if dec == Some(x) {
            Seq::empty()
        } else {
            x
        },
        None => Seq::empty(),
    };
    cp_hash + nonce_caller + nonce_tpm + d + e + seq![attributes]
}

/// The authorization that a session gives a command: the command parameter
/// hash is the session hash's digest of the command code, the names of the
/// handles and the parameters; an HMAC session's HMAC is keyed by its key and
/// the authorization value; a session of no hash is `InvalidHash`, an empty
/// HMAC key `KeyIsEmpty`, an HMAC longer than a digest `TooManyItems`.
pub open spec fn spec_create_auth(
    s: AuthSessionView,
    nonce_caller: Seq<u8>,
    auth_value: Seq<u8>,
    cc: TpmCc,
    names: Seq<Seq<u8>>,
    parameters: Seq<u8>,
    dec: Option<Seq<u8>>,
    enc: Option<Seq<u8>>,
) -> Result<AuthCommandView, JobError> {
    match TpmHash::spec_from_alg_id(s.auth_hash) {
        None => Err(JobError::Crypto(TpmCryptoError::InvalidHash)),
        Some(h) => {
            let cp = h.spec_digest(spec_be32_bytes(cc.spec_value()) + names.flatten() + parameters);
            let tag = if s.hmac_session {
                let key = s.hmac_key + auth_value;
                if key.len() == 0 {
                    None
                } else {
                    Some(h.spec_hmac(key, spec_hmac_payload(cp, nonce_caller, s.nonce_tpm, dec, enc, s.attributes)))
                }
            } else {
                Some(Seq::empty())
            };
            match tag {
                None => Err(JobError::Crypto(TpmCryptoError::KeyIsEmpty)),
                Some(t) => if t.len() > MAX_DIGEST_SIZE {
                    Err(JobError::Protocol(TpmError::TooManyItems { offset: 0, limit: MAX_DIGEST_SIZE, actual: t.len() as usize }))
                } else {
                    Ok(AuthCommandView {
                        session_handle: s.handle,
                        nonce: nonce_caller,
                        session_attributes: s.attributes,
                        hmac: t,
                    })
                },
            }
        },
    }
}

/// A failure of OpenSSL in a digest or an HMAC.
pub open spec fn spec_openssl_failure(e: JobError) -> bool {
    e == JobError::Crypto(TpmCryptoError::OperationFailed) || e == JobError::Crypto(
        TpmCryptoError::OutOfMemory,
    ) || e == JobError::Crypto(TpmCryptoError::InvalidHash)
}

/// `r` is what `s` gives: the authorization, or the error.
pub open spec fn spec_auth_matches(r: Result<TpmsAuthCommand, JobError>, s: Result<AuthCommandView, JobError>) -> bool {
    match s {
        Ok(v) => r matches Ok(a) && a@ == v,
        Err(e) => r matches Err(x) && x == e,
    }
}

fn bytes_equal(a: &[u8], b: &[u8]) -> (r: bool)
    ensures
        r == (a@ == b@),
{
    if a.len() != b.len() {
        return false;
    }
    let mut i: usize = 0;
    while i < a.len()
        invariant
            i <= a@.len(),
            a@.len() == b@.len(),
            a@.take(i as int) == b@.take(i as int),
        decreases a@.len() - i,
    {
        if a[i] != b[i] {
            assert(a@[i as int] != b@[i as int]);
            return false;
        }
        assert(a@.take(i + 1) =~= a@.take(i as int).push(a@[i as int]));
        assert(b@.take(i + 1) =~= b@.take(i as int).push(b@[i as int]));
        i = i + 1;
    }
    assert(a@.take(i as int) =~= a@);
    assert(b@.take(i as int) =~= b@);
    true
}

proof fn lemma_joined_one(x: &[u8])
    ensures
        spec_joined(seq![x]) == x@,
{
    let e = Seq::<Seq<u8>>::empty();
    e.lemma_flatten_push(x@);
    assert(seq![x].map_values(|c: &[u8]| c@) =~= e.push(x@));
}

/// Computes the authorization that a session gives a command whose handles
/// have the names `handle_names`, with the caller's nonce `nonce_caller`.
///
/// The result is `spec_create_auth`, unless OpenSSL fails to compute the
/// digest or the HMAC (a `Crypto` error of `spec_openssl_failure`).
pub fn create_auth(
    session: &AuthSession,
    nonce_caller: &[u8],
    auth_value: &[u8],
    cc: TpmCc,
    handle_names: &Vec<Vec<u8>>,
    parameters: &[u8],
    nonce_decrypt: Option<&[u8]>,
    nonce_encrypt: Option<&[u8]>,
) -> (r: Result<TpmsAuthCommand, JobError>)
    requires
        session.hmac_key@.len() + auth_value@.len() <= 0x7fff_ffff,
    ensures
        (r matches Err(e) && spec_openssl_failure(e)) || spec_auth_matches(
            r,
            spec_create_auth(
                session@,
                nonce_caller@,
                auth_value@,
                cc,
                handle_names@.map_values(|n: Vec<u8>| n@),
                parameters@,
                match nonce_decrypt {
                    Some(x) => Some(x@),
                    None => None,
                },
                match nonce_encrypt {
                    Some(x) => Some(x@),
                    None => None,
                },
            ),
        ),
{
    let ghost names = handle_names@.map_values(|n: Vec<u8>| n@);
    let h = match TpmHash::try_from_alg_id(session.auth_hash) {
        Ok(h) => h,
        Err(e) => {
            return Err(JobError::Crypto(e));
        },
    };
    let mut cp_data: Vec<u8> = Vec::new();
    push_u32(&mut cp_data, cc.value());
    let mut i: usize = 0;
    assert(names.take(0).flatten() =~= Seq::<u8>::empty()) by {
        assert(names.take(0) =~= Seq::<Seq<u8>>::empty());
    }
    while i < handle_names.len()
        invariant
            i <= handle_names@.len(),
            names == handle_names@.map_values(|n: Vec<u8>| n@),
            cp_data@ == spec_be32_bytes(cc.spec_value()) + names.take(i as int).flatten(),
        decreases handle_names@.len() - i,
    {
        push_bytes(&mut cp_data, handle_names[i].as_slice());
        proof {
            assert(names.take(i + 1) =~= names.take(i as int).push(names[i as int]));
            names.take(i as int).lemma_flatten_push(names[i as int]);
        }
        i = i + 1;
    }
    assert(names.take(i as int) =~= names);
    push_bytes(&mut cp_data, parameters);
    let cp_hash = match h.digest_of(cp_data.as_slice()) {
        Ok(d) => d,
        Err(e) => {
            return Err(JobError::Crypto(e));
        },
    };
    let ghost dec_v = match nonce_decrypt {
        Some(x) => Some(x@),
        None => None::<Seq<u8>>,
    };
    let ghost enc_v = match nonce_encrypt {
        Some(x) => Some(x@),
        None => None::<Seq<u8>>,
    };
    let hmac: Vec<u8> = if session.hmac_session {
        let mut key: Vec<u8> = slice_to_vec(session.hmac_key.as_slice());
        push_bytes(&mut key, auth_value);
        if key.len() == 0 {
            return Err(JobError::Crypto(TpmCryptoError::KeyIsEmpty));
        }
        let mut payload: Vec<u8> = slice_to_vec(cp_hash.as_slice());
        push_bytes(&mut payload, nonce_caller);
        push_bytes(&mut payload, session.nonce_tpm.as_slice());
        let ghost before_dec = payload@;
        match nonce_decrypt {
            Some(d) => push_bytes(&mut payload, d),
            None => {},
        }
        let ghost before_enc = payload@;
        match nonce_encrypt {
            Some(e) => {
                let same = match nonce_decrypt {
                    Some(d) => bytes_equal(d, e),
                    None => false,
                };
                if !same {
                    push_bytes(&mut payload, e);
                }
                assert(same == (dec_v == Some(e@)));
            },
            None => {},
        }
        payload.push(session.attributes.0);
        assert(payload@ =~= spec_hmac_payload(cp_hash@, nonce_caller@, session.nonce_tpm@, dec_v, enc_v, session.attributes.0));
        let ps: &[u8] = payload.as_slice();
        let chunks: [&[u8]; 1] = [ps];
        proof {
            lemma_joined_one(ps);
            assert(chunks@ =~= seq![ps]);
        }
        match h.hmac(key.as_slice(), &chunks) {
            Ok(t) => t,
            Err(e) => {
                return Err(JobError::Crypto(e));
            },
        }
    } else {
        Vec::new()
    };
    if hmac.len() > MAX_DIGEST_SIZE {
        return Err(JobError::Protocol(TpmError::TooManyItems { offset: 0, limit: MAX_DIGEST_SIZE, actual: hmac.len() }));
    }
    let r = TpmsAuthCommand {
        session_handle: session.handle,
        nonce: slice_to_vec(nonce_caller),
        session_attributes: session.attributes,
        hmac,
    };
    assert(r@.hmac == hmac@);
    Ok(r)
}

/// The session known under the virtual handle `vhandle`: the first one.
pub open spec fn spec_find_session(sessions: Seq<AuthSession>, vhandle: u32) -> Option<AuthSessionView>
    decreases sessions.len(),
{
    if sessions.len() == 0 {
        None
    } else if sessions[0].vhandle == vhandle {
        Some(sessions[0]@)
    } else {
        spec_find_session(sessions.drop_first(), vhandle)
    }
}

/// The nonces of the sessions that encrypt the command's first parameter and
/// the response's first parameter, scanning the authorizations from the
/// `k`-th on: each known session with the decrypt (encrypt) attribute sets
/// the decrypt (encrypt) nonce to its TPM nonce, until both are set.
pub open spec fn spec_param_nonces(
    auths: Seq<AuthSpec>,
    sessions: Seq<AuthSession>,
    k: int,
    dec: Option<Seq<u8>>,
    enc: Option<Seq<u8>>,
) -> (Option<Seq<u8>>, Option<Seq<u8>>)
    decreases auths.len() - k,
{
    if k < 0 || k >= auths.len() || (dec is Some && enc is Some) {
        (dec, enc)
    } else {
        match auths[k] {
            AuthSpec::Session(vh) => match spec_find_session(sessions, vh) {
                Some(s) => spec_param_nonces(
                    auths,
                    sessions,
                    k + 1,
                    if (s.attributes & TpmaSession::DECRYPT) == TpmaSession::DECRYPT {
                        Some(s.nonce_tpm)
                    } else {
                        dec
                    },
                    if (s.attributes & TpmaSession::ENCRYPT) == TpmaSession::ENCRYPT {
                        Some(s.nonce_tpm)
                    } else {
                        enc
                    },
                ),
                None => spec_param_nonces(auths, sessions, k + 1, dec, enc),
            },
            _ => spec_param_nonces(auths, sessions, k + 1, dec, enc),
        }
    }
}

/// The authorization of the `i`-th handle: a password gives a password
/// session (a password longer than a digest is `TooManyItems`); a session
/// gives the authorization `spec_create_auth` makes with the first bytes of
/// `nonce`, as many as the session's hash has, and, for the first handle
/// only, the parameter encryption nonces; an unknown session is
/// `HandleNotFound`, a policy `InvalidAuth`.
pub open spec fn spec_auth_for(
    auth: AuthSpec,
    i: int,
    cc: TpmCc,
    name: Seq<u8>,
    parameters: Seq<u8>,
    sessions: Seq<AuthSession>,
    nonce: Seq<u8>,
    nonces: (Option<Seq<u8>>, Option<Seq<u8>>),
) -> Result<AuthCommandView, JobError> {
    match auth {
        AuthSpec::Password(v) => if v@.len() > MAX_DIGEST_SIZE {
            Err(JobError::Protocol(TpmError::TooManyItems { offset: 0, limit: MAX_DIGEST_SIZE, actual: v@.len() as usize }))
        } else {
            Ok(AuthCommandView { session_handle: TPM_RS_PW, nonce: Seq::empty(), session_attributes: 0, hmac: v@ })
        },
        AuthSpec::Session(vh) => match spec_find_session(sessions, vh) {
            None => Err(JobError::HandleNotFound(vh)),
            Some(s) => match spec_crypto_hash_size(s.auth_hash) {
                None => Err(JobError::Crypto(TpmCryptoError::InvalidHash)),
                Some(n) => spec_create_auth(
                    s,
                    nonce.take(n as int),
                    Seq::empty(),
                    cc,
                    seq![name],
                    parameters,
                    if i == 0 { nonces.0 } else { None },
                    if i == 0 { nonces.1 } else { None },
                ),
            },
        },
        AuthSpec::Policy => Err(JobError::InvalidAuth),
    }
}

/// The authorizations of the first `k` handles, one for each authorization;
/// an authorization beyond the handles is `TrailingAuthorizations`.
pub open spec fn spec_auth_area(
    cc: TpmCc,
    handles: Seq<u32>,
    names: Seq<Vec<u8>>,
    parameters: Seq<u8>,
    auths: Seq<AuthSpec>,
    sessions: Seq<AuthSession>,
    nonces: Seq<Vec<u8>>,
    k: int,
) -> Result<Seq<AuthCommandView>, JobError>
    decreases k,
{
    if k <= 0 {
        Ok(Seq::empty())
    } else {
        match spec_auth_area(cc, handles, names, parameters, auths, sessions, nonces, k - 1) {
            Err(e) => Err(e),
            Ok(done) => if k - 1 >= handles.len() {
                Err(JobError::TrailingAuthorizations)
            } else {
                match spec_auth_for(
                    auths[k - 1],
                    k - 1,
                    cc,
                    names[k - 1]@,
                    parameters,
                    sessions,
                    nonces[k - 1]@,
                    spec_param_nonces(auths, sessions, 0, None, None),
                ) {
                    Err(e) => Err(e),
                    Ok(a) => Ok(done.push(a)),
                }
            },
        }
    }
}

proof fn lemma_auth_area_fail_stays(
    cc: TpmCc,
    handles: Seq<u32>,
    names: Seq<Vec<u8>>,
    parameters: Seq<u8>,
    auths: Seq<AuthSpec>,
    sessions: Seq<AuthSession>,
    nonces: Seq<Vec<u8>>,
    k: int,
    n: int,
)
    requires
        0 <= k <= n,
        spec_auth_area(cc, handles, names, parameters, auths, sessions, nonces, k) is Err,
    ensures
        spec_auth_area(cc, handles, names, parameters, auths, sessions, nonces, n) == spec_auth_area(
            cc,
            handles,
            names,
            parameters,
            auths,
            sessions,
            nonces,
            k,
        ),
    decreases n - k,
{
    if k < n {
        lemma_auth_area_fail_stays(cc, handles, names, parameters, auths, sessions, nonces, k, n - 1);
    }
}

proof fn lemma_find_session_bound(sessions: Seq<AuthSession>, vhandle: u32)
    requires
        forall|i: int| 0 <= i < sessions.len() ==> (#[trigger] sessions[i]).hmac_key@.len() <= MAX_DIGEST_SIZE,
    ensures
        spec_find_session(sessions, vhandle) matches Some(v) ==> v.hmac_key.len() <= MAX_DIGEST_SIZE,
    decreases sessions.len(),
{
    if sessions.len() > 0 {
        assert(sessions[0].hmac_key@.len() <= MAX_DIGEST_SIZE);
        let rest = sessions.drop_first();
        assert forall|i: int| 0 <= i < rest.len() implies (#[trigger] rest[i]).hmac_key@.len() <= MAX_DIGEST_SIZE by {
            assert(rest[i] == sessions[i + 1]);
        }
        lemma_find_session_bound(rest, vhandle);
    }
}

fn find_session<'a>(sessions: &'a Vec<AuthSession>, vhandle: u32) -> (r: Option<&'a AuthSession>)
    ensures
        match spec_find_session(sessions@, vhandle) {
            Some(v) => r matches Some(s) && s@ == v,
            None => r is None,
        },
{
    let mut i: usize = 0;
    assert(sessions@.skip(0) =~= sessions@);
    while i < sessions.len()
        invariant
            i <= sessions@.len(),
            spec_find_session(sessions@, vhandle) == spec_find_session(sessions@.skip(i as int), vhandle),
        decreases sessions@.len() - i,
    {
        assert(sessions@.skip(i as int).drop_first() =~= sessions@.skip(i + 1));
        assert(sessions@.skip(i as int)[0] == sessions@[i as int]);
        if sessions[i].vhandle == vhandle {
            return Some(&sessions[i]);
        }
        i = i + 1;
    }
    None
}

fn param_nonces(auths: &Vec<AuthSpec>, sessions: &Vec<AuthSession>) -> (r: (Option<Vec<u8>>, Option<Vec<u8>>))
    ensures
        ({
            let s = spec_param_nonces(auths@, sessions@, 0, None, None);
            &&& match s.0 {
                Some(x) => r.0 matches Some(v) && v@ == x,
                None => r.0 is None,
            }
            &&& match s.1 {
                Some(x) => r.1 matches Some(v) && v@ == x,
                None => r.1 is None,
            }
        }),
{
    let mut dec: Option<Vec<u8>> = None;
    let mut enc: Option<Vec<u8>> = None;
    let mut i: usize = 0;
    while i < auths.len()
        invariant
            i <= auths@.len(),
            spec_param_nonces(auths@, sessions@, 0, None, None) == spec_param_nonces(
                auths@,
                sessions@,
                i as int,
                match dec {
                    Some(v) => Some(v@),
                    None => None::<Seq<u8>>,
                },
                match enc {
                    Some(v) => Some(v@),
                    None => None::<Seq<u8>>,
                },
            ),
        decreases auths@.len() - i,
    {
        if dec.is_some() && enc.is_some() {
            return (dec, enc);
        }
        match &auths[i] {
            AuthSpec::Session(vh) => match find_session(sessions, *vh) {
                Some(s) => {
                    if s.attributes.contains(TpmaSession(TpmaSession::DECRYPT)) {
                        dec = Some(slice_to_vec(s.nonce_tpm.as_slice()));
                    }
                    if s.attributes.contains(TpmaSession(TpmaSession::ENCRYPT)) {
                        enc = Some(slice_to_vec(s.nonce_tpm.as_slice()));
                    }
                },
                None => {},
            },
            _ => {},
        }
        i = i + 1;
    }
    (dec, enc)
}

/// Builds the authorization area of a command: one authorization for each
/// authorization of `auths`, the `i`-th for the `i`-th handle, whose name is
/// `handle_names[i]`. The caller's nonce of a session is the first bytes of
/// `nonces[i]`, drawn at random by the caller.
///
/// The result is `spec_auth_area`, unless OpenSSL fails to compute a digest
/// or an HMAC (a `Crypto` error of `spec_openssl_failure`).
pub fn build_auth_area(
    cc: TpmCc,
    handles: &[u32],
    handle_names: &Vec<Vec<u8>>,
    parameters: &[u8],
    auths: &Vec<AuthSpec>,
    sessions: &Vec<AuthSession>,
    nonces: &Vec<Vec<u8>>,
) -> (r: Result<Vec<TpmsAuthCommand>, JobError>)
    requires
        handle_names@.len() == handles@.len(),
        nonces@.len() == auths@.len(),
        forall|i: int| 0 <= i < nonces@.len() ==> (#[trigger] nonces@[i])@.len() >= MAX_DIGEST_SIZE,
        forall|i: int| 0 <= i < sessions@.len() ==> (#[trigger] sessions@[i]).hmac_key@.len() <= MAX_DIGEST_SIZE,
    ensures
        (r matches Err(e) && spec_openssl_failure(e)) || match spec_auth_area(
            cc,
            handles@,
            handle_names@,
            parameters@,
            auths@,
            sessions@,
            nonces@,
            auths@.len() as int,
        ) {
            Ok(v) => r matches Ok(a) && auth_command_views(a@) == v,
            Err(e) => r matches Err(x) && x == e,
        },
{
    let pn = param_nonces(auths, sessions);
    let ghost pnv = spec_param_nonces(auths@, sessions@, 0, None, None);
    let mut built: Vec<TpmsAuthCommand> = Vec::new();
    let empty_value: Vec<u8> = Vec::new();
    let mut i: usize = 0;
    assert(auth_command_views(built@) =~= Seq::<AuthCommandView>::empty());
    while i < auths.len()
        invariant
            i <= auths@.len(),
            handle_names@.len() == handles@.len(),
            nonces@.len() == auths@.len(),
            forall|j: int| 0 <= j < nonces@.len() ==> (#[trigger] nonces@[j])@.len() >= MAX_DIGEST_SIZE,
            forall|j: int| 0 <= j < sessions@.len() ==> (#[trigger] sessions@[j]).hmac_key@.len() <= MAX_DIGEST_SIZE,
            empty_value@.len() == 0,
            pnv == spec_param_nonces(auths@, sessions@, 0, None, None),
            match pnv.0 {
                Some(x) => pn.0 matches Some(v) && v@ == x,
                None => pn.0 is None,
            },
            match pnv.1 {
                Some(x) => pn.1 matches Some(v) && v@ == x,
                None => pn.1 is None,
            },
            spec_auth_area(cc, handles@, handle_names@, parameters@, auths@, sessions@, nonces@, i as int)
                == Ok::<Seq<AuthCommandView>, JobError>(auth_command_views(built@)),
        decreases auths@.len() - i,
    {
        let ghost total = auths@.len() as int;
        if i >= handles.len() {
            proof {
                lemma_auth_area_fail_stays(cc, handles@, handle_names@, parameters@, auths@, sessions@, nonces@, i + 1, total);
            }
            return Err(JobError::TrailingAuthorizations);
        }
        let ghost expected = spec_auth_for(auths@[i as int], i as int, cc, handle_names@[i as int]@, parameters@, sessions@, nonces@[i as int]@, pnv);
        let a: Result<TpmsAuthCommand, JobError> = match &auths[i] {
            AuthSpec::Password(v) => {
                if v.len() > MAX_DIGEST_SIZE {
                    Err(JobError::Protocol(TpmError::TooManyItems { offset: 0, limit: MAX_DIGEST_SIZE, actual: v.len() }))
                } else {
                    let a = TpmsAuthCommand {
                        session_handle: TPM_RS_PW,
                        nonce: Vec::new(),
                        session_attributes: TpmaSession(0),
                        hmac: slice_to_vec(v.as_slice()),
                    };
                    assert(a@.nonce =~= Seq::<u8>::empty());
                    Ok(a)
                }
            },
            AuthSpec::Session(vh) => match find_session(sessions, *vh) {
                None => Err(JobError::HandleNotFound(*vh)),
                Some(s) => match crypto_hash_size(s.auth_hash) {
                    None => Err(JobError::Crypto(TpmCryptoError::InvalidHash)),
                    Some(n) => {
                        let nonce = &nonces[i];
                        let caller = vstd::slice::slice_subrange(nonce.as_slice(), 0, n);
                        let mut one_name: Vec<Vec<u8>> = Vec::new();
                        one_name.push(slice_to_vec(handle_names[i].as_slice()));
                        proof {
                            assert(one_name@.map_values(|x: Vec<u8>| x@) =~= seq![handle_names@[i as int]@]);
                            assert(caller@ =~= nonce@.take(n as int));
                            lemma_find_session_bound(sessions@, *vh);
                            assert(s@.hmac_key.len() <= MAX_DIGEST_SIZE);
                        }
                        let (d, e) = if i == 0 {
                            (
                                match &pn.0 {
                                    Some(x) => Some(x.as_slice()),
                                    None => None,
                                },
                                match &pn.1 {
                                    Some(x) => Some(x.as_slice()),
                                    None => None,
                                },
                            )
                        } else {
                            (None, None)
                        };
                        create_auth(s, caller, empty_value.as_slice(), cc, &one_name, parameters, d, e)
                    },
                },
            },
            AuthSpec::Policy => Err(JobError::InvalidAuth),
        };
        match a {
            Ok(a) => {
                assert(expected == Ok::<AuthCommandView, JobError>(a@));
                let ghost before = built@;
                built.push(a);
                assert(auth_command_views(built@) =~= auth_command_views(before).push(a@));
            },
            Err(e) => {
                proof {
                    if !spec_openssl_failure(e) {
                        assert(expected == Err::<AuthCommandView, JobError>(e));
                        lemma_auth_area_fail_stays(cc, handles@, handle_names@, parameters@, auths@, sessions@, nonces@, i + 1, total);
                    }
                }
                return Err(e);
            },
        }
        i = i + 1;
    }
    Ok(built)
}

/// The virtual handles of the sessions to drop after a command the TPM
/// refused: when its response code's base is `PolicyFail`, every session
/// of the authorizations, in order; otherwise none.
pub open spec fn spec_stale_sessions(rc: TpmRc, auths: Seq<AuthSpec>) -> Seq<u32>
    decreases auths.len(),
{
    if rc.spec_base() != TpmRcBase::PolicyFail || auths.len() == 0 {
        Seq::empty()
    } else {
        let rest = spec_stale_sessions(rc, auths.drop_last());
        match auths.last() {
            AuthSpec::Session(vh) => rest.push(vh),
            _ => rest,
        }
    }
}

/// Returns the virtual handles of the sessions to drop after a command the
/// TPM refused with `rc`: a policy failure makes every session of the
/// authorizations stale.
pub fn stale_sessions(rc: TpmRc, auths: &Vec<AuthSpec>) -> (r: Vec<u32>)
    ensures
        r@ == spec_stale_sessions(rc, auths@),
{
    let mut r: Vec<u32> = Vec::new();
    if rc.base() != TpmRcBase::PolicyFail {
        return r;
    }
    let mut i: usize = 0;
    assert(auths@.take(0) =~= Seq::<AuthSpec>::empty());
    while i < auths.len()
        invariant
            i <= auths@.len(),
            rc.spec_base() == TpmRcBase::PolicyFail,
            r@ == spec_stale_sessions(rc, auths@.take(i as int)),
        decreases auths@.len() - i,
    {
        assert(auths@.take(i + 1).drop_last() =~= auths@.take(i as int));
        match &auths[i] {
            AuthSpec::Session(vh) => r.push(*vh),
            _ => {},
        }
        i = i + 1;
    }
    assert(auths@.take(i as int) =~= auths@);
    r
}

/// The authorization a session gives a command, as TPM 2.0 Part 1 (19.6)
/// defines it: with `cpHash` the session hash's digest of the command code,
/// the handles' names and the parameters, an HMAC session's HMAC is keyed by
/// the session key followed by the authorization value, and authenticates
/// `cpHash`, the caller's nonce, the TPM's nonce, the decrypt session's
/// nonce, the encrypt session's nonce when it is another one, and the
/// session attributes; a policy session carries no HMAC. The authorization
/// names the session's handle and carries the caller's nonce and the session
/// attributes. An empty HMAC key is `KeyIsEmpty`, a session of no hash
/// `InvalidHash`.
pub proof fn lemma_create_auth_is_session_hmac(
    s: AuthSessionView,
    nonce_caller: Seq<u8>,
    auth_value: Seq<u8>,
    cc: TpmCc,
    names: Seq<Seq<u8>>,
    parameters: Seq<u8>,
    dec: Option<Seq<u8>>,
    enc: Option<Seq<u8>>,
)
    ensures
        TpmHash::spec_from_alg_id(s.auth_hash) is None ==> spec_create_auth(
            s,
            nonce_caller,
            auth_value,
            cc,
            names,
            parameters,
            dec,
            enc,
        ) == Err::<AuthCommandView, JobError>(JobError::Crypto(TpmCryptoError::InvalidHash)),
        TpmHash::spec_from_alg_id(s.auth_hash) matches Some(h) ==> {
            let cp = h.spec_digest(spec_be32_bytes(cc.spec_value()) + names.flatten() + parameters);
            let dec_bytes = if dec is Some { dec->0 } else { Seq::<u8>::empty() };
            let enc_bytes = if enc is Some && enc != dec { enc->0 } else { Seq::<u8>::empty() };
            let key = s.hmac_key + auth_value;
            let tag = h.spec_hmac(
                key,
                cp + nonce_caller + s.nonce_tpm + dec_bytes + enc_bytes + seq![s.attributes],
            );
            let r = spec_create_auth(s, nonce_caller, auth_value, cc, names, parameters, dec, enc);
            &&& !s.hmac_session ==> r == Ok::<AuthCommandView, JobError>(
                AuthCommandView {
                    session_handle: s.handle,
                    nonce: nonce_caller,
                    session_attributes: s.attributes,
                    hmac: Seq::empty(),
                },
            )
            &&& s.hmac_session && s.hmac_key.len() + auth_value.len() == 0 ==> r == Err::<
                AuthCommandView,
                JobError,
            >(JobError::Crypto(TpmCryptoError::KeyIsEmpty))
            &&& s.hmac_session && s.hmac_key.len() + auth_value.len() > 0 && tag.len() <= MAX_DIGEST_SIZE
                ==> r == Ok::<AuthCommandView, JobError>(
                AuthCommandView {
                    session_handle: s.handle,
                    nonce: nonce_caller,
                    session_attributes: s.attributes,
                    hmac: tag,
                },
            )
        },
{
    if let Some(h) = TpmHash::spec_from_alg_id(s.auth_hash) {
        let cp = h.spec_digest(spec_be32_bytes(cc.spec_value()) + names.flatten() + parameters);
        let dec_bytes = if dec is Some { dec->0 } else { Seq::<u8>::empty() };
        let enc_bytes = if enc is Some && enc != dec { enc->0 } else { Seq::<u8>::empty() };
        assert(spec_hmac_payload(cp, nonce_caller, s.nonce_tpm, dec, enc, s.attributes)
            == cp + nonce_caller + s.nonce_tpm + dec_bytes + enc_bytes + seq![s.attributes]);
    }
}


} // verus!
