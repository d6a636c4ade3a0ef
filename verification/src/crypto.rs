//! Digests, HMACs and the key derivation functions of the TPM, computed with
//! OpenSSL.

use crate::data::alg::TpmAlgId;
use crate::frame::codec::{push_bytes, push_u32, spec_be32_bytes};
use crate::hash::{TpmCryptoError, TpmHash};
use vstd::prelude::*;
use vstd::string::StringSliceAdditionalSpecFns;

verus! {

/// The digest of `data` under the OpenSSL digest named `md`, as
/// `openssl::hash::hash` returns it.
pub uninterp spec fn openssl_digest(md: Seq<char>, data: Seq<u8>) -> Seq<u8>;

/// The HMAC of `data` keyed by `key` under the OpenSSL digest named `md`, as an
/// OpenSSL `Signer` over an HMAC key returns it.
pub uninterp spec fn openssl_hmac_tag(md: Seq<char>, key: Seq<u8>, data: Seq<u8>) -> Seq<u8>;

/// Looks up the digest named `md` with `openssl::hash::MessageDigest::from_name`
/// and hashes `data` with `openssl::hash::hash`. A digest that comes back is the
/// named digest of `data`; the call may fail, and when it does is not stated,
/// only which errors the failures are mapped to.
#[verifier::external_body]
fn openssl_hash(md: &str, data: &[u8]) -> (r: Result<Vec<u8>, TpmCryptoError>)
    ensures
        r matches Ok(d) ==> d@ == openssl_digest(md@, data@),
        r matches Err(e) ==> e == TpmCryptoError::InvalidHash || e == TpmCryptoError::OperationFailed,
{
    let md = openssl::hash::MessageDigest::from_name(md).ok_or(TpmCryptoError::InvalidHash)?;
    openssl::hash::hash(md, data).map(|d| d.to_vec()).map_err(|_| TpmCryptoError::OperationFailed)
}

/// Computes an HMAC with OpenSSL: the digest named `md` by
/// `MessageDigest::from_name`, the key by `PKey::hmac`, and the tag by a
/// `Signer` fed `data`. `PKey::hmac` panics on a key longer than `i32::MAX`
/// bytes, which `requires` leaves out. A tag that comes back is the named HMAC;
/// the calls may fail, and when they do is not stated, only which errors the
/// failures are mapped to.
#[verifier::external_body]
fn openssl_hmac(md: &str, key: &[u8], data: &[u8]) -> (r: Result<Vec<u8>, TpmCryptoError>)
    requires
        key.len() <= 0x7fff_ffff,
    ensures
        r matches Ok(t) ==> t@ == openssl_hmac_tag(md@, key@, data@),
        r matches Err(e) ==> e == TpmCryptoError::InvalidHash || e == TpmCryptoError::OutOfMemory
            || e == TpmCryptoError::OperationFailed,
{
    let md = openssl::hash::MessageDigest::from_name(md).ok_or(TpmCryptoError::InvalidHash)?;
    let pkey = openssl::pkey::PKey::hmac(key).map_err(|_| TpmCryptoError::OutOfMemory)?;
    let mut signer = openssl::sign::Signer::new(md, &pkey).map_err(
        |_| TpmCryptoError::OutOfMemory,
    )?;
    signer.update(data).map_err(|_| TpmCryptoError::OperationFailed)?;
    signer.sign_to_vec().map_err(|_| TpmCryptoError::OperationFailed)
}

/// The digest size that `openssl::hash::MessageDigest::size` reports for the
/// digest of `alg`: the standard size of each fixed-size digest. What it reports
/// for the extendable-output SHAKE digests depends on the OpenSSL version and is
/// not stated.
#[verifier::external_body]
fn openssl_digest_size(alg: TpmHash) -> (r: usize)
    ensures
        alg.spec_fixed_size() matches Some(n) ==> r == n,
{
    let md = match alg {
        TpmHash::Sha1 => openssl::hash::MessageDigest::sha1(),
        TpmHash::Sha256 => openssl::hash::MessageDigest::sha256(),
        TpmHash::Sha384 => openssl::hash::MessageDigest::sha384(),
        TpmHash::Sha512 => openssl::hash::MessageDigest::sha512(),
        TpmHash::Sm3_256 => openssl::hash::MessageDigest::sm3(),
        TpmHash::Sha3_256 => openssl::hash::MessageDigest::sha3_256(),
        TpmHash::Sha3_384 => openssl::hash::MessageDigest::sha3_384(),
        TpmHash::Sha3_512 => openssl::hash::MessageDigest::sha3_512(),
        TpmHash::Shake128 => openssl::hash::MessageDigest::shake_128(),
        TpmHash::Shake256 => openssl::hash::MessageDigest::shake_256(),
    };
    md.size()
}

/// Compares two byte strings with `openssl::memcmp::eq`, in time that does not
/// depend on their contents. The function panics on strings of different
/// lengths, which `requires` leaves out; the result is whether the bytes are
/// the same.
#[verifier::external_body]
fn constant_time_eq(a: &[u8], b: &[u8]) -> (r: bool)
    requires
        a.len() == b.len(),
    ensures
        r == (a@ == b@),
{
    openssl::memcmp::eq(a, b)
}

/// The views of a list of byte strings.
pub open spec fn chunks_view(chunks: Seq<&[u8]>) -> Seq<Seq<u8>> {
    chunks.map_values(|c: &[u8]| c@)
}

/// The byte strings of `chunks` joined in order.
pub open spec fn spec_joined(chunks: Seq<&[u8]>) -> Seq<u8> {
    chunks_view(chunks).flatten()
}

/// Joins the byte strings of `chunks` in order.
pub fn join_chunks(chunks: &[&[u8]]) -> (r: Vec<u8>)
    ensures
        r@ == spec_joined(chunks@),
{
    let mut out: Vec<u8> = Vec::new();
    let mut i: usize = 0;
    while i < chunks.len()
        invariant
            i <= chunks@.len(),
            out@ == chunks_view(chunks@.take(i as int)).flatten(),
        decreases chunks@.len() - i,
    {
        let ghost before = chunks_view(chunks@.take(i as int));
        push_bytes(&mut out, chunks[i]);
        proof {
            assert(chunks_view(chunks@.take(i + 1)) =~= before.push(chunks@[i as int]@));
            before.lemma_flatten_push(chunks@[i as int]@);
        }
        i = i + 1;
    }
    assert(chunks@.take(chunks@.len() as int) =~= chunks@);
    out
}

/// Appends the first `n` bytes of `data`.
fn push_prefix(buf: &mut Vec<u8>, data: &Vec<u8>, n: usize)
    requires
        n <= data@.len(),
    ensures
        final(buf)@ == old(buf)@ + data@.take(n as int),
{
    let mut i: usize = 0;
    while i < n
        invariant
            i <= n <= data@.len(),
            buf@ == old(buf)@ + data@.take(i as int),
        decreases n - i,
    {
        buf.push(data[i]);
        i = i + 1;
        assert(data@.take(i as int) =~= data@.take(i - 1).push(data@[i - 1]));
    }
}

/// The number of bytes that hold `bits` bits.
pub open spec fn spec_key_bytes(bits: u16) -> nat {
    ((bits as nat) + 7) / 8
}

/// What a label contributes to a `KDFe` block: its bytes, ended by a zero byte
/// unless it already ends with one.
pub open spec fn spec_kdfe_label(label: Seq<u8>) -> Seq<u8> {
    if label.len() > 0 && label.last() == 0 {
        label
    } else {
        label.push(0)
    }
}

impl TpmHash {
    /// The name under which OpenSSL knows the digest.
    pub open spec fn spec_openssl_name(self) -> Seq<char> {
        match self {
            TpmHash::Sha1 => "SHA1"@,
            TpmHash::Sha256 => "SHA256"@,
            TpmHash::Sha384 => "SHA384"@,
            TpmHash::Sha512 => "SHA512"@,
            TpmHash::Sm3_256 => "SM3"@,
            TpmHash::Sha3_256 => "SHA3-256"@,
            TpmHash::Sha3_384 => "SHA3-384"@,
            TpmHash::Sha3_512 => "SHA3-512"@,
            TpmHash::Shake128 => "SHAKE128"@,
            TpmHash::Shake256 => "SHAKE256"@,
        }
    }

    /// Returns the name under which OpenSSL knows the digest.
    pub fn openssl_name(self) -> (r: &'static str)
        ensures
            r@ == self.spec_openssl_name(),
    {
        match self {
            TpmHash::Sha1 => "SHA1",
            TpmHash::Sha256 => "SHA256",
            TpmHash::Sha384 => "SHA384",
            TpmHash::Sha512 => "SHA512",
            TpmHash::Sm3_256 => "SM3",
            TpmHash::Sha3_256 => "SHA3-256",
            TpmHash::Sha3_384 => "SHA3-384",
            TpmHash::Sha3_512 => "SHA3-512",
            TpmHash::Shake128 => "SHAKE128",
            TpmHash::Shake256 => "SHAKE256",
        }
    }

    /// The size in bytes of a digest of fixed size; `None` for the
    /// extendable-output SHAKE digests.
    pub open spec fn spec_fixed_size(self) -> Option<nat> {
        match self {
            TpmHash::Sha1 => Some(20),
            TpmHash::Sha256 => Some(32),
            TpmHash::Sha384 => Some(48),
            TpmHash::Sha512 => Some(64),
            TpmHash::Sm3_256 => Some(32),
            TpmHash::Sha3_256 => Some(32),
            TpmHash::Sha3_384 => Some(48),
            TpmHash::Sha3_512 => Some(64),
            TpmHash::Shake128 => None,
            TpmHash::Shake256 => None,
        }
    }

    /// The digest of `data`.
    pub open spec fn spec_digest(self, data: Seq<u8>) -> Seq<u8> {
        openssl_digest(self.spec_openssl_name(), data)
    }

    /// The HMAC of `data` keyed by `key`.
    pub open spec fn spec_hmac(self, key: Seq<u8>, data: Seq<u8>) -> Seq<u8> {
        openssl_hmac_tag(self.spec_openssl_name(), key, data)
    }

    /// Returns the size of the digest.
    pub fn size(&self) -> (r: usize)
        ensures
            self.spec_fixed_size() matches Some(n) ==> r == n,
    {
        openssl_digest_size(*self)
    }

    /// Computes a digest over a series of data chunks, which are hashed as
    /// one string.
    ///
    /// A digest that comes back is the digest of the joined chunks; OpenSSL
    /// decides whether one comes back.
    pub fn digest(&self, data_chunks: &[&[u8]]) -> (r: Result<Vec<u8>, TpmCryptoError>)
        ensures
            r matches Ok(d) ==> d@ == self.spec_digest(spec_joined(data_chunks@)),
            r matches Err(e) ==> e == TpmCryptoError::InvalidHash || e == TpmCryptoError::OperationFailed,
    {
        let data = join_chunks(data_chunks);
        self.digest_of(data.as_slice())
    }

    /// Computes the digest of one byte string.
    pub fn digest_of(&self, data: &[u8]) -> (r: Result<Vec<u8>, TpmCryptoError>)
        ensures
            r matches Ok(d) ==> d@ == self.spec_digest(data@),
            r matches Err(e) ==> e == TpmCryptoError::InvalidHash || e == TpmCryptoError::OperationFailed,
    {
        openssl_hash(self.openssl_name(), data)
    }

    /// Computes an HMAC over a series of data chunks, which are authenticated
    /// as one string.
    ///
    /// An empty key is refused with `KeyIsEmpty`. A tag that comes back is the
    /// HMAC of the joined chunks; OpenSSL decides whether one comes back.
    pub fn hmac(&self, key: &[u8], data_chunks: &[&[u8]]) -> (r: Result<Vec<u8>, TpmCryptoError>)
        requires
            key.len() <= 0x7fff_ffff,
        ensures
            key.len() == 0 <==> r == Err::<Vec<u8>, TpmCryptoError>(TpmCryptoError::KeyIsEmpty),
            r matches Ok(t) ==> t@ == self.spec_hmac(key@, spec_joined(data_chunks@)),
            r matches Err(e) ==> e == TpmCryptoError::KeyIsEmpty || e == TpmCryptoError::InvalidHash
                || e == TpmCryptoError::OutOfMemory || e == TpmCryptoError::OperationFailed,
    {
        if key.len() == 0 {
            return Err(TpmCryptoError::KeyIsEmpty);
        }
        let data = join_chunks(data_chunks);
        openssl_hmac(self.openssl_name(), key, data.as_slice())
    }

    /// Verifies an HMAC over a series of data chunks.
    ///
    /// An empty key is refused with `KeyIsEmpty`. Once OpenSSL has computed
    /// the tag, the result is `Ok` if `signature` is that tag and
    /// `PermissionDenied` if it is not, a signature of another length
    /// included.
    pub fn hmac_verify(&self, key: &[u8], data_chunks: &[&[u8]], signature: &[u8]) -> (r: Result<
        (),
        TpmCryptoError,
    >)
        requires
            key.len() <= 0x7fff_ffff,
        ensures
            key.len() == 0 <==> r == Err::<(), TpmCryptoError>(TpmCryptoError::KeyIsEmpty),
            r is Ok ==> signature@ == self.spec_hmac(key@, spec_joined(data_chunks@)),
            r == Err::<(), TpmCryptoError>(TpmCryptoError::PermissionDenied) ==> signature@
                != self.spec_hmac(key@, spec_joined(data_chunks@)),
    {
        let expected = match self.hmac(key, data_chunks) {
            Ok(t) => t,
            Err(e) => {
                return Err(e);
            },
        };
        if expected.len() != signature.len() {
            return Err(TpmCryptoError::PermissionDenied);
        }
        if constant_time_eq(expected.as_slice(), signature) {
            Ok(())
        } else {
            Err(TpmCryptoError::PermissionDenied)
        }
    }
}

impl TpmHash {
    /// The block of `KDFa` numbered `counter`: the HMAC of the counter, the
    /// label, a zero byte, both contexts and the number of bits requested.
    pub open spec fn spec_kdfa_block(
        self,
        key: Seq<u8>,
        label: Seq<u8>,
        context_a: Seq<u8>,
        context_b: Seq<u8>,
        bits: u16,
        counter: nat,
    ) -> Seq<u8> {
        self.spec_hmac(
            key,
            spec_be32_bytes(counter as u32) + label + seq![0u8] + context_a + context_b
                + spec_be32_bytes(bits as u32),
        )
    }

    /// The first `need` bytes of the `KDFa` blocks from `counter` on, joined;
    /// an empty block ends them.
    pub open spec fn spec_kdfa_from(
        self,
        key: Seq<u8>,
        label: Seq<u8>,
        context_a: Seq<u8>,
        context_b: Seq<u8>,
        bits: u16,
        counter: nat,
        need: nat,
    ) -> Seq<u8>
        decreases need,
    {
        if need == 0 {
            Seq::empty()
        } else {
            let b = self.spec_kdfa_block(key, label, context_a, context_b, bits, counter);
            if b.len() == 0 {
                Seq::empty()
            } else if b.len() >= need {
                b.take(need as int)
            } else {
                b + self.spec_kdfa_from(
                    key,
                    label,
                    context_a,
                    context_b,
                    bits,
                    counter + 1,
                    (need - b.len()) as nat,
                )
            }
        }
    }

    /// The key stream of `KDFa`: as many bytes as hold `bits` bits.
    pub open spec fn spec_kdfa(
        self,
        key: Seq<u8>,
        label: Seq<u8>,
        context_a: Seq<u8>,
        context_b: Seq<u8>,
        bits: u16,
    ) -> Seq<u8> {
        self.spec_kdfa_from(key, label, context_a, context_b, bits, 1, spec_key_bytes(bits))
    }

    /// The block of `KDFe` numbered `counter`: the digest of the counter, the
    /// shared secret, the zero-ended label and both contexts.
    pub open spec fn spec_kdfe_block(
        self,
        z: Seq<u8>,
        label: Seq<u8>,
        context_u: Seq<u8>,
        context_v: Seq<u8>,
        counter: nat,
    ) -> Seq<u8> {
        self.spec_digest(
            spec_be32_bytes(counter as u32) + z + spec_kdfe_label(label) + context_u + context_v,
        )
    }

    /// The first `need` bytes of the `KDFe` blocks from `counter` on, joined;
    /// an empty block ends them.
    pub open spec fn spec_kdfe_from(
        self,
        z: Seq<u8>,
        label: Seq<u8>,
        context_u: Seq<u8>,
        context_v: Seq<u8>,
        counter: nat,
        need: nat,
    ) -> Seq<u8>
        decreases need,
    {
        if need == 0 {
            Seq::empty()
        } else {
            let b = self.spec_kdfe_block(z, label, context_u, context_v, counter);
            if b.len() == 0 {
                Seq::empty()
            } else if b.len() >= need {
                b.take(need as int)
            } else {
                b + self.spec_kdfe_from(
                    z,
                    label,
                    context_u,
                    context_v,
                    counter + 1,
                    (need - b.len()) as nat,
                )
            }
        }
    }

    /// The key stream of `KDFe`: as many bytes as hold `bits` bits.
    pub open spec fn spec_kdfe(
        self,
        z: Seq<u8>,
        label: Seq<u8>,
        context_u: Seq<u8>,
        context_v: Seq<u8>,
        bits: u16,
    ) -> Seq<u8> {
        self.spec_kdfe_from(z, label, context_u, context_v, 1, spec_key_bytes(bits))
    }

    /// Implements the `KDFa` key derivation function from the TPM
    /// specification.
    ///
    /// An empty key is refused with `KeyIsEmpty`. A key stream that comes back
    /// holds `bits` bits, rounded up to whole bytes, and is the one the
    /// specification defines; OpenSSL decides whether each HMAC comes back,
    /// and an empty HMAC is reported as `OperationFailed`.
    pub fn kdfa(
        &self,
        hmac_key: &[u8],
        label: &str,
        context_a: &[u8],
        context_b: &[u8],
        key_bits: u16,
    ) -> (r: Result<Vec<u8>, TpmCryptoError>)
        requires
            hmac_key.len() <= 0x7fff_ffff,
        ensures
            hmac_key.len() == 0 <==> r == Err::<Vec<u8>, TpmCryptoError>(
                TpmCryptoError::KeyIsEmpty,
            ),
            r matches Ok(k) ==> k@.len() == spec_key_bytes(key_bits) && k@ == self.spec_kdfa(
                hmac_key@,
                label.spec_bytes(),
                context_a@,
                context_b@,
                key_bits,
            ),
            r matches Err(e) ==> e == TpmCryptoError::KeyIsEmpty || e == TpmCryptoError::InvalidHash
                || e == TpmCryptoError::OutOfMemory || e == TpmCryptoError::OperationFailed,
    {
        if hmac_key.len() == 0 {
            return Err(TpmCryptoError::KeyIsEmpty);
        }
        let key_bytes: usize = ((key_bits as usize) + 7) / 8;
        let label_bytes = label.as_bytes();
        let name = self.openssl_name();
        let ghost key = hmac_key@;
        let ghost lab = label.spec_bytes();
        let mut key_stream: Vec<u8> = Vec::new();
        let mut counter: u32 = 1;
        while key_stream.len() < key_bytes
            invariant
                key_bytes == spec_key_bytes(key_bits),
                key_bytes <= 8192,
                key_stream@.len() <= key_bytes,
                1 <= counter <= key_stream@.len() + 1,
                hmac_key@ == key,
                0 < key.len() <= 0x7fff_ffff,
                label_bytes@ == lab,
                name@ == self.spec_openssl_name(),
                key_stream@ + self.spec_kdfa_from(
                    key,
                    lab,
                    context_a@,
                    context_b@,
                    key_bits,
                    counter as nat,
                    (key_bytes - key_stream@.len()) as nat,
                ) == self.spec_kdfa(key, lab, context_a@, context_b@, key_bits),
            decreases key_bytes - key_stream@.len(),
        {
            let mut payload: Vec<u8> = Vec::new();
            push_u32(&mut payload, counter);
            push_bytes(&mut payload, label_bytes);
            payload.push(0u8);
            push_bytes(&mut payload, context_a);
            push_bytes(&mut payload, context_b);
            push_u32(&mut payload, key_bits as u32);
            let block = match openssl_hmac(name, hmac_key, payload.as_slice()) {
                Ok(b) => b,
                Err(e) => {
                    return Err(e);
                },
            };
            if block.len() == 0 {
                return Err(TpmCryptoError::OperationFailed);
            }
            let ghost need = (key_bytes - key_stream@.len()) as nat;
            proof {
                assert(payload@ =~= spec_be32_bytes(counter) + lab + seq![0u8] + context_a@
                    + context_b@ + spec_be32_bytes(key_bits as u32));
                assert(block@ == self.spec_kdfa_block(
                    key,
                    lab,
                    context_a@,
                    context_b@,
                    key_bits,
                    counter as nat,
                ));
            }
            let remaining = key_bytes - key_stream.len();
            let to_take = if remaining < block.len() {
                remaining
            } else {
                block.len()
            };
            let ghost before = key_stream@;
            push_prefix(&mut key_stream, &block, to_take);
            proof {
                if block@.len() >= need {
                    assert(block@.take(need as int) =~= block@.take(to_take as int));
                    assert(self.spec_kdfa_from(
                        key,
                        lab,
                        context_a@,
                        context_b@,
                        key_bits,
                        counter as nat + 1,
                        0,
                    ) =~= Seq::<u8>::empty());
                    assert(key_stream@ + Seq::<u8>::empty() =~= key_stream@);
                } else {
                    assert(block@.take(to_take as int) =~= block@);
                    assert(before + (block@ + self.spec_kdfa_from(
                        key,
                        lab,
                        context_a@,
                        context_b@,
                        key_bits,
                        counter as nat + 1,
                        (need - block@.len()) as nat,
                    )) =~= key_stream@ + self.spec_kdfa_from(
                        key,
                        lab,
                        context_a@,
                        context_b@,
                        key_bits,
                        counter as nat + 1,
                        (need - block@.len()) as nat,
                    ));
                }
            }
            counter = counter + 1;
        }
        Ok(key_stream)
    }

    /// Implements the `KDFe` key derivation function from SP 800-56A for
    /// ECDH.
    ///
    /// A key stream that comes back holds `bits` bits, rounded up to whole
    /// bytes, and is the one the specification defines; OpenSSL decides
    /// whether each digest comes back, and an empty digest is reported as
    /// `OperationFailed`.
    pub fn kdfe(
        &self,
        z: &[u8],
        label: &str,
        context_u: &[u8],
        context_v: &[u8],
        key_bits: u16,
    ) -> (r: Result<Vec<u8>, TpmCryptoError>)
        ensures
            r matches Ok(k) ==> k@.len() == spec_key_bytes(key_bits) && k@ == self.spec_kdfe(
                z@,
                label.spec_bytes(),
                context_u@,
                context_v@,
                key_bits,
            ),
            r matches Err(e) ==> e == TpmCryptoError::InvalidHash || e
                == TpmCryptoError::OperationFailed,
    {
        let key_bytes: usize = ((key_bits as usize) + 7) / 8;
        let label_bytes = label.as_bytes();
        let terminated = label_bytes.len() > 0 && label_bytes[label_bytes.len() - 1] == 0;
        let name = self.openssl_name();
        let ghost lab = label.spec_bytes();
        let mut key_stream: Vec<u8> = Vec::new();
        let mut counter: u32 = 1;
        while key_stream.len() < key_bytes
            invariant
                key_bytes == spec_key_bytes(key_bits),
                key_bytes <= 8192,
                key_stream@.len() <= key_bytes,
                1 <= counter <= key_stream@.len() + 1,
                label_bytes@ == lab,
                terminated == (lab.len() > 0 && lab.last() == 0),
                name@ == self.spec_openssl_name(),
                key_stream@ + self.spec_kdfe_from(
                    z@,
                    lab,
                    context_u@,
                    context_v@,
                    counter as nat,
                    (key_bytes - key_stream@.len()) as nat,
                ) == self.spec_kdfe(z@, lab, context_u@, context_v@, key_bits),
            decreases key_bytes - key_stream@.len(),
        {
            let mut payload: Vec<u8> = Vec::new();
            push_u32(&mut payload, counter);
            push_bytes(&mut payload, z);
            push_bytes(&mut payload, label_bytes);
            if !terminated {
                payload.push(0u8);
            }
            push_bytes(&mut payload, context_u);
            push_bytes(&mut payload, context_v);
            let block = match self.digest_of(payload.as_slice()) {
                Ok(b) => b,
                Err(e) => {
                    return Err(e);
                },
            };
            if block.len() == 0 {
                return Err(TpmCryptoError::OperationFailed);
            }
            let ghost need = (key_bytes - key_stream@.len()) as nat;
            proof {
                assert(payload@ =~= spec_be32_bytes(counter) + z@ + spec_kdfe_label(lab)
                    + context_u@ + context_v@);
                assert(block@ == self.spec_kdfe_block(
                    z@,
                    lab,
                    context_u@,
                    context_v@,
                    counter as nat,
                ));
            }
            let remaining = key_bytes - key_stream.len();
            let to_take = if remaining < block.len() {
                remaining
            } else {
                block.len()
            };
            let ghost before = key_stream@;
            push_prefix(&mut key_stream, &block, to_take);
            proof {
                if block@.len() >= need {
                    assert(block@.take(need as int) =~= block@.take(to_take as int));
                    assert(self.spec_kdfe_from(
                        z@,
                        lab,
                        context_u@,
                        context_v@,
                        counter as nat + 1,
                        0,
                    ) =~= Seq::<u8>::empty());
                    assert(key_stream@ + Seq::<u8>::empty() =~= key_stream@);
                } else {
                    assert(block@.take(to_take as int) =~= block@);
                    assert(before + (block@ + self.spec_kdfe_from(
                        z@,
                        lab,
                        context_u@,
                        context_v@,
                        counter as nat + 1,
                        (need - block@.len()) as nat,
                    )) =~= key_stream@ + self.spec_kdfe_from(
                        z@,
                        lab,
                        context_u@,
                        context_v@,
                        counter as nat + 1,
                        (need - block@.len()) as nat,
                    ));
                }
            }
            counter = counter + 1;
        }
        Ok(key_stream)
    }
}

/// The digest size of a hash algorithm identifier: that of each hash of fixed
/// size, and none for other algorithms.
pub open spec fn spec_crypto_hash_size(alg: TpmAlgId) -> Option<nat> {
    match TpmHash::spec_from_alg_id(alg) {
        Some(h) => h.spec_fixed_size(),
        None => None,
    }
}

/// Returns the digest size of a hash algorithm identifier, or `None` for an
/// algorithm that is no hash of fixed size.
pub fn crypto_hash_size(alg: TpmAlgId) -> (r: Option<usize>)
    ensures
        match spec_crypto_hash_size(alg) {
            Some(m) => r == Some(m as usize),
            None => r is None,
        },
{
    match alg {
        TpmAlgId::Sha1 => Some(20),
        TpmAlgId::Sha256 => Some(32),
        TpmAlgId::Sha384 => Some(48),
        TpmAlgId::Sha512 => Some(64),
        TpmAlgId::Sm3_256 => Some(32),
        TpmAlgId::Sha3_256 => Some(32),
        TpmAlgId::Sha3_384 => Some(48),
        TpmAlgId::Sha3_512 => Some(64),
        _ => None,
    }
}

/// Computes the digest of the joined chunks with the hash that an algorithm
/// identifier names; an identifier that names no hash is `InvalidHash`.
pub fn crypto_digest(alg: TpmAlgId, data_chunks: &[&[u8]]) -> (r: Result<Vec<u8>, TpmCryptoError>)
    ensures
        TpmHash::spec_from_alg_id(alg) is None ==> r == Err::<Vec<u8>, TpmCryptoError>(
            TpmCryptoError::InvalidHash,
        ),
        r matches Ok(d) ==> TpmHash::spec_from_alg_id(alg) matches Some(h) && d@ == h.spec_digest(
            spec_joined(data_chunks@),
        ),
        r matches Err(e) ==> e == TpmCryptoError::InvalidHash || e == TpmCryptoError::OperationFailed,
{
    let h = match TpmHash::try_from_alg_id(alg) {
        Ok(h) => h,
        Err(e) => {
            return Err(e);
        },
    };
    h.digest(data_chunks)
}

/// The `KDFe` blocks taken for fewer bytes are a prefix of those taken for
/// more bytes.
proof fn lemma_kdfe_from_prefix(
    alg: TpmHash,
    z: Seq<u8>,
    label: Seq<u8>,
    context_u: Seq<u8>,
    context_v: Seq<u8>,
    counter: nat,
    n1: nat,
    n2: nat,
)
    requires
        n1 <= n2,
    ensures
        alg.spec_kdfe_from(z, label, context_u, context_v, counter, n1).is_prefix_of(
            alg.spec_kdfe_from(z, label, context_u, context_v, counter, n2),
        ),
    decreases n1,
{
    let short = alg.spec_kdfe_from(z, label, context_u, context_v, counter, n1);
    let long = alg.spec_kdfe_from(z, label, context_u, context_v, counter, n2);
    if n1 == 0 {
        assert(short =~= long.subrange(0, 0));
    } else {
        let b = alg.spec_kdfe_block(z, label, context_u, context_v, counter);
        if b.len() == 0 {
            assert(short =~= long.subrange(0, 0));
        } else if b.len() >= n1 {
            if b.len() >= n2 {
                assert(short =~= long.subrange(0, n1 as int));
            } else {
                assert(short =~= long.subrange(0, n1 as int));
            }
        } else {
            let rest_short = alg.spec_kdfe_from(
                z,
                label,
                context_u,
                context_v,
                counter + 1,
                (n1 - b.len()) as nat,
            );
            let rest_long = alg.spec_kdfe_from(
                z,
                label,
                context_u,
                context_v,
                counter + 1,
                (n2 - b.len()) as nat,
            );
            lemma_kdfe_from_prefix(
                alg,
                z,
                label,
                context_u,
                context_v,
                counter + 1,
                (n1 - b.len()) as nat,
                (n2 - b.len()) as nat,
            );
            assert(short =~= b + rest_short);
            assert(long =~= b + rest_long);
            assert(short =~= long.subrange(0, short.len() as int));
        }
    }
}

/// `KDFe` puts no length into its blocks, so the key stream derived for fewer
/// bits is a prefix of the one derived for more bits from the same inputs.
pub proof fn lemma_kdfe_prefix(
    alg: TpmHash,
    z: Seq<u8>,
    label: Seq<u8>,
    context_u: Seq<u8>,
    context_v: Seq<u8>,
    bits1: u16,
    bits2: u16,
)
    requires
        bits1 <= bits2,
    ensures
        alg.spec_kdfe(z, label, context_u, context_v, bits1).is_prefix_of(
            alg.spec_kdfe(z, label, context_u, context_v, bits2),
        ),
{
    lemma_kdfe_from_prefix(
        alg,
        z,
        label,
        context_u,
        context_v,
        1,
        spec_key_bytes(bits1),
        spec_key_bytes(bits2),
    );
}

proof fn lemma_kdfa_from_bytes(
    h: TpmHash,
    key: Seq<u8>,
    label: Seq<u8>,
    context_u: Seq<u8>,
    context_v: Seq<u8>,
    bits: u16,
    counter: nat,
    need: nat,
    hl: nat,
)
    requires
        hl > 0,
        forall|data: Seq<u8>| #[trigger] h.spec_hmac(key, data).len() == hl,
    ensures
        h.spec_kdfa_from(key, label, context_u, context_v, bits, counter, need).len() == need,
        forall|j: int|
            0 <= j < need ==> #[trigger] h.spec_kdfa_from(key, label, context_u, context_v, bits, counter, need)[j]
                == h.spec_kdfa_block(key, label, context_u, context_v, bits, counter + (j / hl as int) as nat)[j % hl as int],
    decreases need,
{
    if need > 0 {
        let b = h.spec_kdfa_block(key, label, context_u, context_v, bits, counter);
        assert(b.len() == hl);
        let r = h.spec_kdfa_from(key, label, context_u, context_v, bits, counter, need);
        if hl >= need {
            assert forall|j: int| 0 <= j < need implies #[trigger] r[j] == h.spec_kdfa_block(
                key,
                label,
                context_u,
                context_v,
                bits,
                counter + (j / hl as int) as nat,
            )[j % hl as int] by {
                assert(j / hl as int == 0 && j % hl as int == j) by (nonlinear_arith)
                    requires
                        0 <= j < hl,
                ;
            }
        } else {
            let rest_need = (need - hl) as nat;
            lemma_kdfa_from_bytes(h, key, label, context_u, context_v, bits, counter + 1, rest_need, hl);
            let rest = h.spec_kdfa_from(key, label, context_u, context_v, bits, counter + 1, rest_need);
            assert(r == b + rest);
            assert forall|j: int| 0 <= j < need implies #[trigger] r[j] == h.spec_kdfa_block(
                key,
                label,
                context_u,
                context_v,
                bits,
                counter + (j / hl as int) as nat,
            )[j % hl as int] by {
                if j < hl {
                    assert(j / hl as int == 0 && j % hl as int == j) by (nonlinear_arith)
                        requires
                            0 <= j < hl,
                    ;
                } else {
                    let k = j - hl;
                    assert(rest[k] == h.spec_kdfa_block(
                        key,
                        label,
                        context_u,
                        context_v,
                        bits,
                        counter + 1 + (k / hl as int) as nat,
                    )[k % hl as int]);
                    assert(k / hl as int + 1 == j / hl as int && k % hl as int == j % hl as int) by (nonlinear_arith)
                        requires
                            hl > 0,
                            j >= hl,
                            k == j - hl,
                    ;
                }
            }
        }
    }
}

/// `KDFa` as TPM 2.0 Part 1 (11.4.10.2) defines it: block `i`, counting from
/// 1, is the HMAC under `key` of the big-endian counter `i`, the label, a
/// zero byte, `contextU`, `contextV` and the big-endian number of bits; the
/// key stream is as many bytes as hold `bits` bits, taken from the blocks one
/// after another. Stated for a hash whose HMACs are `hl` bytes long (every
/// hash has a fixed length): byte `j` of the key stream is byte `j % hl` of
/// block `j / hl + 1`.
pub proof fn lemma_kdfa_is_counter_mode_hmac(
    h: TpmHash,
    key: Seq<u8>,
    label: Seq<u8>,
    context_u: Seq<u8>,
    context_v: Seq<u8>,
    bits: u16,
    hl: nat,
)
    ensures
        hl > 0 && (forall|data: Seq<u8>| #[trigger] h.spec_hmac(key, data).len() == hl) ==> {
            &&& h.spec_kdfa(key, label, context_u, context_v, bits).len() == ((bits as nat) + 7) / 8
            &&& forall|j: int|
                0 <= j < ((bits as nat) + 7) / 8 ==> #[trigger] h.spec_kdfa(key, label, context_u, context_v, bits)[j]
                    == h.spec_hmac(
                    key,
                    spec_be32_bytes((j / hl as int + 1) as u32) + label + seq![0u8] + context_u + context_v
                        + spec_be32_bytes(bits as u32),
                )[j % hl as int]
        },
{
    if hl > 0 && (forall|data: Seq<u8>| #[trigger] h.spec_hmac(key, data).len() == hl) {
        let need = ((bits as nat) + 7) / 8;
        lemma_kdfa_from_bytes(h, key, label, context_u, context_v, bits, 1, need, hl);
        assert forall|j: int| 0 <= j < need implies #[trigger] h.spec_kdfa(key, label, context_u, context_v, bits)[j]
            == h.spec_hmac(
            key,
            spec_be32_bytes((j / hl as int + 1) as u32) + label + seq![0u8] + context_u + context_v
                + spec_be32_bytes(bits as u32),
        )[j % hl as int] by {
            let c: nat = 1 + (j / hl as int) as nat;
            assert(c as u32 == (j / hl as int + 1) as u32);
        }
    }
}


proof fn lemma_kdfe_from_bytes(
    h: TpmHash,
    z: Seq<u8>,
    label: Seq<u8>,
    context_u: Seq<u8>,
    context_v: Seq<u8>,
    counter: nat,
    need: nat,
    hl: nat,
)
    requires
        hl > 0,
        forall|data: Seq<u8>| #[trigger] h.spec_digest(data).len() == hl,
    ensures
        h.spec_kdfe_from(z, label, context_u, context_v, counter, need).len() == need,
        forall|j: int|
            0 <= j < need ==> #[trigger] h.spec_kdfe_from(z, label, context_u, context_v, counter, need)[j]
                == h.spec_kdfe_block(z, label, context_u, context_v, counter + (j / hl as int) as nat)[j % hl as int],
    decreases need,
{
    if need > 0 {
        let b = h.spec_kdfe_block(z, label, context_u, context_v, counter);
        assert(b.len() == hl);
        let r = h.spec_kdfe_from(z, label, context_u, context_v, counter, need);
        if hl >= need {
            assert forall|j: int| 0 <= j < need implies #[trigger] r[j] == h.spec_kdfe_block(
                z,
                label,
                context_u,
                context_v,
                counter + (j / hl as int) as nat,
            )[j % hl as int] by {
                assert(j / hl as int == 0 && j % hl as int == j) by (nonlinear_arith)
                    requires
                        0 <= j < hl,
                ;
            }
        } else {
            let rest_need = (need - hl) as nat;
            lemma_kdfe_from_bytes(h, z, label, context_u, context_v, counter + 1, rest_need, hl);
            let rest = h.spec_kdfe_from(z, label, context_u, context_v, counter + 1, rest_need);
            assert(r == b + rest);
            assert forall|j: int| 0 <= j < need implies #[trigger] r[j] == h.spec_kdfe_block(
                z,
                label,
                context_u,
                context_v,
                counter + (j / hl as int) as nat,
            )[j % hl as int] by {
                if j < hl {
                    assert(j / hl as int == 0 && j % hl as int == j) by (nonlinear_arith)
                        requires
                            0 <= j < hl,
                    ;
                } else {
                    let k = j - hl;
                    assert(rest[k] == h.spec_kdfe_block(
                        z,
                        label,
                        context_u,
                        context_v,
                        counter + 1 + (k / hl as int) as nat,
                    )[k % hl as int]);
                    assert(k / hl as int + 1 == j / hl as int && k % hl as int == j % hl as int) by (nonlinear_arith)
                        requires
                            hl > 0,
                            j >= hl,
                            k == j - hl,
                    ;
                }
            }
        }
    }
}

/// `KDFe` as TPM 2.0 Part 1 (11.4.10.3) defines it: block `i`, counting from
/// 1, is the digest of the big-endian counter `i`, the shared secret `z`,
/// the label ended by a zero byte (a label that already ends with one gets
/// no second), `partyUInfo` and `partyVInfo`; the key stream is as many
/// bytes as hold `bits` bits, taken from the blocks one after another.
/// Stated for a hash whose digests are `hl` bytes long: byte `j` of the key
/// stream is byte `j % hl` of block `j / hl + 1`.
pub proof fn lemma_kdfe_is_counter_mode_hash(
    h: TpmHash,
    z: Seq<u8>,
    label: Seq<u8>,
    context_u: Seq<u8>,
    context_v: Seq<u8>,
    bits: u16,
    hl: nat,
)
    ensures
        hl > 0 && (forall|data: Seq<u8>| #[trigger] h.spec_digest(data).len() == hl) ==> {
            let ended = if label.len() > 0 && label.last() == 0 { label } else { label + seq![0u8] };
            &&& h.spec_kdfe(z, label, context_u, context_v, bits).len() == ((bits as nat) + 7) / 8
            &&& forall|j: int|
                0 <= j < ((bits as nat) + 7) / 8 ==> #[trigger] h.spec_kdfe(z, label, context_u, context_v, bits)[j]
                    == h.spec_digest(
                    spec_be32_bytes((j / hl as int + 1) as u32) + z + ended + context_u + context_v,
                )[j % hl as int]
        },
{
    if hl > 0 && (forall|data: Seq<u8>| #[trigger] h.spec_digest(data).len() == hl) {
        let need = ((bits as nat) + 7) / 8;
        let ended = if label.len() > 0 && label.last() == 0 { label } else { label + seq![0u8] };
        assert(spec_kdfe_label(label) =~= ended);
        lemma_kdfe_from_bytes(h, z, label, context_u, context_v, 1, need, hl);
        assert forall|j: int| 0 <= j < need implies #[trigger] h.spec_kdfe(z, label, context_u, context_v, bits)[j]
            == h.spec_digest(
            spec_be32_bytes((j / hl as int + 1) as u32) + z + ended + context_u + context_v,
        )[j % hl as int] by {
            let c: nat = 1 + (j / hl as int) as nat;
            assert(c as u32 == (j / hl as int + 1) as u32);
        }
    }
}


/// The digests as OpenSSL knows them: SHA-1 (`SHA1`, 20 bytes), SHA-256
/// (`SHA256`, 32), SHA-384 (`SHA384`, 48), SHA-512 (`SHA512`, 64), SM3
/// (`SM3`, 32), SHA3-256 (`SHA3-256`, 32), SHA3-384 (`SHA3-384`, 48),
/// SHA3-512 (`SHA3-512`, 64), and the extendable-output `SHAKE128` and
/// `SHAKE256`, which have no fixed size.
pub proof fn lemma_digest_names_and_sizes()
    ensures
        TpmHash::Sha1.spec_openssl_name() == "SHA1"@,
        TpmHash::Sha1.spec_fixed_size() == Some(20nat),
        TpmHash::Sha256.spec_openssl_name() == "SHA256"@,
        TpmHash::Sha256.spec_fixed_size() == Some(32nat),
        TpmHash::Sha384.spec_openssl_name() == "SHA384"@,
        TpmHash::Sha384.spec_fixed_size() == Some(48nat),
        TpmHash::Sha512.spec_openssl_name() == "SHA512"@,
        TpmHash::Sha512.spec_fixed_size() == Some(64nat),
        TpmHash::Sm3_256.spec_openssl_name() == "SM3"@,
        TpmHash::Sm3_256.spec_fixed_size() == Some(32nat),
        TpmHash::Sha3_256.spec_openssl_name() == "SHA3-256"@,
        TpmHash::Sha3_256.spec_fixed_size() == Some(32nat),
        TpmHash::Sha3_384.spec_openssl_name() == "SHA3-384"@,
        TpmHash::Sha3_384.spec_fixed_size() == Some(48nat),
        TpmHash::Sha3_512.spec_openssl_name() == "SHA3-512"@,
        TpmHash::Sha3_512.spec_fixed_size() == Some(64nat),
        TpmHash::Shake128.spec_openssl_name() == "SHAKE128"@,
        TpmHash::Shake128.spec_fixed_size() == None::<nat>,
        TpmHash::Shake256.spec_openssl_name() == "SHAKE256"@,
        TpmHash::Shake256.spec_fixed_size() == None::<nat>,
{
}

} // verus!
