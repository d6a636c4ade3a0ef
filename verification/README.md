# tpm2sh

A TPM 2.0 toolkit: the wire format of TPM commands and responses, the TPM
data structures, response codes, handles and the values the command line
takes, policy digests, and the key derivation functions of the TPM. The
library is verified with Verus: each public function states what it returns
in its contract, and the laws that tie functions together (what unmarshaling
gives back of what marshaling wrote, what parsing gives back of what printing
wrote) are proof functions.

Layout:

- `src/frame/`: command and response frames: envelope checks, the header
  fields, marshaling, unmarshaling and parsing, and the laws that relate them
  (including the layout of a marshaled frame and what validation accepts).
- `src/data/`: TPM structures and enumerations (algorithms, command and
  response codes, PCR selections, schemes, public areas, signatures, NV
  public areas, attestation structures) with their wire encodings.
- `src/crypto.rs`, `src/hash.rs`: digests, HMACs, `KDFa` and `KDFe`, computed
  with OpenSSL behind small trusted wrappers.
- `src/key.rs`, `src/rsa.rs`, `src/ecc.rs`, `src/ecc_key.rs`,
  `src/template.rs`: key algorithm names, public areas of imported keys, and
  keys held by OpenSSL.
- `src/policy/`: the tokens and expressions of the policy language, a
  software policy session that computes policy digests, running an
  expression on a session, and building the list of policy commands an
  expression stands for and rebuilding the expression from such a list.
- `src/session.rs`: the authorization area of a command, with the HMACs of
  its sessions.
- `src/capability.rs`: reading the handles capability page by page.
- `src/key_policy.rs`: the policy commands of a TPM key file.
- `src/handle.rs`, `src/scheme.rs`, `src/number.rs`, `src/hexstr.rs`,
  `src/input.rs`, `src/text.rs`: values of the command line.
- `src/device.rs`: building the command buffer sent to the TPM device, the
  decisions of reading its response, and the mapping of that response to a
  result.
- `app/`: the command-line program and the device I/O.
- `tests/`: tests of the library.
