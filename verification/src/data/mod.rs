//! TPM 2.0 data types.

pub mod alg;
pub mod attest;
pub mod attr;
pub mod cc;
pub mod curve;
pub mod ha;
pub mod ht;
pub mod nv;
pub mod pcr;
pub mod public;
pub mod rc;
pub mod schemes;
pub mod signature;
pub mod st;
pub mod sym;
