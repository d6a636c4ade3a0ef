//! TPM 2.0 protocol frames, response codes and command-line value parsers.

pub mod capability;
pub mod constant;
pub mod crypto;
pub mod data;
pub mod device;
pub mod ecc;
pub mod ecc_key;
pub mod error;
pub mod frame;
pub mod handle;
pub mod hash;
pub mod hexstr;
pub mod input;
pub mod key;
pub mod key_policy;
pub mod number;
pub mod pcr;
pub mod policy;
pub mod rsa;
pub mod scheme;
pub mod session;
pub mod template;
pub mod text;
