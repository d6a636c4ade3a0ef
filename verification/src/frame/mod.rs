//! TPM 2.0 command and response frames.

pub mod auth;
pub mod codec;
pub mod dispatch;
pub mod wire;
pub mod marshal;
pub mod parse;
pub mod unmarshal;
pub mod roundtrip;
pub mod records;
