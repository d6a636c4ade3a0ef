//! The handle-area layout of every command.

use crate::data::cc::TpmCc;
use vstd::prelude::*;

verus! {

/// The handle-area layout of a command and of its response.
#[derive(Debug, Clone, Copy, PartialEq, Eq, Structural)]
pub struct TpmDispatch {
    pub cc: TpmCc,
    pub handles: usize,
    pub response_handles: usize,
}

/// Returns the dispatch entry of a command code.
///
/// Every command code has an entry.
pub fn dispatch_for(cc: TpmCc) -> (d: TpmDispatch)
    ensures
        d.cc == cc,
        d.handles == cc.spec_command_handles(),
        d.response_handles == cc.spec_response_handles(),
        d.handles <= 3,
        d.response_handles <= 1,
{
    TpmDispatch { cc, handles: cc.command_handles(), response_handles: cc.response_handles() }
}

} // verus!
