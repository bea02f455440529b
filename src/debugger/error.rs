use vstd::prelude::*;

use crate::cpu::CpuError;

verus! {

/// std's I/O error, carried through as it is.
#[verifier::external_type_specification]
#[verifier::external_body]
pub struct ExIoError(std::io::Error);

/// A failure of the debugger.
#[derive(Debug)]
pub enum DebuggerError {
    Cpu(CpuError),
    Protocol,
    Io(std::io::Error),
}

impl From<CpuError> for DebuggerError {
    fn from(e: CpuError) -> (r: DebuggerError) {
        DebuggerError::Cpu(e)
    }
}

impl vstd::std_specs::convert::FromSpecImpl<CpuError> for DebuggerError {
    open spec fn obeys_from_spec() -> bool {
        true
    }

    open spec fn from_spec(e: CpuError) -> DebuggerError {
        DebuggerError::Cpu(e)
    }
}

impl From<std::io::Error> for DebuggerError {
    fn from(e: std::io::Error) -> (r: DebuggerError) {
        DebuggerError::Io(e)
    }
}

impl vstd::std_specs::convert::FromSpecImpl<std::io::Error> for DebuggerError {
    open spec fn obeys_from_spec() -> bool {
        true
    }

    open spec fn from_spec(e: std::io::Error) -> DebuggerError {
        DebuggerError::Io(e)
    }
}

} // verus!
