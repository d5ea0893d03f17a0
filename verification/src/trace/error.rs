//! Errors of traces.
use vstd::prelude::*;

use crate::native::evntrace::EvntraceNativeError;

verus! {

/// Errors of traces
#[derive(Debug)]
pub enum TraceError {
    /// The name of the trace holds a NUL
    InvalidTraceName,
    /// Wrapper over an [`EvntraceNativeError`]
    EtwNativeError(EvntraceNativeError),
}

impl From<EvntraceNativeError> for TraceError {
    fn from(err: EvntraceNativeError) -> (r: TraceError) {
        TraceError::EtwNativeError(err)
    }
}

impl vstd::std_specs::convert::FromSpecImpl<EvntraceNativeError> for TraceError {
    open spec fn obeys_from_spec() -> bool {
        true
    }

    open spec fn from_spec(err: EvntraceNativeError) -> TraceError {
        TraceError::EtwNativeError(err)
    }
}

/// A native error stays what it is.
pub proof fn native_errors_are_kept(err: EvntraceNativeError)
    ensures
        <TraceError as vstd::std_specs::convert::FromSpec<EvntraceNativeError>>::from_spec(
            err,
        ) matches TraceError::EtwNativeError(e) && e == err,
{
}

} // verus!
