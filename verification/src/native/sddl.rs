//! Textual form of security identifiers.
use vstd::prelude::*;

verus! {

/// Errors of the conversion of a security identifier into text
#[derive(Debug, Clone, Copy, PartialEq, Eq, Structural)]
pub enum SddlNativeError {
    /// The converted text is not UTF-8
    SidParseError,
    /// The call failed with this Win32 status
    IoError(u32),
}

} // verus!
