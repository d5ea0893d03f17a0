//! Models of the native ETW data and of the decisions made around native calls.
pub mod etw_types;
pub mod evntrace;
pub mod sddl;
pub mod tdh;
pub mod tdh_types;
pub mod times;
