//! Decoding and session control logic for Event Tracing for Windows (ETW).
pub mod bytes;
pub mod guid;
pub mod native;
pub mod parser;
pub mod provider;
pub mod query;
pub mod schema;
pub mod schema_locator;
pub mod ser;
pub mod text;
pub mod trace;
pub mod utils;

pub use guid::GUID;
pub use native::etw_types::event_record::EventRecord;
pub use native::etw_types::extended_data::Sid;
pub use schema_locator::SchemaLocator;
pub use ser::{EventSerializer, EventSerializerOptions};
pub use trace::{FileTrace, KernelTrace, UserTrace};
