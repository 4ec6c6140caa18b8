//! Working-tree status across the member repositories of a manifest-defined
//! super-repository: classification of change records, report rendering,
//! manifest loading, root location, aggregation and command dispatch.

pub mod aggregate;
pub mod dispatch;
pub mod error;
pub mod locate;
pub mod manifest;
pub mod markup;
pub mod report;
pub mod status;
pub mod text;
