//! Synchronization core of a CI resource for a page-oriented remote record
//! store. The verified library models the store's collections, derives
//! version fingerprints, guards retrieval against concurrent modification,
//! and reconciles local record batches against a collection in one of three
//! modes (append, replace, update-by-key). Network and filesystem plumbing
//! live outside the library and drive the engine through its event machine.

pub mod data;
pub mod engine;
pub mod jsontext;
pub mod machine;
pub mod record;
pub mod store;

pub use data::Mode;
pub use data::OutParams;
pub use data::RecError;
pub use data::SourceConfig;
pub use data::Version;
pub use record::Prop;
pub use record::Record;
