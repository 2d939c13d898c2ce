//! An identifier-keyed venue store with partial updates, paginated listing,
//! and a reader/writer-locked handle for sharing it between tasks.

pub mod id_generator;
pub mod laws;
pub mod pagination;
pub mod shared;
pub mod store;
pub mod venue;
