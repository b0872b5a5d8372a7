//! A minimal time-to-live keyed store: an in-memory map from keys to values
//! in which an entry counts as logically absent once a fixed duration has
//! elapsed since it was last written. Expiry is lazy: it is decided only when
//! an entry is read, and a stale entry stays physically stored until it is
//! overwritten, removed, or the cache is cleared.

pub mod cache;
mod clock;
pub mod laws;

pub use cache::Cache;
pub use cache::Entry;
