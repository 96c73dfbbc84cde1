//! Dense integer identifiers: a numeric id abstraction with a reserved
//! sentinel, and a slab allocator that hands ids out and takes them back,
//! reusing the most recently freed id first.
pub mod id;
pub mod pool;
pub mod slab;

pub use id::Id;
pub use pool::IdPool;
pub use slab::Slab;
