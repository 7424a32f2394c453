//! Physical-memory allocation primitives for the early stages of a kernel:
//! a dual-region bump allocator and a pool allocator over a bounded block table.
#![allow(unused_variables)]

pub mod align;
pub mod early;
pub mod error;
pub mod pool;

pub use early::EarlyAllocator;
pub use error::AllocError;
pub use pool::LabByteAllocator;
