use vstd::prelude::*;

verus! {

/// Why an allocator could not serve a request.
#[derive(Clone, Copy, Debug, PartialEq, Eq, Structural)]
pub enum AllocError {
    /// No free range can hold the request, or no slot is left to record a region.
    NoMemory,
}

} // verus!
