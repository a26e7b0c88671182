use vstd::prelude::*;

verus! {

/// Why a query failed.
#[derive(Clone, Copy, Debug, PartialEq, Eq, Hash, Structural)]
pub enum QueryError {
    /// No probed domain knows the label.
    NotFound,
    /// The exchange with the service manager could not complete, or the
    /// service manager answered with an error.
    TransportFailure,
    /// A field that the reply must carry is missing or of the wrong shape.
    MalformedResponse,
    /// A field of the reply does not fit the type it is read as.
    ConversionFailure,
    /// The shared memory that a request needs could not be allocated.
    ResourceAllocationFailure,
}

} // verus!
