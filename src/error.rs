use vstd::prelude::*;

verus! {

/// What can go wrong while building or compressing a request.
#[derive(Debug)]
pub enum BQError {
    /// A row payload, or the request, could not be written as JSON.
    SerializationError(serde_json::Error),
    /// The compressed stream could not be written or finished.
    IoError(std::io::Error),
}

} // verus!
