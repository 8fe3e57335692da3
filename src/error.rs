use vstd::prelude::*;

verus! {

/// Failures of a lookup that happen on this side of the service.
#[derive(Debug, PartialEq, Eq)]
pub enum GoogleMapPlaceError {
    /// The caller's input was refused before any request was made.
    BadRequest(String),
    /// The transport failed, or the body could not be decoded.
    Unknown(String),
}

} // verus!
