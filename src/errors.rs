//! Errors of the library, as a closed set of tagged variants.
use vstd::prelude::*;

verus! {

/// Failure of one request to the registration service: the transport failed,
/// the service answered with a non-success status, or the body was malformed.
#[derive(Debug, Clone)]
pub enum FetchError {
    Transport { message: String },
    Status { code: u16 },
    Body { message: String },
}

/// A failure classified as coming from the registration service.
#[derive(Debug, Clone)]
pub enum EventbriteError {
    /// A page of the roster of `event_id` could not be fetched.
    AttendeesLoadError { event_id: String, cause: FetchError },
    /// The service lists no current event.
    NoEventAvailable,
}

/// Outcome of a failed refresh: a classified service failure, or a fetch
/// failure that no classification covers.
#[derive(Debug, Clone)]
pub enum LoadError {
    Eventbrite { error: EventbriteError },
    Unexpected { cause: FetchError },
}

/// Why a draw of winners was refused.
#[derive(Debug, Clone, Copy, PartialEq, Eq, Structural)]
pub enum DrawError {
    /// A negative number of winners was asked for.
    NegativeCount { requested: i8 },
    /// More winners were asked for than the roster holds.
    NotEnoughAttendees { requested: usize, available: usize },
}

/// Errors of the read operations of the cache.
#[derive(Debug, Clone)]
pub enum WinnerError {
    InvalidParameter,
    NoEventAvailable,
    DrawError { cause: DrawError },
    UnexpectedError { cause: String },
}

} // verus!
