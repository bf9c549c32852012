//! Attendee roster cache and random winner draw for an event hosted on a
//! registration service.
//!
//! The library holds the logic: the page and event payloads, the request URLs,
//! the aggregation of a paginated roster, the resolution of the current
//! event, the draw of distinct winners and the cache that serves them.
//! Network access and scheduling belong to the caller, which hands the
//! fetched payloads to these functions.
use vstd::prelude::*;

pub mod model;
pub mod errors;
pub mod eventbrite;
pub mod lottery;
pub mod cache;
pub mod record;

verus! {

} // verus!
