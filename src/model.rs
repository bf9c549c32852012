//! Payloads of the registration service and the values the cache serves.
use vstd::prelude::*;

verus! {

/// Position of one page within the paginated attendee listing.
#[derive(Debug, Clone, Copy, PartialEq, Eq, Structural)]
pub struct Pagination {
    pub object_count: u8,
    pub page_count: u8,
    pub page_size: u8,
    pub page_number: u8,
}

/// Name of one attendee. Two profiles are equal when both names are.
#[derive(Debug, Clone)]
pub struct Profile {
    pub first_name: String,
    pub last_name: String,
}

impl Profile {
    /// A field-by-field copy of this profile.
    pub fn duplicate(&self) -> (r: Profile)
        ensures
            r == *self,
    {
        Profile { first_name: self.first_name.clone(), last_name: self.last_name.clone() }
    }
}

impl PartialEq for Profile {
    fn eq(&self, o: &Profile) -> (r: bool) {
        self.first_name == o.first_name && self.last_name == o.last_name
    }
}

impl vstd::std_specs::cmp::PartialEqSpecImpl for Profile {
    open spec fn obeys_eq_spec() -> bool {
        true
    }

    open spec fn eq_spec(&self, o: &Profile) -> bool {
        self.first_name@ == o.first_name@ && self.last_name@ == o.last_name@
    }
}

/// One entry of an attendee page.
#[derive(Debug, Clone)]
pub struct Attende {
    pub profile: Profile,
}

/// One fetched page of attendees.
#[derive(Debug, Clone)]
pub struct AttendeesResponse {
    pub attendees: Vec<Attende>,
    pub pagination: Pagination,
}

/// The event currently tracked, identified by the service's id.
#[derive(Debug, Clone)]
pub struct Event {
    pub id: String,
}

impl Event {
    /// A field-by-field copy of this event.
    pub fn duplicate(&self) -> (r: Event)
        ensures
            r == *self,
    {
        Event { id: self.id.clone() }
    }
}

impl PartialEq for Event {
    fn eq(&self, o: &Event) -> (r: bool) {
        self.id == o.id
    }
}

impl vstd::std_specs::cmp::PartialEqSpecImpl for Event {
    open spec fn obeys_eq_spec() -> bool {
        true
    }

    open spec fn eq_spec(&self, o: &Event) -> bool {
        self.id@ == o.id@
    }
}

/// Result of an event search, in the service's date order.
#[derive(Debug, Clone)]
pub struct EventsResponse {
    pub events: Vec<Event>,
}

/// The profiles of a page's attendees, in page order.
pub open spec fn page_profiles(page: AttendeesResponse) -> Seq<Profile> {
    page.attendees@.map_values(|a: Attende| a.profile)
}

} // verus!
