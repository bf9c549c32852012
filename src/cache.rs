//! The cache of the current event and its roster, and the refresh that fills it.
//!
//! One owner holds the cache and applies the operations one at a time; the
//! refresh does its network work through the fetch functions it is given
//! before the cache is touched, then replaces the whole state in one step.
use vstd::prelude::*;
use crate::errors::{DrawError, EventbriteError, FetchError, LoadError, WinnerError};
use crate::eventbrite::{
    current_event_spec, fetch_all_attendees, fetch_first_event, fetch_trace, roster_of,
    sequence_spec,
};
use crate::lottery::{draw, is_draw_of};
use crate::model::{AttendeesResponse, Event, EventsResponse, Profile};

verus! {

/// Request to refresh the cache from the events of `organizer`.
pub struct UpdateAttendees {
    pub organizer: String,
    pub token: String,
}

/// Request to draw `nb` winners.
pub struct GetAttendees {
    pub nb: i8,
}

/// Request for the current event.
pub struct GetEvent {}

/// How a refresh ended, reported for observability.
#[derive(Debug)]
pub enum UpdateAttendeesResponse {
    Updated,
    NoEventAvailable,
    EventbriteError { error: EventbriteError },
    UnexpectedError { error: FetchError },
}

/// What the cache holds: the current event and its roster.
pub struct CacheState {
    pub event: Option<Event>,
    pub roster: Option<Seq<Profile>>,
}

/// The cached event and roster. Both are present together or absent together.
pub struct LotteryCache {
    attendees: Option<Vec<Profile>>,
    event: Option<Event>,
}

/// The state that a refresh with `outcome` leaves: the new event and roster on
/// success, nothing on any failure.
pub open spec fn state_after(outcome: Result<(Event, Seq<Profile>), LoadError>) -> CacheState {
    match outcome {
        Ok((event, roster)) => CacheState { event: Some(event), roster: Some(roster) },
        Err(_) => CacheState { event: None, roster: None },
    }
}

/// The report of a refresh with `outcome`.
pub open spec fn update_response(outcome: Result<(Event, Vec<Profile>), LoadError>) -> UpdateAttendeesResponse {
    match outcome {
        Ok(_) => UpdateAttendeesResponse::Updated,
        Err(LoadError::Eventbrite { error: EventbriteError::NoEventAvailable }) =>
            UpdateAttendeesResponse::NoEventAvailable,
        Err(LoadError::Eventbrite { error }) => UpdateAttendeesResponse::EventbriteError { error },
        Err(LoadError::Unexpected { cause }) => UpdateAttendeesResponse::UnexpectedError { error: cause },
    }
}

/// The outcome of a refresh, with the roster seen as a sequence.
pub open spec fn outcome_view(outcome: Result<(Event, Vec<Profile>), LoadError>) -> Result<(Event, Seq<Profile>), LoadError> {
    match outcome {
        Ok((event, roster)) => Ok((event, roster@)),
        Err(e) => Err(e),
    }
}

/// What asking the cache in `state` for the current event gives.
pub open spec fn current_event_of(state: CacheState) -> Result<Event, WinnerError> {
    match state.event {
        Some(event) => Ok(event),
        None => Err(WinnerError::NoEventAvailable),
    }
}

/// `r` is what a draw of `nb` winners from the cache in `state` may give.
pub open spec fn draw_result(state: CacheState, nb: i8, r: Result<Vec<Profile>, WinnerError>) -> bool {
    match state.roster {
        None => r == Err::<Vec<Profile>, WinnerError>(WinnerError::NoEventAvailable),
        Some(roster) => if nb < 0 {
            r == Err::<Vec<Profile>, WinnerError>(
                WinnerError::DrawError { cause: DrawError::NegativeCount { requested: nb } },
            )
        } else if nb > roster.len() {
            r == Err::<Vec<Profile>, WinnerError>(
                WinnerError::DrawError {
                    cause: DrawError::NotEnoughAttendees {
                        requested: nb as usize,
                        available: roster.len() as usize,
                    },
                },
            )
        } else {
            r is Ok && is_draw_of(roster, nb as nat, r->Ok_0@)
        },
    }
}

impl View for LotteryCache {
    type V = CacheState;

    closed spec fn view(&self) -> CacheState {
        CacheState {
            event: self.event,
            roster: match self.attendees {
                Some(a) => Some(a@),
                None => None,
            },
        }
    }
}

impl LotteryCache {
    /// Event and roster are present together.
    pub open spec fn wf(&self) -> bool {
        self@.event is Some == self@.roster is Some
    }

    /// An empty cache, as at start.
    pub fn new() -> (r: LotteryCache)
        ensures
            r.wf(),
            r@.event is None,
            r@.roster is None,
    {
        LotteryCache { attendees: None, event: None }
    }

    /// Overwrites the state with `event` and its `roster`.
    pub fn replace(&mut self, event: Event, roster: Vec<Profile>)
        ensures
            final(self).wf(),
            final(self)@.event == Some(event),
            final(self)@.roster == Some(roster@),
    {
        self.attendees = Some(roster);
        self.event = Some(event);
    }

    /// Drops the event and the roster, so that no stale data is served.
    pub fn clear(&mut self)
        ensures
            final(self).wf(),
            final(self)@.event is None,
            final(self)@.roster is None,
    {
        self.attendees = None;
        self.event = None;
    }

    /// Applies the outcome of a refresh: a success replaces the state, any
    /// failure clears it. Returns the report of the refresh.
    pub fn update(&mut self, outcome: Result<(Event, Vec<Profile>), LoadError>) -> (r:
        UpdateAttendeesResponse)
        ensures
            final(self).wf(),
            final(self)@ == state_after(outcome_view(outcome)),
            r == update_response(outcome),
    {
        match outcome {
            Ok((event, roster)) => {
                self.replace(event, roster);
                UpdateAttendeesResponse::Updated
            },
            Err(failure) => {
                self.clear();
                match failure {
                    LoadError::Eventbrite { error: EventbriteError::NoEventAvailable } => {
                        UpdateAttendeesResponse::NoEventAvailable
                    },
                    LoadError::Eventbrite { error } => UpdateAttendeesResponse::EventbriteError {
                        error,
                    },
                    LoadError::Unexpected { cause } => UpdateAttendeesResponse::UnexpectedError {
                        error: cause,
                    },
                }
            },
        }
    }

    /// Draws `nb` winners from the cached roster, or fails with
    /// `NoEventAvailable` when there is none. The cache is not changed.
    pub fn draw(&self, nb: i8) -> (r: Result<Vec<Profile>, WinnerError>)
        ensures
            draw_result(self@, nb, r),
    {
        match &self.attendees {
            None => Err(WinnerError::NoEventAvailable),
            Some(roster) => match draw(nb, roster) {
                Ok(winners) => Ok(winners),
                Err(cause) => Err(WinnerError::DrawError { cause }),
            },
        }
    }

    /// Serves a request for `nb` winners: a negative count is an invalid
    /// parameter; otherwise as [`LotteryCache::draw`].
    pub fn draw_winners(&self, nb: i8) -> (r: Result<Vec<Profile>, WinnerError>)
        ensures
            nb < 0 ==> r == Err::<Vec<Profile>, WinnerError>(WinnerError::InvalidParameter),
            nb >= 0 ==> draw_result(self@, nb, r),
    {
        if nb < 0 {
            Err(WinnerError::InvalidParameter)
        } else {
            self.draw(nb)
        }
    }

    /// The current event, or `NoEventAvailable` when there is none.
    pub fn current_event(&self) -> (r: Result<Event, WinnerError>)
        ensures
            r == current_event_of(self@),
    {
        match &self.event {
            None => Err(WinnerError::NoEventAvailable),
            Some(event) => Ok(event.duplicate()),
        }
    }
}

impl Default for LotteryCache {
    /// An empty cache, as at start.
    fn default() -> (r: LotteryCache)
        ensures
            r.wf(),
            r@.event is None,
            r@.roster is None,
    {
        LotteryCache::new()
    }
}

/// `r` tags the combination of the roster `pages` of `event`, fetched under
/// the id `id`, as a refresh outcome.
pub open spec fn tagged_roster(
    event: Event,
    id: Seq<char>,
    pages: Seq<Result<AttendeesResponse, FetchError>>,
    r: Result<(Event, Vec<Profile>), LoadError>,
) -> bool {
    match sequence_spec(pages) {
        Ok(fetched) => r is Ok && r->Ok_0.0 == event && r->Ok_0.1@ == roster_of(fetched),
        Err(cause) => match r {
            Err(
                LoadError::Eventbrite {
                    error: EventbriteError::AttendeesLoadError { event_id, cause: c },
                },
            ) => event_id@ == id && c == cause,
            _ => false,
        },
    }
}

/// `r` is what the refresh gives once the current event is `resolved`: the
/// resolution's failure, or the event with its roster fetched through
/// `fetch_page`.
pub open spec fn refresh_result<FA: Fn(&str, &str, u8) -> Result<AttendeesResponse, FetchError>>(
    fetch_page: FA,
    token: &str,
    resolved: Result<Event, LoadError>,
    r: Result<(Event, Vec<Profile>), LoadError>,
) -> bool {
    match resolved {
        Err(e) => r == Err::<(Event, Vec<Profile>), LoadError>(e),
        Ok(event) => exists|id: &str, pages: Seq<Result<AttendeesResponse, FetchError>>|
            #![trigger fetch_trace(fetch_page, id, token, pages)]
            id@ == event.id@ && fetch_trace(fetch_page, id, token, pages) && tagged_roster(
                event,
                id@,
                pages,
                r,
            ),
    }
}

/// The network part of a refresh: resolves the current event of `organizer`
/// through `fetch_events`, then fetches and combines its roster through
/// `fetch_page`. Runs without the cache; its outcome goes to
/// [`LotteryCache::update`].
pub fn fetch_roster<
    FE: Fn(&str, &str) -> Result<EventsResponse, FetchError>,
    FA: Fn(&str, &str, u8) -> Result<AttendeesResponse, FetchError>,
>(fetch_events: FE, fetch_page: FA, organizer: &str, token: &str) -> (r: Result<
    (Event, Vec<Profile>),
    LoadError,
>)
    requires
        fetch_events.requires((organizer, token)),
        forall|id: &str, p: u8| fetch_page.requires((id, token, p)),
    ensures
        exists|response: Result<EventsResponse, FetchError>|
            #![trigger current_event_spec(response)]
            fetch_events.ensures((organizer, token), response) && refresh_result(
                fetch_page,
                token,
                current_event_spec(response),
                r,
            ),
{
    let resolved = fetch_first_event(fetch_events, organizer, token);
    let event = match resolved {
        Err(e) => {
            return Err(e);
        },
        Ok(event) => event,
    };
    let id = event.id.as_str();
    let loaded = fetch_all_attendees(fetch_page, id, token);
    proof {
        let pages = choose|pages: Seq<Result<AttendeesResponse, FetchError>>|
            fetch_trace(fetch_page, id, token, pages) && crate::eventbrite::roster_result(
                id@,
                pages,
                loaded,
            );
        assert(fetch_trace(fetch_page, id, token, pages));
    }
    match loaded {
        Ok(roster) => Ok((event, roster)),
        Err(error) => Err(LoadError::Eventbrite { error }),
    }
}

/// A failed refresh leaves no event and no roster, whatever an earlier
/// successful refresh had stored (the state after it does not depend on the
/// state before): the current event and every draw then fail with
/// `NoEventAvailable`.
pub proof fn lemma_failed_refresh_clears(failure: LoadError, nb: i8)
    ensures
        current_event_of(state_after(Err(failure))) == Err::<Event, WinnerError>(
            WinnerError::NoEventAvailable,
        ),
        forall|r: Result<Vec<Profile>, WinnerError>|
            draw_result(state_after(Err(failure)), nb, r) <==> r == Err::<Vec<Profile>, WinnerError>(
                WinnerError::NoEventAvailable,
            ),
{
}

/// After a replace with `event` and `roster`, the cache serves that event,
/// and every draw, whichever follows the replace, picks its winners from
/// that roster alone.
pub proof fn lemma_draws_after_replace(event: Event, roster: Seq<Profile>, nb: i8)
    ensures
        current_event_of(state_after(Ok((event, roster)))) == Ok::<Event, WinnerError>(event),
        forall|r: Result<Vec<Profile>, WinnerError>|
            #![trigger draw_result(state_after(Ok((event, roster))), nb, r)]
            draw_result(state_after(Ok((event, roster))), nb, r) && 0 <= nb <= roster.len()
                ==> r is Ok && is_draw_of(roster, nb as nat, r->Ok_0@),
{
}

} // verus!
