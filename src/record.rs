//! Records of drawn winners, tagged with the event they were drawn for.
use vstd::prelude::*;
use crate::errors::WinnerError;
use crate::model::Event;

verus! {

/// A request to record a winner; `event_id` is the event it was drawn for, if known.
#[derive(Debug, Clone)]
pub struct CreateWinner {
    pub first_name: String,
    pub last_name: String,
    pub event_id: Option<String>,
}

/// A stored winner.
#[derive(Debug, Clone)]
pub struct Winner {
    pub id: String,
    pub first_name: String,
    pub last_name: String,
    pub event_id: String,
}

/// The row written for a new winner.
#[derive(Debug)]
pub struct NewWinner<'a> {
    pub id: &'a str,
    pub first_name: &'a str,
    pub last_name: &'a str,
    pub event_id: &'a str,
}

/// The event id stored for a winner whose event is not known.
pub open spec fn unknown_event() -> Seq<char> {
    "Unknown"@
}

impl CreateWinner {
    /// Tags the request with the id of the current event, or with none when
    /// there is no current event.
    pub fn with_event(self, current: Result<Event, WinnerError>) -> (r: CreateWinner)
        ensures
            r.first_name == self.first_name,
            r.last_name == self.last_name,
            r.event_id == match current {
                Ok(event) => Some(event.id),
                Err(_) => None::<String>,
            },
    {
        CreateWinner {
            first_name: self.first_name,
            last_name: self.last_name,
            event_id: match current {
                Ok(event) => Some(event.id),
                Err(_) => None,
            },
        }
    }

    /// The winner to store under `id`; a winner with no known event is
    /// stored under the event id `Unknown`.
    pub fn into_winner(self, id: String) -> (r: Winner)
        ensures
            r.id == id,
            r.first_name == self.first_name,
            r.last_name == self.last_name,
            self.event_id is Some ==> r.event_id == self.event_id->Some_0,
            self.event_id is None ==> r.event_id@ == unknown_event(),
    {
        let event_id = match self.event_id {
            Some(e) => e,
            None => String::from_str("Unknown"),
        };
        Winner { id, first_name: self.first_name, last_name: self.last_name, event_id }
    }
}

impl<'a> NewWinner<'a> {
    /// The row that stores `winner`.
    pub fn from_winner(winner: &'a Winner) -> (r: NewWinner<'a>)
        ensures
            r.id@ == winner.id@,
            r.first_name@ == winner.first_name@,
            r.last_name@ == winner.last_name@,
            r.event_id@ == winner.event_id@,
    {
        NewWinner {
            id: winner.id.as_str(),
            first_name: winner.first_name.as_str(),
            last_name: winner.last_name.as_str(),
            event_id: winner.event_id.as_str(),
        }
    }
}

} // verus!
