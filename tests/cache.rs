use std::sync::{Arc, Mutex};

use jug_lottery::cache::{fetch_roster, LotteryCache, UpdateAttendeesResponse};
use jug_lottery::errors::{DrawError, EventbriteError, FetchError, LoadError, WinnerError};
use jug_lottery::model::{Attende, AttendeesResponse, Event, EventsResponse, Pagination, Profile};
use jug_lottery::record::{CreateWinner, NewWinner};

fn profile(first: &str, last: &str) -> Profile {
    Profile { first_name: first.to_string(), last_name: last.to_string() }
}

fn event(id: &str) -> Event {
    Event { id: id.to_string() }
}

fn filled(id: &str, names: &[(&str, &str)]) -> LotteryCache {
    let mut cache = LotteryCache::default();
    let roster = names.iter().map(|(f, l)| profile(f, l)).collect();
    assert!(matches!(cache.update(Ok((event(id), roster))), UpdateAttendeesResponse::Updated));
    cache
}

#[test]
fn empty_cache_has_no_event() {
    let cache = LotteryCache::new();
    assert!(matches!(cache.current_event(), Err(WinnerError::NoEventAvailable)));
    assert!(matches!(cache.draw(1), Err(WinnerError::NoEventAvailable)));
    assert!(matches!(cache.draw(0), Err(WinnerError::NoEventAvailable)));
}

#[test]
fn replace_serves_event_and_roster() {
    let mut cache = LotteryCache::new();
    cache.replace(event("A"), vec![profile("Ada", "Lovelace")]);
    assert_eq!(cache.current_event().unwrap(), event("A"));
    assert_eq!(cache.draw(1).unwrap(), vec![profile("Ada", "Lovelace")]);
}

#[test]
fn failed_refresh_clears_previous_state() {
    let mut cache = filled("A", &[("Ada", "Lovelace"), ("Alan", "Turing")]);
    assert_eq!(cache.current_event().unwrap(), event("A"));
    let report = cache.update(Err(LoadError::Unexpected { cause: FetchError::Status { code: 500 } }));
    assert!(matches!(report, UpdateAttendeesResponse::UnexpectedError { error: FetchError::Status { code: 500 } }));
    assert!(matches!(cache.current_event(), Err(WinnerError::NoEventAvailable)));
    assert!(matches!(cache.draw(1), Err(WinnerError::NoEventAvailable)));
}

#[test]
fn refresh_reports_classify_failures() {
    let mut cache = filled("A", &[("Ada", "Lovelace")]);
    let report = cache.update(Err(LoadError::Eventbrite { error: EventbriteError::NoEventAvailable }));
    assert!(matches!(report, UpdateAttendeesResponse::NoEventAvailable));
    assert!(matches!(cache.current_event(), Err(WinnerError::NoEventAvailable)));

    let mut cache = filled("A", &[("Ada", "Lovelace")]);
    let failure = EventbriteError::AttendeesLoadError { event_id: "A".to_string(), cause: FetchError::Status { code: 404 } };
    let report = cache.update(Err(LoadError::Eventbrite { error: failure }));
    assert!(matches!(report, UpdateAttendeesResponse::EventbriteError { error: EventbriteError::AttendeesLoadError { .. } }));
    assert!(matches!(cache.draw(1), Err(WinnerError::NoEventAvailable)));
}

#[test]
fn draw_errors_are_wrapped() {
    let cache = filled("A", &[("Ada", "Lovelace")]);
    assert!(matches!(cache.draw(2), Err(WinnerError::DrawError { cause: DrawError::NotEnoughAttendees { requested: 2, available: 1 } })));
    assert!(matches!(cache.draw(-1), Err(WinnerError::DrawError { cause: DrawError::NegativeCount { requested: -1 } })));
    assert!(matches!(cache.draw_winners(-1), Err(WinnerError::InvalidParameter)));
    assert_eq!(cache.draw_winners(0).unwrap(), Vec::<Profile>::new());
    assert_eq!(cache.draw_winners(1).unwrap(), vec![profile("Ada", "Lovelace")]);
}

#[test]
fn draws_after_replace_see_new_roster() {
    let cache = Arc::new(Mutex::new(filled("OLD", &[("Old", "One"), ("Old", "Two")])));
    cache.lock().unwrap().replace(event("NEW"), vec![profile("New", "One"), profile("New", "Two"), profile("New", "Three")]);
    for _ in 0..8 {
        let guard = cache.lock().unwrap();
        let (ev, winners) = (guard.current_event().unwrap(), guard.draw(3).unwrap());
        assert_eq!(ev, event("NEW"));
        assert_eq!(winners.len(), 3);
        assert!(winners.iter().all(|w| w.first_name == "New"));
    }
}

fn page(count: u8, names: &[(&str, &str)]) -> AttendeesResponse {
    AttendeesResponse {
        attendees: names.iter().map(|(f, l)| Attende { profile: profile(f, l) }).collect(),
        pagination: Pagination { object_count: names.len() as u8, page_count: count, page_size: 50, page_number: 0 },
    }
}

#[test]
fn fetch_roster_resolves_then_loads() {
    let events = |_o: &str, _t: &str| Ok(EventsResponse { events: vec![event("A"), event("B")] });
    let pages = |id: &str, _t: &str, _p: u8| {
        assert_eq!(id, "A");
        Ok(page(1, &[("Ada", "Lovelace")]))
    };
    let (ev, roster) = fetch_roster(events, pages, "ORG", "TK").unwrap();
    assert_eq!(ev, event("A"));
    assert_eq!(roster, vec![profile("Ada", "Lovelace")]);

    let events = |_o: &str, _t: &str| Ok(EventsResponse { events: vec![] });
    let pages = |_id: &str, _t: &str, _p: u8| -> Result<AttendeesResponse, FetchError> { panic!("no page is fetched without an event") };
    assert!(matches!(fetch_roster(events, pages, "ORG", "TK"), Err(LoadError::Eventbrite { error: EventbriteError::NoEventAvailable })));

    let events = |_o: &str, _t: &str| Ok(EventsResponse { events: vec![event("A")] });
    let pages = |_id: &str, _t: &str, _p: u8| Err(FetchError::Status { code: 503 });
    match fetch_roster(events, pages, "ORG", "TK") {
        Err(LoadError::Eventbrite { error: EventbriteError::AttendeesLoadError { event_id, cause: FetchError::Status { code: 503 } } }) => {
            assert_eq!(event_id, "A")
        }
        other => panic!("unexpected result {:?}", other),
    }
}

#[test]
fn winner_records_carry_current_event() {
    let request = CreateWinner { first_name: "Ada".to_string(), last_name: "Lovelace".to_string(), event_id: None };
    let tagged = request.with_event(Ok(event("A")));
    assert_eq!(tagged.event_id, Some("A".to_string()));
    let winner = tagged.into_winner("id-1".to_string());
    assert_eq!(winner.event_id, "A");
    let row = NewWinner::from_winner(&winner);
    assert_eq!((row.id, row.first_name, row.last_name, row.event_id), ("id-1", "Ada", "Lovelace", "A"));

    let request = CreateWinner { first_name: "Ada".to_string(), last_name: "Lovelace".to_string(), event_id: Some("X".to_string()) };
    let untagged = request.with_event(Err(WinnerError::NoEventAvailable));
    assert_eq!(untagged.event_id, None);
    assert_eq!(untagged.into_winner("id-2".to_string()).event_id, "Unknown");
}
