//! Requests to the registration service and the combination of their answers:
//! the current event is the first one of a date-sorted search, and the roster
//! is the concatenation of every attendee page in page order.
use vstd::prelude::*;
use crate::errors::{EventbriteError, FetchError, LoadError};
use crate::model::{AttendeesResponse, Event, EventsResponse, Pagination, Profile, page_profiles};

verus! {

/// The address of the service's API.
pub open spec fn base_url() -> Seq<char> {
    "https://www.eventbriteapi.com"@
}

/// The character of a decimal digit.
pub open spec fn digit_char(d: nat) -> char {
    seq!['0', '1', '2', '3', '4', '5', '6', '7', '8', '9'][d as int]
}

/// The decimal writing of `n`, without leading zeros.
pub open spec fn decimal(n: nat) -> Seq<char>
    decreases n,
{
    if n < 10 {
        seq![digit_char(n)]
    } else {
        decimal(n / 10).push(digit_char(n % 10))
    }
}

/// The address of one page of the roster of `event_id`.
pub open spec fn attendees_url_spec(event_id: Seq<char>, token: Seq<char>, page: u8) -> Seq<char> {
    base_url() + "/v3/events/"@ + event_id + "/attendees/?token="@ + token + "&page="@
        + decimal(page as nat)
}

/// The address of the date-sorted event search of `organizer`.
pub open spec fn events_url_spec(organizer: Seq<char>, token: Seq<char>) -> Seq<char> {
    base_url() + "/v3/events/search/?sort_by=date&organizer.id="@ + organizer + "&token="@
        + token
}

fn digit_str(d: u8) -> (r: &'static str)
    requires
        d < 10,
    ensures
        r@ == seq![digit_char(d as nat)],
{
    proof {
        reveal_strlit("0");
        reveal_strlit("1");
        reveal_strlit("2");
        reveal_strlit("3");
        reveal_strlit("4");
        reveal_strlit("5");
        reveal_strlit("6");
        reveal_strlit("7");
        reveal_strlit("8");
        reveal_strlit("9");
    }
    match d {
        0 => "0",
        1 => "1",
        2 => "2",
        3 => "3",
        4 => "4",
        5 => "5",
        6 => "6",
        7 => "7",
        8 => "8",
        _ => "9",
    }
}

fn append_decimal(s: &mut String, n: u8)
    ensures
        final(s)@ == old(s)@ + decimal(n as nat),
{
    let units = n % 10;
    let tens = (n / 10) % 10;
    let hundreds = n / 100;
    if n >= 100 {
        s.append(digit_str(hundreds));
    }
    if n >= 10 {
        s.append(digit_str(tens));
    }
    s.append(digit_str(units));
    proof {
        reveal_with_fuel(decimal, 3);
        if n >= 100 {
            assert(decimal((n / 10) as nat) == decimal((n / 100) as nat).push(digit_char(tens as nat)));
        }
        assert(old(s)@ + decimal(n as nat) =~= final(s)@);
    }
}

/// The address of page `page_id` of the roster of `event_id`.
pub fn attendees_url(event_id: &str, token: &str, page_id: u8) -> (r: String)
    ensures
        r@ == attendees_url_spec(event_id@, token@, page_id),
{
    let mut url = String::from_str("https://www.eventbriteapi.com");
    url.append("/v3/events/");
    url.append(event_id);
    url.append("/attendees/?token=");
    url.append(token);
    url.append("&page=");
    append_decimal(&mut url, page_id);
    url
}

/// The address of the date-sorted event search of `organizer`.
pub fn events_url(organizer: &str, token: &str) -> (r: String)
    ensures
        r@ == events_url_spec(organizer@, token@),
{
    let mut url = String::from_str("https://www.eventbriteapi.com");
    url.append("/v3/events/search/?sort_by=date&organizer.id=");
    url.append(organizer);
    url.append("&token=");
    url.append(token);
    url
}

/// The values of `s` in order if every entry is `Ok`, else the first error.
pub open spec fn sequence_spec<R, E>(s: Seq<Result<R, E>>) -> Result<Seq<R>, E>
    decreases s.len(),
{
    if s.len() == 0 {
        Ok(Seq::empty())
    } else {
        match sequence_spec(s.drop_last()) {
            Err(e) => Err(e),
            Ok(v) => match s.last() {
                Ok(x) => Ok(v.push(x)),
                Err(e) => Err(e),
            },
        }
    }
}

/// Turns a sequence of results into the result of a sequence: all the values
/// in order when every entry succeeded, otherwise the first failure in order.
pub fn sequence<R, E>(results: Vec<Result<R, E>>) -> (r: Result<Vec<R>, E>)
    ensures
        r is Ok ==> sequence_spec(results@) == Ok::<Seq<R>, E>(r->Ok_0@),
        r is Err ==> sequence_spec(results@) == Err::<Seq<R>, E>(r->Err_0),
{
    let ghost all = results@;
    let n: usize = results.len();
    let mut rest = results;
    let mut values: Vec<R> = Vec::new();
    let mut i: usize = 0;
    while rest.len() > 0
        invariant
            i + rest@.len() == all.len(),
            all.len() == n,
            all == results@,
            rest@ == all.skip(i as int),
            sequence_spec(all.take(i as int)) == Ok::<Seq<R>, E>(values@),
        decreases rest@.len(),
    {
        let item = rest.remove(0);
        assert(all.take(i + 1).drop_last() =~= all.take(i as int));
        assert(item == all[i as int]);
        i = i + 1;
        match item {
            Ok(x) => {
                values.push(x);
            },
            Err(e) => {
                assert(sequence_spec(all.take(i as int)) == Err::<Seq<R>, E>(e));
                proof {
                    lemma_sequence_err_extends(all, i as int, e);
                    assert(sequence_spec(all) == Err::<Seq<R>, E>(e));
                }
                return Err(e);
            },
        }
        assert(rest@ =~= all.skip(i as int));
    }
    assert(all.take(i as int) =~= all);
    Ok(values)
}

/// Once a prefix of `s` fails, all of `s` fails with the same error.
proof fn lemma_sequence_err_extends<R, E>(s: Seq<Result<R, E>>, i: int, e: E)
    requires
        0 < i <= s.len(),
        sequence_spec(s.take(i)) == Err::<Seq<R>, E>(e),
    ensures
        sequence_spec(s) == Err::<Seq<R>, E>(e),
    decreases s.len() - i,
{
    if i < s.len() {
        assert(s.take(i + 1).drop_last() =~= s.take(i));
        lemma_sequence_err_extends(s, i + 1, e);
    } else {
        assert(s.take(i) =~= s);
    }
}

/// What resolving the current event from a search answer gives.
pub open spec fn current_event_spec(response: Result<EventsResponse, FetchError>) -> Result<
    Event,
    LoadError,
> {
    match response {
        Err(cause) => Err(LoadError::Unexpected { cause }),
        Ok(found) => if found.events@.len() > 0 {
            Ok(found.events@[0])
        } else {
            Err(LoadError::Eventbrite { error: EventbriteError::NoEventAvailable })
        },
    }
}

/// The current event of a search answer: its first event.
pub fn first_event(events: EventsResponse) -> (r: Result<Event, EventbriteError>)
    ensures
        events.events@.len() > 0 ==> r == Ok::<Event, EventbriteError>(events.events@[0]),
        events.events@.len() == 0 ==> r == Err::<Event, EventbriteError>(
            EventbriteError::NoEventAvailable,
        ),
{
    let mut found = events.events;
    if found.len() == 0 {
        Err(EventbriteError::NoEventAvailable)
    } else {
        Ok(found.remove(0))
    }
}

/// Resolves the current event from the answer to the event search: a failed
/// search is an unclassified failure, an empty one means no event.
pub fn get_current_event(response: Result<EventsResponse, FetchError>) -> (r: Result<
    Event,
    LoadError,
>)
    ensures
        r == current_event_spec(response),
{
    match response {
        Err(cause) => Err(LoadError::Unexpected { cause }),
        Ok(found) => match first_event(found) {
            Ok(event) => Ok(event),
            Err(error) => Err(LoadError::Eventbrite { error }),
        },
    }
}

/// Searches the events of `organizer` through `fetch` and resolves the current one.
pub fn fetch_first_event<F: Fn(&str, &str) -> Result<EventsResponse, FetchError>>(
    fetch: F,
    organizer: &str,
    token: &str,
) -> (r: Result<Event, LoadError>)
    requires
        fetch.requires((organizer, token)),
    ensures
        exists|response: Result<EventsResponse, FetchError>|
            #![trigger current_event_spec(response)]
            fetch.ensures((organizer, token), response) && r == current_event_spec(response),
{
    let response = fetch(organizer, token);
    get_current_event(response)
}

/// Number of pages of a roster, by the metadata of its first page; a page
/// count of zero counts as one page.
pub open spec fn page_total(p: Pagination) -> nat {
    if p.page_count == 0 {
        1
    } else {
        p.page_count as nat
    }
}

/// The profiles of all pages, concatenated in page order.
pub open spec fn roster_of(pages: Seq<AttendeesResponse>) -> Seq<Profile>
    decreases pages.len(),
{
    if pages.len() == 0 {
        Seq::empty()
    } else {
        roster_of(pages.drop_last()) + page_profiles(pages.last())
    }
}

/// `r` is what combining the fetched `pages` of the roster of `event_id`
/// gives: the concatenated roster when every page came, else the first
/// failure in page order, tagged with the event.
pub open spec fn roster_result(
    event_id: Seq<char>,
    pages: Seq<Result<AttendeesResponse, FetchError>>,
    r: Result<Vec<Profile>, EventbriteError>,
) -> bool {
    match sequence_spec(pages) {
        Ok(fetched) => r is Ok && r->Ok_0@ == roster_of(fetched),
        Err(cause) => match r {
            Err(EventbriteError::AttendeesLoadError { event_id: id, cause: c }) => id@ == event_id
                && c == cause,
            _ => false,
        },
    }
}

/// Combines the fetched pages of the roster of `event_id`, given in page
/// order: the concatenation of their attendees' profiles when every fetch
/// succeeded, else the first failure in page order, tagged with the event.
pub fn load_attendees(event_id: &str, pages: Vec<Result<AttendeesResponse, FetchError>>) -> (r:
    Result<Vec<Profile>, EventbriteError>)
    ensures
        roster_result(event_id@, pages@, r),
{
    match sequence(pages) {
        Err(cause) => Err(
            EventbriteError::AttendeesLoadError { event_id: String::from_str(event_id), cause },
        ),
        Ok(fetched) => {
            let mut roster: Vec<Profile> = Vec::new();
            let mut i: usize = 0;
            while i < fetched.len()
                invariant
                    i <= fetched@.len(),
                    roster@ == roster_of(fetched@.take(i as int)),
                decreases fetched@.len() - i,
            {
                let page = &fetched[i];
                let ghost before = roster@;
                let mut j: usize = 0;
                while j < page.attendees.len()
                    invariant
                        j <= page.attendees@.len(),
                        roster@ == before + page_profiles(*page).take(j as int),
                    decreases page.attendees@.len() - j,
                {
                    roster.push(page.attendees[j].profile.duplicate());
                    assert(page_profiles(*page).take(j + 1) =~= page_profiles(*page).take(
                        j as int,
                    ).push(page.attendees@[j as int].profile));
                    j = j + 1;
                }
                assert(page_profiles(*page).take(j as int) =~= page_profiles(*page));
                assert(fetched@.take(i + 1).drop_last() =~= fetched@.take(i as int));
                i = i + 1;
            }
            assert(fetched@.take(i as int) =~= fetched@);
            Ok(roster)
        },
    }
}

/// `pages` is a possible trace of the fetches of the roster of `event_id`:
/// page 0 first, then, when it came, every further page that it announces.
pub open spec fn fetch_trace<F: Fn(&str, &str, u8) -> Result<AttendeesResponse, FetchError>>(
    fetch: F,
    event_id: &str,
    token: &str,
    pages: Seq<Result<AttendeesResponse, FetchError>>,
) -> bool {
    &&& pages.len() >= 1
    &&& forall|i: int| 0 <= i < pages.len() ==> fetch.ensures((event_id, token, i as u8), #[trigger] pages[i])
    &&& match pages[0] {
        Ok(first) => pages.len() == page_total(first.pagination),
        Err(_) => pages.len() == 1,
    }
}

/// Fetches every page of the roster of `event_id` through `fetch` and combines
/// them. Page 0 comes first; when it fails, nothing more is fetched. Else all
/// the further pages it announces are fetched before any failure is looked at,
/// and the first failure in page order is returned.
pub fn fetch_all_attendees<F: Fn(&str, &str, u8) -> Result<AttendeesResponse, FetchError>>(
    fetch: F,
    event_id: &str,
    token: &str,
) -> (r: Result<Vec<Profile>, EventbriteError>)
    requires
        forall|p: u8| fetch.requires((event_id, token, p)),
    ensures
        exists|pages: Seq<Result<AttendeesResponse, FetchError>>|
            #![trigger roster_result(event_id@, pages, r)]
            fetch_trace(fetch, event_id, token, pages) && roster_result(event_id@, pages, r),
{
    let first = fetch(event_id, token, 0);
    let total: u8 = match &first {
        Ok(page) => if page.pagination.page_count == 0 {
            1
        } else {
            page.pagination.page_count
        },
        Err(_) => 1,
    };
    let mut pages: Vec<Result<AttendeesResponse, FetchError>> = Vec::new();
    pages.push(first);
    let mut p: u8 = 1;
    while p < total
        invariant
            1 <= p <= total,
            pages@.len() == p,
            1 <= total,
            forall|i: int| 0 <= i < pages@.len() ==> fetch.ensures((event_id, token, i as u8), #[trigger] pages@[i]),
            match pages@[0] {
                Ok(first) => total == page_total(first.pagination),
                Err(_) => total == 1,
            },
            forall|q: u8| fetch.requires((event_id, token, q)),
        decreases total - p,
    {
        let page = fetch(event_id, token, p);
        let ghost before = pages@;
        pages.push(page);
        assert(pages@[0] == before[0]);
        p = p + 1;
    }
    let ghost trace = pages@;
    let r = load_attendees(event_id, pages);
    assert(fetch_trace(fetch, event_id, token, trace));
    r
}

} // verus!
