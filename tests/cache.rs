use lottery::eventbrite::{assemble_attendees, first_event, next_pages, Attendee, AttendeesResponse, Event, EventbriteError, Pagination, Profile};
use lottery::lottery::DrawError;
use lottery::lotterycache::{GetAttendees, GetEvent, LotteryCache, LotteryError, RefreshScheduler, TickAction, UpdateAttendeesResponse};
use lottery::web::error_status;

fn profile(first: &str, last: &str) -> Profile {
    Profile { first_name: first.to_string(), last_name: last.to_string() }
}

fn event(id: &str) -> Event {
    Event { id: id.to_string(), status: "live".to_string() }
}

fn page(names: &[(&str, &str)], page_number: u8, page_count: u8) -> AttendeesResponse {
    AttendeesResponse {
        attendees: names.iter().map(|(f, l)| Attendee { profile: profile(f, l) }).collect(),
        pagination: Pagination { object_count: 2, page_count, page_size: 1, page_number },
    }
}

fn populated() -> LotteryCache {
    let mut cache = LotteryCache::new();
    cache.apply(Ok((event("old"), vec![profile("Ada", "Lovelace")])));
    cache
}

#[test]
fn new_cache_is_absent() {
    let cache = LotteryCache::default();
    assert!(cache.attendees().is_none());
    assert!(cache.event().is_none());
    assert_eq!(cache.draw(&GetAttendees { nb: 1 }), Err(LotteryError::NoEventAvailable));
    assert_eq!(cache.current_event(&GetEvent {}), Err(LotteryError::NoEventAvailable));
}

#[test]
fn success_replaces_the_cache() {
    let mut cache = populated();
    let r = cache.apply(Ok((event("new"), vec![profile("Alan", "Turing"), profile("Grace", "Hopper")])));
    assert_eq!(r, UpdateAttendeesResponse::Updated);
    assert_eq!(cache.attendees(), &Some(vec![profile("Alan", "Turing"), profile("Grace", "Hopper")]));
    assert_eq!(cache.current_event(&GetEvent {}), Ok(event("new")));
}

#[test]
fn no_event_clears_the_cache() {
    let mut cache = populated();
    let r = cache.apply(Err(EventbriteError::NoEventAvailable));
    assert_eq!(r, UpdateAttendeesResponse::NoEventAvailable);
    assert!(cache.attendees().is_none());
    assert!(cache.event().is_none());
}

#[test]
fn transient_failure_keeps_the_cache() {
    let mut cache = populated();
    let r = cache.apply(Err(EventbriteError::NetworkError));
    assert_eq!(r, UpdateAttendeesResponse::EventbriteError { error: EventbriteError::NetworkError });
    assert_eq!(cache.attendees(), &Some(vec![profile("Ada", "Lovelace")]));
    let r = cache.apply(Err(EventbriteError::RemoteError));
    assert_eq!(r, UpdateAttendeesResponse::EventbriteError { error: EventbriteError::RemoteError });
    assert_eq!(cache.current_event(&GetEvent {}), Ok(event("old")));
}

#[test]
fn scheduler_skips_ticks_during_a_cycle() {
    let mut scheduler = RefreshScheduler::new();
    let mut cache = LotteryCache::new();
    assert!(!scheduler.is_refreshing());
    assert_eq!(scheduler.tick(), TickAction::Refresh);
    assert_eq!(scheduler.tick(), TickAction::Skip);
    let r = scheduler.complete(&mut cache, Ok((event("e"), vec![profile("Ada", "Lovelace")])));
    assert_eq!(r, UpdateAttendeesResponse::Updated);
    assert!(!scheduler.is_refreshing());
    assert_eq!(scheduler.tick(), TickAction::Refresh);
    scheduler.abandon();
    assert!(!scheduler.is_refreshing());
}

#[test]
fn scenario_one_live_event_two_pages() {
    let current = first_event(vec![event("ev")]).unwrap();
    let first = page(&[("Ada", "Lovelace")], 0, 2);
    let pages = next_pages(&first.pagination);
    assert_eq!(pages, vec![2]);
    let rest = vec![Ok(page(&[("Alan", "Turing")], 1, 2))];
    let attendees = assemble_attendees(&first, &rest).unwrap();
    assert_eq!(attendees.len(), 2);

    let mut scheduler = RefreshScheduler::new();
    let mut cache = LotteryCache::new();
    assert_eq!(scheduler.tick(), TickAction::Refresh);
    scheduler.complete(&mut cache, Ok((current, attendees.clone())));

    let one = cache.draw(&GetAttendees { nb: 1 }).unwrap();
    assert_eq!(one.len(), 1);
    assert!(attendees.contains(&one[0]));
    let err = cache.draw(&GetAttendees { nb: 3 }).unwrap_err();
    assert_eq!(err, LotteryError::DrawError { cause: DrawError::NotEnoughParticipants { asked: 3, existing: 2 } });
    assert_eq!(error_status(&err), 400);
}

#[test]
fn scenario_no_live_event() {
    let mut scheduler = RefreshScheduler::new();
    let mut cache = populated();
    assert_eq!(scheduler.tick(), TickAction::Refresh);
    let outcome = first_event(Vec::new()).map(|e| (e, Vec::new()));
    assert_eq!(outcome.clone().err(), Some(EventbriteError::NoEventAvailable));
    scheduler.complete(&mut cache, outcome);
    assert!(cache.attendees().is_none());
    let err = cache.draw(&GetAttendees { nb: 1 }).unwrap_err();
    assert_eq!(err, LotteryError::NoEventAvailable);
    assert_eq!(error_status(&err), 503);
}

#[test]
fn statuses_of_errors() {
    assert_eq!(error_status(&LotteryError::DrawError { cause: DrawError::InvalidDrawRequest { asked: -1 } }), 400);
    assert_eq!(error_status(&LotteryError::NoEventAvailable), 503);
    assert_eq!(error_status(&LotteryError::LockError), 500);
}

#[test]
fn cache_draw_maps_draw_errors() {
    let cache = populated();
    assert_eq!(
        cache.draw(&GetAttendees { nb: -2 }),
        Err(LotteryError::DrawError { cause: DrawError::InvalidDrawRequest { asked: -2 } })
    );
    assert_eq!(cache.draw(&GetAttendees { nb: 0 }), Ok(Vec::new()));
    assert_eq!(cache.draw(&GetAttendees { nb: 1 }), Ok(vec![profile("Ada", "Lovelace")]));
}
