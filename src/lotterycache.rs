//! The cache of the current event's attendees, the policy by which a refresh
//! cycle changes it, and the state of the scheduler that runs those cycles.
use vstd::prelude::*;
use crate::eventbrite::{Event, EventView, EventbriteError, Profile, ProfileView, profiles_view};
use crate::lottery::{DrawError, draw, draw_error, is_draw};

verus! {

/// Why a query on the cache failed.
#[derive(Clone, Copy, Debug, PartialEq, Eq, Structural)]
pub enum LotteryError {
    /// The draw itself was refused.
    DrawError { cause: DrawError },
    /// No attendee list is cached: none was loaded yet, or no event is live.
    NoEventAvailable,
    /// The cache could not be read.
    LockError,
}

/// The attendee list of the current event, and that event, if any.
/// Both are present or both absent.
pub struct LotteryCache {
    attendees: Option<Vec<Profile>>,
    event: Option<Event>,
}

/// What the cache holds.
pub struct CacheView {
    pub attendees: Option<Seq<ProfileView>>,
    pub event: Option<EventView>,
}

/// The view of an optional attendee list.
pub open spec fn snapshot_view(a: Option<Vec<Profile>>) -> Option<Seq<ProfileView>> {
    match a {
        Some(v) => Some(profiles_view(v@)),
        None => None,
    }
}

/// The view of an optional event.
pub open spec fn event_view(e: Option<Event>) -> Option<EventView> {
    match e {
        Some(e) => Some(e@),
        None => None,
    }
}

impl View for LotteryCache {
    type V = CacheView;

    closed spec fn view(&self) -> CacheView {
        CacheView { attendees: snapshot_view(self.attendees), event: event_view(self.event) }
    }
}

/// Asks for a refresh of the cache from the events of `organizer`.
pub struct UpdateAttendees {
    pub organizer: String,
    pub token: String,
}

/// What a refresh cycle did to the cache.
#[derive(Clone, Copy, Debug, PartialEq, Eq, Structural)]
pub enum UpdateAttendeesResponse {
    /// The cache now holds the new attendee list.
    Updated,
    /// No event is live: the cache was cleared.
    NoEventAvailable,
    /// The provider failed: the cache was left as it was.
    EventbriteError { error: EventbriteError },
}

/// Asks for `nb` winners.
#[derive(Clone, Copy, Debug, PartialEq, Eq, Structural)]
pub struct GetAttendees {
    pub nb: i8,
}

/// Asks for the current event.
#[derive(Clone, Copy, Debug, PartialEq, Eq, Structural)]
pub struct GetEvent {}

impl LotteryCache {
    /// Both parts are present, or both absent.
    pub closed spec fn wf(&self) -> bool {
        self.attendees is Some <==> self.event is Some
    }

    /// An empty cache: nothing loaded yet.
    pub fn new() -> (r: LotteryCache)
        ensures
            r.wf(),
            r@.attendees is None,
            r@.event is None,
    {
        LotteryCache { attendees: None, event: None }
    }

    /// The cached attendee list, if any.
    pub fn attendees(&self) -> (r: &Option<Vec<Profile>>)
        ensures
            snapshot_view(*r) == self@.attendees,
    {
        &self.attendees
    }

    /// The cached event, if any.
    pub fn event(&self) -> (r: &Option<Event>)
        ensures
            event_view(*r) == self@.event,
    {
        &self.event
    }

    /// Applies the outcome of a refresh cycle. A new attendee list replaces
    /// the cached one whole; an absent live event clears the cache; a failure
    /// of the provider leaves it as it was.
    pub fn apply(&mut self, outcome: Result<(Event, Vec<Profile>), EventbriteError>) -> (r:
        UpdateAttendeesResponse)
        requires
            old(self).wf(),
        ensures
            final(self).wf(),
            match outcome {
                Ok((e, a)) => final(self)@.attendees == Some(profiles_view(a@))
                    && final(self)@.event == Some(e@) && r == UpdateAttendeesResponse::Updated,
                Err(EventbriteError::NoEventAvailable) => final(self)@.attendees is None
                    && final(self)@.event is None && r == UpdateAttendeesResponse::NoEventAvailable,
                Err(error) => final(self)@ == old(self)@ && r == (UpdateAttendeesResponse::EventbriteError {
                    error,
                }),
            },
    {
        match outcome {
            Ok((event, attendees)) => {
                self.attendees = Some(attendees);
                self.event = Some(event);
                UpdateAttendeesResponse::Updated
            },
            Err(EventbriteError::NoEventAvailable) => {
                self.attendees = None;
                self.event = None;
                UpdateAttendeesResponse::NoEventAvailable
            },
            Err(error) => UpdateAttendeesResponse::EventbriteError { error },
        }
    }

    /// Draws `msg.nb` winners among the cached attendees; fails when nothing
    /// is cached.
    pub fn draw(&self, msg: &GetAttendees) -> (r: Result<Vec<Profile>, LotteryError>)
        ensures
            self@.attendees is None ==> r == Err::<Vec<Profile>, LotteryError>(
                LotteryError::NoEventAvailable,
            ),
            self@.attendees is Some ==> match draw_error(msg.nb, self@.attendees->Some_0.len()) {
                Some(cause) => r == Err::<Vec<Profile>, LotteryError>(LotteryError::DrawError { cause }),
                None => r is Ok && is_draw(
                    profiles_view(r->Ok_0@),
                    self@.attendees->Some_0,
                    msg.nb as nat,
                ),
            },
    {
        match &self.attendees {
            None => Err(LotteryError::NoEventAvailable),
            Some(attendees) => match draw(msg.nb, attendees) {
                Ok(winners) => Ok(winners),
                Err(cause) => Err(LotteryError::DrawError { cause }),
            },
        }
    }

    /// The cached event; fails when nothing is cached.
    pub fn current_event(&self, msg: &GetEvent) -> (r: Result<Event, LotteryError>)
        ensures
            self@.event is None ==> r == Err::<Event, LotteryError>(LotteryError::NoEventAvailable),
            self@.event is Some ==> r is Ok && r->Ok_0@ == self@.event->Some_0,
    {
        match &self.event {
            None => Err(LotteryError::NoEventAvailable),
            Some(event) => Ok(event.copy()),
        }
    }
}

impl Default for LotteryCache {
    fn default() -> (r: LotteryCache)
        ensures
            r.wf(),
            r@.attendees is None,
            r@.event is None,
    {
        LotteryCache::new()
    }
}

/// What to do on a tick of the refresh timer.
#[derive(Clone, Copy, Debug, PartialEq, Eq, Structural)]
pub enum TickAction {
    /// Run a refresh cycle.
    Refresh,
    /// A cycle is still running: let this tick pass.
    Skip,
}

/// Whether a refresh cycle is running. Ticks that come while one runs are
/// skipped, never queued.
#[derive(Clone, Copy, Debug, PartialEq, Eq, Structural)]
pub struct RefreshScheduler {
    refreshing: bool,
}

impl RefreshScheduler {
    /// Whether a refresh cycle is running.
    pub closed spec fn refreshing(&self) -> bool {
        self.refreshing
    }

    /// Idle: no cycle running.
    pub fn new() -> (r: RefreshScheduler)
        ensures
            !r.refreshing(),
    {
        RefreshScheduler { refreshing: false }
    }

    /// Whether a refresh cycle is running.
    pub fn is_refreshing(&self) -> (r: bool)
        ensures
            r == self.refreshing(),
    {
        self.refreshing
    }

    /// A tick of the timer: starts a cycle when idle, skips it otherwise.
    pub fn tick(&mut self) -> (r: TickAction)
        ensures
            final(self).refreshing(),
            r == (if old(self).refreshing() {
                TickAction::Skip
            } else {
                TickAction::Refresh
            }),
    {
        if self.refreshing {
            TickAction::Skip
        } else {
            self.refreshing = true;
            TickAction::Refresh
        }
    }

    /// Ends the running cycle by applying its outcome to `cache`, as
    /// `LotteryCache::apply` does.
    pub fn complete(
        &mut self,
        cache: &mut LotteryCache,
        outcome: Result<(Event, Vec<Profile>), EventbriteError>,
    ) -> (r: UpdateAttendeesResponse)
        requires
            old(cache).wf(),
        ensures
            !final(self).refreshing(),
            final(cache).wf(),
            match outcome {
                Ok((e, a)) => final(cache)@.attendees == Some(profiles_view(a@))
                    && final(cache)@.event == Some(e@) && r == UpdateAttendeesResponse::Updated,
                Err(EventbriteError::NoEventAvailable) => final(cache)@.attendees is None
                    && final(cache)@.event is None && r == UpdateAttendeesResponse::NoEventAvailable,
                Err(error) => final(cache)@ == old(cache)@ && r == (UpdateAttendeesResponse::EventbriteError {
                    error,
                }),
            },
    {
        let r = cache.apply(outcome);
        self.refreshing = false;
        r
    }

    /// Ends the running cycle without touching the cache, as when the cache
    /// could not be written.
    pub fn abandon(&mut self)
        ensures
            !final(self).refreshing(),
    {
        self.refreshing = false;
    }
}

} // verus!
