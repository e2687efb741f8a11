//! The ticketing provider's data: events, attendees and pagination, how the
//! current event is chosen and how the pages of an attendee list are put
//! together.
use vstd::prelude::*;

verus! {

/// Root of the provider's REST API.
pub const EVENTBRITE_BASE_URL: &'static str = "https://www.eventbriteapi.com";

/// The decimal digits, in order.
pub const DIGITS: &'static str = "0123456789";

/// Decimal writing of `n`, without leading zeros.
pub open spec fn decimal(n: nat) -> Seq<char>
    decreases n,
{
    if n < 10 {
        seq![DIGITS@[n as int]]
    } else {
        decimal(n / 10) + seq![DIGITS@[(n % 10) as int]]
    }
}

/// Address of the organizer's live events, most recent start first.
pub open spec fn events_url_of(organizer: Seq<char>, token: Seq<char>) -> Seq<char> {
    EVENTBRITE_BASE_URL@ + "/v3/organizations/"@ + organizer
        + "/events/?status=live&order_by=start_desc&token="@ + token
}

/// Address of one page (counted from one) of an event's attendee list.
pub open spec fn attendees_url_of(event_id: Seq<char>, token: Seq<char>, page: nat) -> Seq<char> {
    EVENTBRITE_BASE_URL@ + "/v3/events/"@ + event_id + "/attendees/?token="@ + token + "&page="@
        + decimal(page)
}

/// Appends the decimal writing of `n` to `s`.
fn push_decimal(s: &mut String, n: u8)
    ensures
        final(s)@ == old(s)@ + decimal(n as nat),
{
    proof {
        reveal_with_fuel(decimal, 3);
        reveal_strlit("0123456789");
        assert(DIGITS@.len() == 10);
    }
    if n >= 100 {
        let d: usize = (n / 100) as usize;
        s.append(DIGITS.substring_char(d, d + 1));
    }
    if n >= 10 {
        let d: usize = ((n / 10) % 10) as usize;
        s.append(DIGITS.substring_char(d, d + 1));
    }
    let d: usize = (n % 10) as usize;
    s.append(DIGITS.substring_char(d, d + 1));
    proof {
        let n = n as nat;
        if n >= 100 {
            assert(n / 10 / 10 == n / 100);
            assert(n / 10 % 10 == (n / 10) % 10);
            assert(decimal(n / 10) == decimal(n / 100) + seq![DIGITS@[((n / 10) % 10) as int]]);
        }
        assert(old(s)@ + decimal(n) =~= final(s)@);
    }
}

/// Pagination metadata of one page of an attendee list.
#[derive(Clone, Copy, Debug, PartialEq, Eq, Structural)]
pub struct Pagination {
    pub object_count: u8,
    pub page_count: u8,
    pub page_size: u8,
    pub page_number: u8,
}

/// An attendee's name pair: the unit handed out as a winner.
#[derive(Clone, Debug, Eq)]
pub struct Profile {
    pub first_name: String,
    pub last_name: String,
}

/// What a profile holds, as text.
pub struct ProfileView {
    pub first_name: Seq<char>,
    pub last_name: Seq<char>,
}

impl View for Profile {
    type V = ProfileView;

    open spec fn view(&self) -> ProfileView {
        ProfileView { first_name: self.first_name@, last_name: self.last_name@ }
    }
}

impl PartialEq for Profile {
    fn eq(&self, o: &Profile) -> (r: bool)
        ensures
            r == (self@ == o@),
    {
        self.first_name == o.first_name && self.last_name == o.last_name
    }
}

impl vstd::std_specs::cmp::PartialEqSpecImpl for Profile {
    open spec fn obeys_eq_spec() -> bool {
        true
    }

    open spec fn eq_spec(&self, o: &Profile) -> bool {
        self@ == o@
    }
}

impl Profile {
    /// An independent copy of this profile.
    pub fn copy(&self) -> (r: Profile)
        ensures
            r@ == self@,
    {
        Profile { first_name: self.first_name.clone(), last_name: self.last_name.clone() }
    }
}

/// The views of a sequence of profiles.
pub open spec fn profiles_view(v: Seq<Profile>) -> Seq<ProfileView> {
    v.map_values(|p: Profile| p@)
}

/// One attendee entry of an attendee list page.
#[derive(Clone, Debug)]
pub struct Attendee {
    pub profile: Profile,
}

/// One page of an event's attendee list.
#[derive(Clone, Debug)]
pub struct AttendeesResponse {
    pub attendees: Vec<Attendee>,
    pub pagination: Pagination,
}

/// An event of the organizer.
#[derive(Clone, Debug)]
pub struct Event {
    pub id: String,
    pub status: String,
}

/// What an event holds, as text.
pub struct EventView {
    pub id: Seq<char>,
    pub status: Seq<char>,
}

impl View for Event {
    type V = EventView;

    open spec fn view(&self) -> EventView {
        EventView { id: self.id@, status: self.status@ }
    }
}

impl PartialEq for Event {
    fn eq(&self, o: &Event) -> (r: bool)
        ensures
            r == (self@ == o@),
    {
        self.id == o.id && self.status == o.status
    }
}

impl vstd::std_specs::cmp::PartialEqSpecImpl for Event {
    open spec fn obeys_eq_spec() -> bool {
        true
    }

    open spec fn eq_spec(&self, o: &Event) -> bool {
        self@ == o@
    }
}

impl Event {
    /// An independent copy of this event.
    pub fn copy(&self) -> (r: Event)
        ensures
            r@ == self@,
    {
        Event { id: self.id.clone(), status: self.status.clone() }
    }
}

/// The organizer's live events, most recent start first.
#[derive(Clone, Debug)]
pub struct EventsResponse {
    pub events: Vec<Event>,
}

/// Why the provider gave no usable answer.
#[derive(Clone, Copy, Debug, PartialEq, Eq, Structural)]
pub enum EventbriteError {
    /// The organizer has no live event: a state of the provider, not a fault.
    NoEventAvailable,
    /// The provider answered with a failure status or a malformed payload.
    RemoteError,
    /// The provider could not be reached.
    NetworkError,
}

/// Address of the organizer's live events, most recent start first.
pub fn events_url(organizer: &str, token: &str) -> (r: String)
    ensures
        r@ == events_url_of(organizer@, token@),
{
    let mut s = String::from_str(EVENTBRITE_BASE_URL);
    s.append("/v3/organizations/");
    s.append(organizer);
    s.append("/events/?status=live&order_by=start_desc&token=");
    s.append(token);
    proof {
        assert(s@ =~= events_url_of(organizer@, token@));
    }
    s
}

/// Address of page `page_id` (counted from one) of an event's attendee list.
pub fn attendees_url(event_id: &str, token: &str, page_id: u8) -> (r: String)
    ensures
        r@ == attendees_url_of(event_id@, token@, page_id as nat),
{
    let mut s = String::from_str(EVENTBRITE_BASE_URL);
    s.append("/v3/events/");
    s.append(event_id);
    s.append("/attendees/?token=");
    s.append(token);
    s.append("&page=");
    push_decimal(&mut s, page_id);
    proof {
        assert(s@ =~= attendees_url_of(event_id@, token@, page_id as nat));
    }
    s
}

/// Chooses the current event: the first of the live events, which come most
/// recent start first.
pub fn first_event(events: Vec<Event>) -> (r: Result<Event, EventbriteError>)
    ensures
        events@.len() == 0 ==> r == Err::<Event, EventbriteError>(EventbriteError::NoEventAvailable),
        events@.len() > 0 ==> r == Ok::<Event, EventbriteError>(events@[0]),
{
    let mut events = events;
    if events.len() == 0 {
        Err(EventbriteError::NoEventAvailable)
    } else {
        Ok(events.remove(0))
    }
}

/// Request numbers (counted from one) of the pages that follow the first page,
/// whose metadata is `p`: pages 2 to `page_count`, none when there is a single
/// page. The first page is always fetched on its own, so `page_number` (counted
/// from zero by the provider) plays no part.
pub open spec fn following_pages(p: Pagination) -> Seq<u8> {
    let n: nat = if p.page_count > 1 {
        (p.page_count - 1) as nat
    } else {
        0
    };
    Seq::new(n, |i: int| (i + 2) as u8)
}

/// The profiles of one page, in order.
pub open spec fn page_profiles(page: AttendeesResponse) -> Seq<ProfileView> {
    page.attendees@.map_values(|a: Attendee| a.profile@)
}

/// The profiles of all pages, page after page.
pub open spec fn all_profiles(pages: Seq<AttendeesResponse>) -> Seq<ProfileView>
    decreases pages.len(),
{
    if pages.len() == 0 {
        Seq::empty()
    } else {
        all_profiles(pages.drop_last()) + page_profiles(pages.last())
    }
}

/// The number of attendees over all pages.
pub open spec fn attendee_total(pages: Seq<AttendeesResponse>) -> nat
    decreases pages.len(),
{
    if pages.len() == 0 {
        0
    } else {
        attendee_total(pages.drop_last()) + pages.last().attendees@.len()
    }
}

/// Every fetch of a following page succeeded.
pub open spec fn all_fetched(rest: Seq<Result<AttendeesResponse, EventbriteError>>) -> bool {
    forall|i: int| 0 <= i < rest.len() ==> (#[trigger] rest[i]) is Ok
}

/// `e` is the error of the first failed fetch among `rest`.
pub open spec fn first_failure(rest: Seq<Result<AttendeesResponse, EventbriteError>>, e: EventbriteError) -> bool {
    exists|i: int|
        0 <= i < rest.len() && #[trigger] rest[i] == Err::<AttendeesResponse, EventbriteError>(e)
            && forall|j: int| 0 <= j < i ==> (#[trigger] rest[j]) is Ok
}

/// The first page followed by the pages that the fetches returned.
pub open spec fn pages_of(
    first: AttendeesResponse,
    rest: Seq<Result<AttendeesResponse, EventbriteError>>,
) -> Seq<AttendeesResponse> {
    seq![first] + rest.map_values(|r: Result<AttendeesResponse, EventbriteError>| r->Ok_0)
}

/// Request numbers of the pages to fetch after the first one, whose metadata
/// is `pagination`.
pub fn next_pages(pagination: &Pagination) -> (r: Vec<u8>)
    ensures
        r@ == following_pages(*pagination),
{
    let mut out: Vec<u8> = Vec::new();
    let mut fetched: u8 = 1;
    while fetched < pagination.page_count
        invariant
            1 <= fetched,
            fetched <= pagination.page_count || fetched == 1,
            out@ =~= following_pages(*pagination).subrange(0, fetched - 1),
        decreases pagination.page_count - fetched,
    {
        out.push(fetched + 1);
        fetched = fetched + 1;
    }
    out
}

/// Appends copies of the profiles of `page` to `out`.
fn push_page(out: &mut Vec<Profile>, page: &AttendeesResponse)
    ensures
        profiles_view(final(out)@) == profiles_view(old(out)@) + page_profiles(*page),
{
    let ghost start = out@;
    let mut k: usize = 0;
    while k < page.attendees.len()
        invariant
            k <= page.attendees@.len(),
            out@.len() == start.len() + k,
            profiles_view(out@) =~= profiles_view(start) + page_profiles(*page).subrange(0, k as int),
        decreases page.attendees@.len() - k,
    {
        let ghost before = out@;
        let p = page.attendees[k].profile.copy();
        out.push(p);
        k = k + 1;
        proof {
            let want = profiles_view(start) + page_profiles(*page).subrange(0, k as int);
            assert forall|i: int| 0 <= i < out@.len() implies #[trigger] profiles_view(out@)[i] == want[i] by {
                if i < out@.len() - 1 {
                    assert(out@[i] == before[i]);
                    assert(profiles_view(before)[i] == want[i]);
                }
            }
            assert(profiles_view(out@) =~= want);
        }
    }
    assert(page_profiles(*page).subrange(0, k as int) =~= page_profiles(*page));
}

/// Puts together an event's attendee list from its first page and the results
/// of the fetches of the following pages, in ascending page order. If any
/// fetch failed, the result is the error of the first failed one and no list.
pub fn assemble_attendees(
    first: &AttendeesResponse,
    rest: &Vec<Result<AttendeesResponse, EventbriteError>>,
) -> (r: Result<Vec<Profile>, EventbriteError>)
    ensures
        all_fetched(rest@) ==> r is Ok && profiles_view(r->Ok_0@) == all_profiles(pages_of(*first, rest@))
            && r->Ok_0@.len() == attendee_total(pages_of(*first, rest@)),
        !all_fetched(rest@) ==> r is Err && first_failure(rest@, r->Err_0),
{
    let mut i: usize = 0;
    while i < rest.len()
        invariant
            i <= rest@.len(),
            forall|j: int| 0 <= j < i ==> (#[trigger] rest@[j]) is Ok,
        decreases rest@.len() - i,
    {
        match &rest[i] {
            Ok(_) => {},
            Err(e) => {
                assert(rest@[i as int] == Err::<AttendeesResponse, EventbriteError>(*e));
                return Err(*e);
            },
        }
        i = i + 1;
    }
    let ghost pages = pages_of(*first, rest@);
    let mut out: Vec<Profile> = Vec::new();
    assert(profiles_view(out@) =~= Seq::<ProfileView>::empty());
    push_page(&mut out, first);
    proof {
        assert(pages.subrange(0, 1).drop_last() =~= Seq::<AttendeesResponse>::empty());
        assert(pages.subrange(0, 1).last() == *first);
        assert(all_profiles(Seq::<AttendeesResponse>::empty()) =~= Seq::<ProfileView>::empty());
        assert(all_profiles(pages.subrange(0, 1)) == all_profiles(pages.subrange(0, 1).drop_last())
            + page_profiles(*first));
        assert(profiles_view(out@) =~= all_profiles(pages.subrange(0, 1)));
    }
    let mut k: usize = 0;
    while k < rest.len()
        invariant
            k <= rest@.len(),
            all_fetched(rest@),
            pages == pages_of(*first, rest@),
            profiles_view(out@) == all_profiles(pages.subrange(0, k + 1)),
        decreases rest@.len() - k,
    {
        match &rest[k] {
            Ok(page) => {
                push_page(&mut out, page);
                proof {
                    assert(pages.subrange(0, k + 2).drop_last() =~= pages.subrange(0, k + 1));
                    assert(pages[k + 1] == *page);
                }
            },
            Err(_) => {
                assert(rest@[k as int] is Ok);
            },
        }
        k = k + 1;
    }
    assert(pages.subrange(0, k + 1) =~= pages);
    proof {
        lemma_assembled_length(*first, rest@);
        assert(profiles_view(out@).len() == out@.len());
    }
    Ok(out)
}

/// The assembled list holds as many profiles as all pages together.
pub proof fn lemma_assembled_length(
    first: AttendeesResponse,
    rest: Seq<Result<AttendeesResponse, EventbriteError>>,
)
    ensures
        all_profiles(pages_of(first, rest)).len() == attendee_total(pages_of(first, rest)),
{
    lemma_all_profiles_length(pages_of(first, rest));
}

proof fn lemma_all_profiles_length(pages: Seq<AttendeesResponse>)
    ensures
        all_profiles(pages).len() == attendee_total(pages),
    decreases pages.len(),
{
    if pages.len() > 0 {
        lemma_all_profiles_length(pages.drop_last());
    }
}

} // verus!
