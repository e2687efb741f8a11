//! Attendee lottery: draws random winners among the attendees of the current
//! live event of an organizer, from a cache that a scheduler keeps fresh.
use vstd::prelude::*;

pub mod basics;
pub mod eventbrite;
pub mod lottery;
pub mod lotterycache;
pub mod web;

verus! {

} // verus!
