//! Drawing winners: a uniform sample without replacement from a list of
//! attendees, with a closed set of errors.
use vstd::prelude::*;
use crate::eventbrite::{Profile, ProfileView, profiles_view};

verus! {

/// Why a draw was refused.
#[derive(Clone, Copy, Debug, PartialEq, Eq, Structural)]
pub enum DrawError {
    /// A negative number of winners was asked for.
    InvalidDrawRequest { asked: i8 },
    /// More winners were asked for than there are attendees.
    NotEnoughParticipants { asked: i8, existing: usize },
}

/// `idx` holds positions of a list of length `len`, each at most once.
pub open spec fn distinct_indices(idx: Seq<usize>, len: nat) -> bool {
    &&& forall|i: int| 0 <= i < idx.len() ==> (#[trigger] idx[i]) < len
    &&& forall|i: int, j: int|
        0 <= i < idx.len() && 0 <= j < idx.len() && i != j ==> #[trigger] idx[i] != #[trigger] idx[j]
}

/// The entries of `src` at the positions `idx`, in that order.
pub open spec fn picked(src: Seq<ProfileView>, idx: Seq<usize>) -> Seq<ProfileView> {
    idx.map_values(|i: usize| src[i as int])
}

/// `out` is made of `n` entries of `src` taken at `n` distinct positions.
pub open spec fn is_draw(out: Seq<ProfileView>, src: Seq<ProfileView>, n: nat) -> bool {
    exists|idx: Seq<usize>|
        idx.len() == n && distinct_indices(idx, src.len()) && #[trigger] picked(src, idx) == out
}

/// A draw of `n` winners gives `n` entries, each of them found in the list it
/// was drawn from, and none twice unless the list itself repeats an entry.
pub proof fn lemma_draw_members(out: Seq<ProfileView>, src: Seq<ProfileView>, n: nat)
    requires
        is_draw(out, src, n),
    ensures
        out.len() == n,
        forall|i: int| 0 <= i < out.len() ==> src.contains(#[trigger] out[i]),
        src.no_duplicates() ==> out.no_duplicates(),
{
    let idx = choose|idx: Seq<usize>|
        idx.len() == n && distinct_indices(idx, src.len()) && #[trigger] picked(src, idx) == out;
    assert forall|i: int| 0 <= i < out.len() implies src.contains(#[trigger] out[i]) by {
        assert(out[i] == src[idx[i] as int]);
    }
    if src.no_duplicates() {
        assert forall|i: int, j: int| 0 <= i < out.len() && 0 <= j < out.len() && i != j implies out[i]
            != out[j] by {
            assert(out[i] == src[idx[i] as int]);
            assert(out[j] == src[idx[j] as int]);
            assert(idx[i] != idx[j]);
        }
    }
}

/// The error that a draw of `nb` winners among `n` attendees gives, if any.
pub open spec fn draw_error(nb: i8, n: nat) -> Option<DrawError> {
    if nb < 0 {
        Some(DrawError::InvalidDrawRequest { asked: nb })
    } else if nb > n {
        Some(DrawError::NotEnoughParticipants { asked: nb, existing: n as usize })
    } else {
        None
    }
}

/// Relies on rand::seq::index::sample with rand::thread_rng: exactly `amount`
/// distinct indices from `0..length`, in random order. It panics when
/// `amount > length`.
#[verifier::external_body]
fn sample_indices(length: usize, amount: usize) -> (r: Vec<usize>)
    requires
        amount <= length,
    ensures
        r@.len() == amount,
        distinct_indices(r@, length as nat),
{
    rand::seq::index::sample(&mut rand::thread_rng(), length, amount).into_vec()
}

/// Copies of the attendees found at the positions `indices`, in that order.
pub fn pick(attendees: &Vec<Profile>, indices: &Vec<usize>) -> (r: Vec<Profile>)
    requires
        forall|i: int| 0 <= i < indices@.len() ==> (#[trigger] indices@[i]) < attendees@.len(),
    ensures
        profiles_view(r@) == picked(profiles_view(attendees@), indices@),
{
    let mut out: Vec<Profile> = Vec::new();
    let mut k: usize = 0;
    while k < indices.len()
        invariant
            k <= indices@.len(),
            out@.len() == k,
            forall|i: int| 0 <= i < indices@.len() ==> (#[trigger] indices@[i]) < attendees@.len(),
            profiles_view(out@) == picked(profiles_view(attendees@), indices@.subrange(0, k as int)),
        decreases indices@.len() - k,
    {
        let ghost before = out@;
        let p = attendees[indices[k]].copy();
        out.push(p);
        k = k + 1;
        proof {
            let src = profiles_view(attendees@);
            assert forall|i: int| 0 <= i < k implies #[trigger] profiles_view(out@)[i] == picked(
                src,
                indices@.subrange(0, k as int),
            )[i] by {
                if i < k - 1 {
                    assert(out@[i] == before[i]);
                    assert(profiles_view(before)[i] == picked(src, indices@.subrange(0, k - 1))[i]);
                }
            }
            assert(profiles_view(out@) =~= picked(src, indices@.subrange(0, k as int)));
        }
    }
    assert(indices@.subrange(0, k as int) == indices@);
    out
}

/// Draws `nb` distinct attendees uniformly at random, without replacement.
/// A negative `nb` is refused, `0` gives no winner whatever the list holds,
/// and more winners than attendees is refused too.
pub fn draw(nb: i8, attendees: &Vec<Profile>) -> (r: Result<Vec<Profile>, DrawError>)
    ensures
        nb < 0 ==> r == Err::<Vec<Profile>, DrawError>(DrawError::InvalidDrawRequest { asked: nb }),
        nb == 0 ==> r is Ok && r->Ok_0@.len() == 0,
        nb > attendees@.len() ==> r == Err::<Vec<Profile>, DrawError>(
            DrawError::NotEnoughParticipants { asked: nb, existing: attendees@.len() as usize },
        ),
        0 <= nb <= attendees@.len() ==> r is Ok && r->Ok_0@.len() == nb
            && is_draw(profiles_view(r->Ok_0@), profiles_view(attendees@), nb as nat),
        draw_error(nb, attendees@.len()) is Some ==> r == Err::<Vec<Profile>, DrawError>(
            draw_error(nb, attendees@.len())->Some_0,
        ),
{
    if nb < 0 {
        Err(DrawError::InvalidDrawRequest { asked: nb })
    } else if nb == 0 {
        let out: Vec<Profile> = Vec::new();
        assert(picked(profiles_view(attendees@), Seq::<usize>::empty()) == profiles_view(out@));
        assert(distinct_indices(Seq::<usize>::empty(), attendees@.len()));
        Ok(out)
    } else if nb as usize > attendees.len() {
        Err(DrawError::NotEnoughParticipants { asked: nb, existing: attendees.len() })
    } else {
        let indices = sample_indices(attendees.len(), nb as usize);
        let out = pick(attendees, &indices);
        assert(profiles_view(out@).len() == out@.len());
        assert(picked(profiles_view(attendees@), indices@) == profiles_view(out@));
        Ok(out)
    }
}

} // verus!
