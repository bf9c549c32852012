//! Draw of distinct winners from a roster, uniformly at random.
use vstd::prelude::*;
use crate::errors::DrawError;
use crate::model::Profile;

verus! {

/// `positions` are pairwise distinct positions below `len`.
pub open spec fn distinct_positions(positions: Seq<usize>, len: nat) -> bool {
    &&& forall|i: int| 0 <= i < positions.len() ==> (#[trigger] positions[i]) < len
    &&& forall|i: int, j: int|
        0 <= i < positions.len() && 0 <= j < positions.len() && i != j ==> positions[i]
            != positions[j]
}

/// The entries of `roster` at `positions`, in the order of `positions`.
pub open spec fn at_positions(roster: Seq<Profile>, positions: Seq<usize>) -> Seq<Profile> {
    positions.map_values(|p: usize| roster[p as int])
}

/// `winners` are `n` entries of `roster` taken at pairwise distinct positions.
pub open spec fn is_draw_of(roster: Seq<Profile>, n: nat, winners: Seq<Profile>) -> bool {
    exists|positions: Seq<usize>|
        #![trigger at_positions(roster, positions)]
        positions.len() == n && distinct_positions(positions, roster.len()) && winners
            == at_positions(roster, positions)
}

/// Relies on rand::seq::index::sample, fed by rand::thread_rng: it returns
/// exactly `amount` distinct indices taken uniformly from `0..length`, and
/// panics only when `amount > length`.
#[verifier::external_body]
fn sample_positions(length: usize, amount: usize) -> (r: Vec<usize>)
    requires
        amount <= length,
    ensures
        r@.len() == amount,
        distinct_positions(r@, length as nat),
{
    rand::seq::index::sample(&mut rand::thread_rng(), length, amount).into_vec()
}

/// The entries of `roster` at `positions`, in the order of `positions`.
pub fn winners_at(roster: &Vec<Profile>, positions: &Vec<usize>) -> (r: Vec<Profile>)
    requires
        forall|i: int| 0 <= i < positions@.len() ==> (#[trigger] positions@[i]) < roster@.len(),
    ensures
        r@ == at_positions(roster@, positions@),
{
    let mut winners: Vec<Profile> = Vec::new();
    let mut i: usize = 0;
    while i < positions.len()
        invariant
            i <= positions@.len(),
            forall|k: int| 0 <= k < positions@.len() ==> (#[trigger] positions@[k]) < roster@.len(),
            winners@ == at_positions(roster@, positions@.take(i as int)),
        decreases positions@.len() - i,
    {
        let p = positions[i];
        winners.push(roster[p].duplicate());
        assert(at_positions(roster@, positions@.take(i + 1)) =~= at_positions(
            roster@,
            positions@.take(i as int),
        ).push(roster@[p as int]));
        i = i + 1;
    }
    assert(positions@.take(i as int) =~= positions@);
    winners
}

/// Draws `nb` winners from `roster`: `nb` entries at distinct positions, every
/// set of `nb` positions being equally likely. Entries with equal names at
/// different positions are distinct candidates. A negative count, or one
/// larger than the roster, is refused; a count of zero gives no winner.
pub fn draw(nb: i8, roster: &Vec<Profile>) -> (r: Result<Vec<Profile>, DrawError>)
    ensures
        nb < 0 <==> r == Err::<Vec<Profile>, DrawError>(DrawError::NegativeCount { requested: nb }),
        nb >= 0 && nb > roster@.len() <==> r == Err::<Vec<Profile>, DrawError>(
            DrawError::NotEnoughAttendees { requested: nb as usize, available: roster@.len() as usize },
        ),
        0 <= nb <= roster@.len() <==> r is Ok,
        r is Ok ==> is_draw_of(roster@, nb as nat, r->Ok_0@),
{
    if nb < 0 {
        return Err(DrawError::NegativeCount { requested: nb });
    }
    let count = nb as usize;
    if count > roster.len() {
        return Err(DrawError::NotEnoughAttendees { requested: count, available: roster.len() });
    }
    let positions = sample_positions(roster.len(), count);
    let winners = winners_at(roster, &positions);
    assert(winners@ == at_positions(roster@, positions@));
    Ok(winners)
}

} // verus!
