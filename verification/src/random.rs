//! The random draws of the game: the vertical offsets of the obstacle pairs.

use vstd::prelude::*;
use rand::rngs::ThreadRng;
use rand::Rng;
use crate::obstacle::valid_offset;
use crate::tuning::OBSTACLE_VERTICAL_OFFSET;

verus! {

/// `rand::rngs::ThreadRng`, the generator that `rand::thread_rng` hands out.
/// Nothing is known of what is inside it: it is only carried to the draws.
#[verifier::external_type_specification]
#[verifier::external_body]
pub struct ExThreadRng(rand::rngs::ThreadRng);

/// `rand::Rng::gen_range` on the half-open range `low..high` of `i64`. The
/// call panics on an empty range, so `low < high` is asked for; what it
/// returns lies in the range, and nothing else is claimed of it.
#[verifier::external_body]
fn gen_range(rng: &mut ThreadRng, low: i64, high: i64) -> (r: i64)
    requires
        low < high,
    ensures
        low <= r < high,
{
    rng.gen_range(low..high)
}

/// Draws the vertical offset of an obstacle pair.
pub fn generate_offset(rng: &mut ThreadRng) -> (offset: i64)
    ensures
        valid_offset(offset as int),
{
    gen_range(rng, -OBSTACLE_VERTICAL_OFFSET, OBSTACLE_VERTICAL_OFFSET)
}

/// Whether every member of `offsets` is an offset that a draw can give.
pub open spec fn valid_offsets(offsets: Seq<i64>) -> bool {
    forall|i: int| 0 <= i < offsets.len() ==> valid_offset(#[trigger] offsets[i] as int)
}

/// Draws `count` vertical offsets, one after the other.
pub fn draw_offsets(rng: &mut ThreadRng, count: usize) -> (offsets: Vec<i64>)
    ensures
        offsets@.len() == count,
        valid_offsets(offsets@),
{
    let mut offsets: Vec<i64> = Vec::new();
    while offsets.len() < count
        invariant
            offsets@.len() <= count,
            valid_offsets(offsets@),
        decreases count - offsets@.len(),
    {
        let offset = generate_offset(rng);
        offsets.push(offset);
    }
    offsets
}

} // verus!
