use vstd::prelude::*;
use rand::distributions::{Distribution, Normal};
use rand::SeedableRng;
use rand_chacha::ChaChaRng;
use crate::point::Point;

verus! {

#[verifier::external_type_specification]
#[verifier::external_body]
pub struct ExChaChaRng(ChaChaRng);

#[verifier::external_type_specification]
#[verifier::external_body]
pub struct ExNormal(Normal);

/// Relies on `rand_chacha::ChaChaRng::seed_from_u64`: a ChaCha stream seeded
/// from the seed alone, with no entropy from the system.
#[verifier::external_body]
fn seeded_stream(seed: u32) -> (r: ChaChaRng) {
    ChaChaRng::seed_from_u64(seed as u64)
}

/// Relies on `Normal::sample`: takes the next normal variate from the
/// stream; the number is returned as its IEEE-754 binary64 bit pattern.
/// Any pattern may come back.
#[verifier::external_body]
fn draw_coordinate(spread: &Normal, stream: &mut ChaChaRng) -> (r: u64) {
    spread.sample(stream).to_bits()
}

/// Draws `count` locations from a stream seeded with `seed`, x before y for
/// each location, both axes from the distribution `spread`.
pub fn sample_locations(seed: u32, spread: &Normal, count: u64) -> (r: Vec<Point>)
    requires
        count <= usize::MAX,
    ensures
        r@.len() == count,
{
    let mut stream = seeded_stream(seed);
    let mut locations: Vec<Point> = Vec::new();
    let mut i: u64 = 0;
    while i < count
        invariant
            i <= count,
            count <= usize::MAX,
            locations@.len() == i,
        decreases count - i,
    {
        let x = draw_coordinate(spread, &mut stream);
        let y = draw_coordinate(spread, &mut stream);
        locations.push(Point::from_bits(x, y));
        i += 1;
    }
    locations
}

} // verus!
