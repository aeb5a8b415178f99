//! `/random`: a number drawn uniformly from a range, `0..=10` by default.

use vstd::prelude::*;
use rand::Rng;
use rand::SeedableRng;
use rand::rngs::OsRng;
use rand_chacha::ChaCha20Rng;
use crate::text::decimal;
use crate::text::int_string;
use crate::text::views;

verus! {

#[verifier::external_type_specification]
#[verifier::external_body]
pub struct ExChaCha20Rng(ChaCha20Rng);

/// A ChaCha20 generator seeded from the operating system's random source
/// (`SeedableRng::from_rng(OsRng)`), or `None` where that source fails to
/// give a seed. Whether it fails, and the seed, rest on the machine; nothing
/// more is stated.
#[verifier::external_body]
fn rng_from_os() -> Option<ChaCha20Rng> {
    ChaCha20Rng::from_rng(OsRng).ok()
}

/// `r` is one of the numbers that `Rng::gen_range(min..=max)` can draw. The
/// draw rests on chance, so this is a relation between the range asked for
/// and a possible result, not a function.
pub uninterp spec fn drawn_from(min: i32, max: i32, r: i32) -> bool;

/// `Rng::gen_range(min..=max)`: a number of the inclusive range, drawn by the
/// generator. The range must not be empty (the call panics on an empty one).
/// Which number comes out rests on chance; it is stated to be a possible draw
/// from the range asked for, and to lie in that range.
#[verifier::external_body]
fn gen_in_range(rng: &mut ChaCha20Rng, min: i32, max: i32) -> (r: i32)
    requires
        min <= max,
    ensures
        drawn_from(min, max, r),
        min <= r <= max,
{
    rng.gen_range(min..=max)
}

/// The bounds of the range: the given ones, `0` and `10` where absent.
pub open spec fn bounds_spec(min: Option<i32>, max: Option<i32>) -> (int, int) {
    (
        match min { Some(m) => m as int, None => 0 },
        match max { Some(m) => m as int, None => 10 },
    )
}

/// The bounds of the range.
pub fn random_bounds(min: Option<i32>, max: Option<i32>) -> (r: (i32, i32))
    ensures
        (r.0 as int, r.1 as int) == bounds_spec(min, max),
{
    let lo: i32 = match min { Some(m) => m, None => 0 };
    let hi: i32 = match max { Some(m) => m, None => 10 };
    (lo, hi)
}

/// The answers of `/random` once `drawn` is drawn from `min..=max`: a range
/// of one number is first answered with that number, then every range with
/// the drawn one.
pub open spec fn random_replies_spec(min: int, max: int, drawn: int) -> Seq<Seq<char>> {
    if min == max {
        seq![decimal(min), decimal(drawn)]
    } else {
        seq![decimal(drawn)]
    }
}

/// The answers of `/random` for the number `drawn`.
pub fn random_replies(min: i32, max: i32, drawn: i32) -> (r: Vec<String>)
    ensures
        views(r@) == random_replies_spec(min as int, max as int, drawn as int),
{
    let mut r: Vec<String> = Vec::new();
    if min == max {
        r.push(int_string(min as i64));
    }
    r.push(int_string(drawn as i64));
    assert(views(r@) =~= random_replies_spec(min as int, max as int, drawn as int));
    r
}

/// `/random`: draws a number of the range and gives the answers to send.
/// The range must not be empty (the draw cannot be made from an empty one).
/// There are no answers only where the system gives no seed for the generator.
pub fn random(min: Option<i32>, max: Option<i32>) -> (r: Option<Vec<String>>)
    requires
        bounds_spec(min, max).0 <= bounds_spec(min, max).1,
    ensures
        r matches Some(v) ==> exists|d: i32|
            drawn_from(bounds_spec(min, max).0 as i32, bounds_spec(min, max).1 as i32, d)
            && bounds_spec(min, max).0 <= d <= bounds_spec(min, max).1
            && views(v@) == #[trigger] random_replies_spec(bounds_spec(min, max).0, bounds_spec(min, max).1, d as int),
{
    let (lo, hi) = random_bounds(min, max);
    let mut rng = match rng_from_os() {
        Some(rng) => rng,
        None => return None,
    };
    let drawn = gen_in_range(&mut rng, lo, hi);
    let v = random_replies(lo, hi, drawn);
    assert(views(v@) == random_replies_spec(lo as int, hi as int, drawn as int));
    assert(drawn_from(bounds_spec(min, max).0 as i32, bounds_spec(min, max).1 as i32, drawn));
    Some(v)
}

} // verus!
