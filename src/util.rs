use rand::Rng;
use vstd::prelude::*;

verus! {

/// Relies on rand's `Rng::gen_range` (0.7) on the thread-local generator:
/// a value in `[low, high)`; it panics when `low >= high`.
#[verifier::external_body]
fn gen_range_i64(low: i64, high: i64) -> (r: i64)
    requires
        low < high,
    ensures
        low <= r < high,
{
    rand::thread_rng().gen_range(low, high)
}

/// Draws an integer uniformly from the closed range `[min, max]`.
pub fn random_int_range(min: i32, max: i32) -> (r: i32)
    requires
        min <= max,
    ensures
        min <= r <= max,
{
    let v = gen_range_i64(min as i64, max as i64 + 1);
    v as i32
}

} // verus!
