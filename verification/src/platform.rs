//! Platform sizing: how many worker threads the process should use, derived
//! from the machine's physical core count clamped to a fixed band.

use vstd::prelude::*;

verus! {

/// Relies on num_cpus::get_physical: the number of physical cores of the
/// current system, which is always at least 1.
#[verifier::external_body]
fn physical_cpu_count() -> (r: usize)
    ensures
        r >= 1,
{
    num_cpus::get_physical()
}

/// `n` clamped to the band from 2 to 8.
pub fn clamp_threads(n: usize) -> (r: usize)
    ensures
        r == if n < 2 { 2usize } else if n > 8 { 8usize } else { n },
{
    if n < 2 {
        2
    } else if n > 8 {
        8
    } else {
        n
    }
}

/// The suggested worker-thread count: the machine's physical core count,
/// held between 2 and 8.
pub fn threads_hint() -> (r: usize)
    ensures
        2 <= r <= 8,
{
    clamp_threads(physical_cpu_count())
}

} // verus!
