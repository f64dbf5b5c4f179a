use vstd::prelude::*;

verus! {

/// Relies on num_cpus::get: the number of logical CPUs of the host, which its
/// documentation promises to be at least 1. The count depends on the machine,
/// so nothing more is stated of it.
#[verifier::external_body]
fn detected_cpus() -> (n: usize)
    ensures
        n >= 1,
{
    num_cpus::get()
}

/// Clamped concurrency heuristic: a quarter of the given logical CPU count,
/// but never less than one slot, so a limiter built from it can make progress.
pub fn derive_concurrency(cpu_count: usize) -> (c: usize)
    ensures
        c == if cpu_count / 4 >= 1 {
            cpu_count / 4
        } else {
            1usize
        },
        c >= 1,
{
    let quarter = cpu_count / 4;
    if quarter >= 1 {
        quarter
    } else {
        1
    }
}

/// The concurrency cap for this host: the clamped quarter of its detected
/// logical CPU count. Always at least 1.
pub fn default_concurrency() -> (c: usize)
    ensures
        c >= 1,
{
    derive_concurrency(detected_cpus())
}

} // verus!
