//! Decisions of the requests that manage a library: how large the batches
//! of an analysis are, and which request to close a library is meant for
//! the library that is open.

use vstd::prelude::*;

verus! {

/// The smallest batch.
pub const MIN_BATCH_SIZE: usize = 1;

/// The largest batch.
pub const MAX_BATCH_SIZE: usize = 1000;

/// The batch size for a machine with `cores` logical processors: two
/// thirds of the cores, rounded down, but no less than `MIN_BATCH_SIZE` and
/// no more than `MAX_BATCH_SIZE`.
pub open spec fn batch_size(cores: nat) -> nat {
    let two_thirds = (2 * cores) / 3;
    if two_thirds < MIN_BATCH_SIZE {
        MIN_BATCH_SIZE as nat
    } else if two_thirds > MAX_BATCH_SIZE {
        MAX_BATCH_SIZE as nat
    } else {
        two_thirds
    }
}

/// The batch size for a machine with `cores` logical processors.
pub fn batch_size_for(cores: usize) -> (size: usize)
    ensures
        size == batch_size(cores as nat),
        MIN_BATCH_SIZE <= size <= MAX_BATCH_SIZE,
{
    let two_thirds = cores / 3 * 2 + (cores % 3) * 2 / 3;
    if two_thirds < MIN_BATCH_SIZE {
        MIN_BATCH_SIZE
    } else if two_thirds > MAX_BATCH_SIZE {
        MAX_BATCH_SIZE
    } else {
        two_thirds
    }
}

/// `num_cpus::get` counts the logical processors available to this
/// process. The number depends on the machine; nothing is claimed of it.
pub assume_specification[ num_cpus::get ]() -> (cores: usize)
;

/// The batch size for this machine. Whatever the number of processors, it
/// is the batch size for some number of them, and so lies between
/// `MIN_BATCH_SIZE` and `MAX_BATCH_SIZE`.
pub fn determine_batch_size() -> (size: usize)
    ensures
        exists|cores: nat| size == batch_size(cores),
        MIN_BATCH_SIZE <= size <= MAX_BATCH_SIZE,
{
    let num_cores = num_cpus::get();
    batch_size_for(num_cores)
}

/// Whether a request to close the library at `request_path` is meant for
/// the library open at `lib_path`: only then is the work on it cancelled.
pub fn closes_library(request_path: &String, lib_path: &String) -> (meant: bool)
    ensures
        meant == (request_path@ == lib_path@),
{
    *request_path == *lib_path
}

} // verus!
