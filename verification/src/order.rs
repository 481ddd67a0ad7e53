//! The memory orderings of the counting protocol, the same as std's `Arc`:
//! relaxed where a handle is made, release where one is given up, and an
//! acquire fence before the item is reclaimed.
use core::sync::atomic::Ordering;
use vstd::prelude::*;

verus! {

/// Resetting the counter when a handle is made from a pointer: `Relaxed`.
pub fn reset_order() -> (o: Ordering)
    ensures
        o == Ordering::Relaxed,
{
    Ordering::Relaxed
}

/// Adding a handle (clone, `with_unchecked`): `Relaxed`, since a new handle
/// can only come from one that already keeps the item alive.
pub fn acquire_order() -> (o: Ordering)
    ensures
        o == Ordering::Relaxed,
{
    Ordering::Relaxed
}

/// Giving up a handle: `Release`, so that every use of the item through it
/// happens before the item is reclaimed.
pub fn release_order() -> (o: Ordering)
    ensures
        o == Ordering::Release,
{
    Ordering::Release
}

/// The fence a last release makes before the item is reclaimed: `Acquire`.
pub fn reclaim_fence_order() -> (o: Ordering)
    ensures
        o == Ordering::Acquire,
{
    Ordering::Acquire
}

/// Loading the count to tell whether a handle is the only one: `Acquire`,
/// pairing with the `Release` of the drops of the other handles.
pub fn unique_load_order() -> (o: Ordering)
    ensures
        o == Ordering::Acquire,
{
    Ordering::Acquire
}

/// Loading the count to report it (`strong_count`): `Relaxed`.
pub fn count_load_order() -> (o: Ordering)
    ensures
        o == Ordering::Relaxed,
{
    Ordering::Relaxed
}

} // verus!
