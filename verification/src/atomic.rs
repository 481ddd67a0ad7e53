//! The atomic operations that the counting protocol performs, made through the
//! generic atomic traits of `atomic_traits`. Each wrapper hands the value and
//! the ordering it is given to one call; the library decides both. What an
//! atomic holds depends on every thread that touches it, so none of these
//! calls promises a value.
use atomic_traits::fetch::{Add, Sub};
use atomic_traits::Atomic;
use core::sync::atomic::Ordering;
use core::sync::atomic::{AtomicU16, AtomicU8, AtomicUsize};
use vstd::prelude::*;

verus! {

/// `Atomic::store(c, v, order)` on an `AtomicUsize`. Nothing is stated: Verus
/// cannot follow what an atomic shared between threads holds. The caller
/// passes `Relaxed`, `Release` or `SeqCst`, for which `store` does not panic.
#[verifier::external_body]
pub(crate) fn usize_store(c: &AtomicUsize, v: usize, order: Ordering)
    requires
        order == Ordering::Relaxed || order == Ordering::Release || order == Ordering::SeqCst,
{
    Atomic::store(c, v, order)
}

/// `fetch::Add::fetch_add(c, v, order)` on an `AtomicUsize`; the value it returns
/// (what the atomic held before the addition) is left unsaid.
#[verifier::external_body]
pub(crate) fn usize_fetch_add(c: &AtomicUsize, v: usize, order: Ordering) -> usize {
    Add::fetch_add(c, v, order)
}

/// `fetch::Sub::fetch_sub(c, v, order)` on an `AtomicUsize`; the value it returns
/// (what the atomic held before the subtraction) is left unsaid.
#[verifier::external_body]
pub(crate) fn usize_fetch_sub(c: &AtomicUsize, v: usize, order: Ordering) -> usize {
    Sub::fetch_sub(c, v, order)
}

/// `Atomic::load(c, order)` on an `AtomicUsize`; the value it returns is left unsaid.
/// The caller passes `Relaxed`, `Acquire` or `SeqCst`, for which `load` does
/// not panic.
#[verifier::external_body]
pub(crate) fn usize_load(c: &AtomicUsize, order: Ordering) -> usize
    requires
        order == Ordering::Relaxed || order == Ordering::Acquire || order == Ordering::SeqCst,
{
    Atomic::load(c, order)
}

/// `Atomic::store(c, v, order)` on an `AtomicU16`. Nothing is stated: Verus
/// cannot follow what an atomic shared between threads holds. The caller
/// passes `Relaxed`, `Release` or `SeqCst`, for which `store` does not panic.
#[verifier::external_body]
pub(crate) fn u16_store(c: &AtomicU16, v: u16, order: Ordering)
    requires
        order == Ordering::Relaxed || order == Ordering::Release || order == Ordering::SeqCst,
{
    Atomic::store(c, v, order)
}

/// `fetch::Add::fetch_add(c, v, order)` on an `AtomicU16`; the value it returns
/// (what the atomic held before the addition) is left unsaid.
#[verifier::external_body]
pub(crate) fn u16_fetch_add(c: &AtomicU16, v: u16, order: Ordering) -> u16 {
    Add::fetch_add(c, v, order)
}

/// `fetch::Sub::fetch_sub(c, v, order)` on an `AtomicU16`; the value it returns
/// (what the atomic held before the subtraction) is left unsaid.
#[verifier::external_body]
pub(crate) fn u16_fetch_sub(c: &AtomicU16, v: u16, order: Ordering) -> u16 {
    Sub::fetch_sub(c, v, order)
}

/// `Atomic::load(c, order)` on an `AtomicU16`; the value it returns is left unsaid.
/// The caller passes `Relaxed`, `Acquire` or `SeqCst`, for which `load` does
/// not panic.
#[verifier::external_body]
pub(crate) fn u16_load(c: &AtomicU16, order: Ordering) -> u16
    requires
        order == Ordering::Relaxed || order == Ordering::Acquire || order == Ordering::SeqCst,
{
    Atomic::load(c, order)
}

/// `Atomic::store(c, v, order)` on an `AtomicU8`. Nothing is stated: Verus
/// cannot follow what an atomic shared between threads holds. The caller
/// passes `Relaxed`, `Release` or `SeqCst`, for which `store` does not panic.
#[verifier::external_body]
pub(crate) fn u8_store(c: &AtomicU8, v: u8, order: Ordering)
    requires
        order == Ordering::Relaxed || order == Ordering::Release || order == Ordering::SeqCst,
{
    Atomic::store(c, v, order)
}

/// `fetch::Add::fetch_add(c, v, order)` on an `AtomicU8`; the value it returns
/// (what the atomic held before the addition) is left unsaid.
#[verifier::external_body]
pub(crate) fn u8_fetch_add(c: &AtomicU8, v: u8, order: Ordering) -> u8 {
    Add::fetch_add(c, v, order)
}

/// `fetch::Sub::fetch_sub(c, v, order)` on an `AtomicU8`; the value it returns
/// (what the atomic held before the subtraction) is left unsaid.
#[verifier::external_body]
pub(crate) fn u8_fetch_sub(c: &AtomicU8, v: u8, order: Ordering) -> u8 {
    Sub::fetch_sub(c, v, order)
}

/// `Atomic::load(c, order)` on an `AtomicU8`; the value it returns is left unsaid.
/// The caller passes `Relaxed`, `Acquire` or `SeqCst`, for which `load` does
/// not panic.
#[verifier::external_body]
pub(crate) fn u8_load(c: &AtomicU8, order: Ordering) -> u8
    requires
        order == Ordering::Relaxed || order == Ordering::Acquire || order == Ordering::SeqCst,
{
    Atomic::load(c, order)
}

/// `core::sync::atomic::fence(order)`. It has no value to state; `order` is
/// not `Relaxed`, for which `fence` panics.
#[verifier::external_body]
pub(crate) fn fence(order: Ordering)
    requires
        order != Ordering::Relaxed,
{
    core::sync::atomic::fence(order)
}

} // verus!
