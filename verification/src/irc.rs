//! Intrusive reference counting.
//!
//! An `Irc` handle keeps its item alive through a counter that the item itself
//! holds ([`IrcItem::counter`]). This module holds the part of `Irc` that is
//! logic: the counting protocol. It decides the value and the ordering of
//! each atomic operation a handle operation makes, decides from what an atomic
//! operation returned whether a handle is the only one or the last one, and
//! proves, over a model of one item's counter, that an item is reclaimed
//! exactly once, when no handle and no raw pointer from `into_raw` keeps it.
//!
//! The model is tied to the code only through the values handed to the
//! counter (`fresh_count_value`, `count_unit_value`) and the two decisions
//! (`is_unique_count`, `is_last_release`). That the atomic really holds the
//! count of the model is not proved: Verus cannot follow what an atomic shared
//! between threads holds.
use crate::atomic;
use crate::order;
use crate::Pointer;
use core::sync::atomic::{AtomicU16, AtomicU8, AtomicUsize};
use vstd::prelude::*;

verus! {

// ---------------------------------------------------------------------------
// The model of one item's counter.
// ---------------------------------------------------------------------------

/// The count right after a handle is made from a pointer: it is reset to one.
pub open spec fn fresh_count() -> int {
    1
}

/// What one handle weighs in the count.
pub open spec fn count_unit() -> int {
    1
}

/// The count after one more handle is made (clone, `with_unchecked`).
pub open spec fn count_after_acquire(count: int) -> int {
    count + count_unit()
}

/// The count after one handle is given up (drop).
pub open spec fn count_after_release(count: int) -> int {
    count - count_unit()
}

/// A handle that observes this count is the only one.
pub open spec fn unique_count(count: int) -> bool {
    count == 1
}

/// A release that observes this count before its decrement gives up the last
/// handle: the item is then reclaimed (`IrcItem::on_drop`).
pub open spec fn last_release(previous: int) -> bool {
    previous == 1
}

/// One operation on an item made through its handles, after the handle was
/// made from a pointer (`new` or `from`).
pub enum CountEvent {
    /// A new handle: `clone`, or `with_unchecked` on the item.
    Acquire,
    /// A handle is dropped, or moved off the item by `make_mut`.
    Release,
    /// A handle becomes a raw pointer (`into_raw`): the count stays.
    IntoRaw,
    /// A raw pointer from `into_raw` becomes a handle again (`from_raw`): the
    /// count stays.
    FromRaw,
}

/// The count after one event.
pub open spec fn count_step(count: int, event: CountEvent) -> int {
    match event {
        CountEvent::Acquire => count_after_acquire(count),
        CountEvent::Release => count_after_release(count),
        CountEvent::IntoRaw => count,
        CountEvent::FromRaw => count,
    }
}

/// How many handles to the item are alive after a history that starts with
/// one fresh handle.
pub open spec fn handles_after(events: Seq<CountEvent>) -> int
    decreases events.len(),
{
    if events.len() == 0 {
        1
    } else {
        let before = handles_after(events.drop_last());
        match events.last() {
            CountEvent::Acquire => before + 1,
            CountEvent::Release => before - 1,
            CountEvent::IntoRaw => before - 1,
            CountEvent::FromRaw => before + 1,
        }
    }
}

/// How many raw pointers from `into_raw` are outstanding after a history.
pub open spec fn raws_after(events: Seq<CountEvent>) -> int
    decreases events.len(),
{
    if events.len() == 0 {
        0
    } else {
        let before = raws_after(events.drop_last());
        match events.last() {
            CountEvent::IntoRaw => before + 1,
            CountEvent::FromRaw => before - 1,
            _ => before,
        }
    }
}

/// Whether an event can be made when `handles` handles are alive and `raws`
/// raw pointers are outstanding: `from_raw` takes an outstanding raw pointer,
/// every other event is made through a live handle.
pub open spec fn event_allowed(handles: int, raws: int, event: CountEvent) -> bool {
    match event {
        CountEvent::FromRaw => raws >= 1,
        _ => handles >= 1,
    }
}

/// The count after a history of events, from `start`.
pub open spec fn count_after(start: int, events: Seq<CountEvent>) -> int
    decreases events.len(),
{
    if events.len() == 0 {
        start
    } else {
        count_step(count_after(start, events.drop_last()), events.last())
    }
}

/// How many events of the history make a new handle.
pub open spec fn acquires(events: Seq<CountEvent>) -> nat
    decreases events.len(),
{
    if events.len() == 0 {
        0
    } else {
        acquires(events.drop_last()) + if events.last() is Acquire {
            1nat
        } else {
            0nat
        }
    }
}

/// How many events of the history drop a handle.
pub open spec fn releases(events: Seq<CountEvent>) -> nat
    decreases events.len(),
{
    if events.len() == 0 {
        0
    } else {
        releases(events.drop_last()) + if events.last() is Release {
            1nat
        } else {
            0nat
        }
    }
}

/// Every event of the history can be made when it comes: it goes through a
/// live handle, or, for `from_raw`, takes a raw pointer that `into_raw` gave
/// and that was not taken back yet.
pub open spec fn live_history(events: Seq<CountEvent>) -> bool
    decreases events.len(),
{
    events.len() == 0 || (live_history(events.drop_last()) && event_allowed(
        handles_after(events.drop_last()),
        raws_after(events.drop_last()),
        events.last(),
    ))
}

/// How many releases of the history give up the last handle.
pub open spec fn reclaims(start: int, events: Seq<CountEvent>) -> nat
    decreases events.len(),
{
    if events.len() == 0 {
        0
    } else {
        let before = count_after(start, events.drop_last());
        reclaims(start, events.drop_last()) + if events.last() is Release && last_release(
            before,
        ) {
            1nat
        } else {
            0nat
        }
    }
}

// ---------------------------------------------------------------------------
// Decisions made on what the counter returned.
// ---------------------------------------------------------------------------

/// Whether a handle that loaded `observed` from the counter is the only one.
pub fn is_unique_count(observed: usize) -> (r: bool)
    ensures
        r == unique_count(observed as int),
{
    observed == 1
}

/// Whether a drop whose decrement returned `previous` gave up the last handle.
pub fn is_last_release(previous: usize) -> (r: bool)
    ensures
        r == last_release(previous as int),
{
    previous == 1
}

// ---------------------------------------------------------------------------
// The values handed to the counter.
// ---------------------------------------------------------------------------

/// The value the counter is reset to when a handle is made from a pointer.
pub fn fresh_count_value() -> (r: usize)
    ensures
        r == fresh_count(),
{
    1
}

/// The amount a clone adds to the counter and a drop takes from it.
pub fn count_unit_value() -> (r: usize)
    ensures
        r == count_unit(),
{
    1
}

fn to_u16(v: usize) -> (r: u16)
    requires
        v <= u16::MAX,
    ensures
        r == v,
{
    v as u16
}

fn to_u8(v: usize) -> (r: u8)
    requires
        v <= u8::MAX,
    ensures
        r == v,
{
    v as u8
}

/// The fence a last release makes before its item is reclaimed.
fn reclaim_fence() {
    atomic::fence(order::reclaim_fence_order())
}

// ---------------------------------------------------------------------------
// Counters and items.
// ---------------------------------------------------------------------------

/// An atomic counter that an item can hold for its `Irc` handles: `AtomicUsize`,
/// `AtomicU16` or `AtomicU8`. Each method is one atomic operation of the
/// protocol, made with the value (`fresh_count_value`, `count_unit_value`) and
/// the ordering (module `order`) that the library decides, and returns, as a
/// `usize`, the value that operation saw. Other threads may change the counter
/// at any time, so what it sees is not stated.
pub trait IrcCounter: Sized {
    /// Sets the count to one (`Relaxed`): a handle is made from a pointer.
    fn set_one(&self);

    /// Adds one (`Relaxed`) and returns the count before: a handle is cloned.
    fn increment(&self) -> usize;

    /// Subtracts one (`Release`) and returns the count before: a handle is dropped.
    fn decrement(&self) -> usize;

    /// Loads the count with `Acquire` when `acquire` holds, else `Relaxed`.
    fn observe(&self, acquire: bool) -> usize;
}

impl IrcCounter for AtomicUsize {
    fn set_one(&self) {
        atomic::usize_store(self, fresh_count_value(), order::reset_order())
    }

    fn increment(&self) -> usize {
        atomic::usize_fetch_add(self, count_unit_value(), order::acquire_order())
    }

    fn decrement(&self) -> usize {
        atomic::usize_fetch_sub(self, count_unit_value(), order::release_order())
    }

    fn observe(&self, acquire: bool) -> usize {
        let o = if acquire {
            order::unique_load_order()
        } else {
            order::count_load_order()
        };
        atomic::usize_load(self, o)
    }
}

impl IrcCounter for AtomicU16 {
    fn set_one(&self) {
        atomic::u16_store(self, to_u16(fresh_count_value()), order::reset_order())
    }

    fn increment(&self) -> (r: usize)
        ensures
            r <= u16::MAX,
    {
        usize::from(atomic::u16_fetch_add(self, to_u16(count_unit_value()), order::acquire_order()))
    }

    fn decrement(&self) -> (r: usize)
        ensures
            r <= u16::MAX,
    {
        usize::from(atomic::u16_fetch_sub(self, to_u16(count_unit_value()), order::release_order()))
    }

    fn observe(&self, acquire: bool) -> (r: usize)
        ensures
            r <= u16::MAX,
    {
        let o = if acquire {
            order::unique_load_order()
        } else {
            order::count_load_order()
        };
        usize::from(atomic::u16_load(self, o))
    }
}

impl IrcCounter for AtomicU8 {
    fn set_one(&self) {
        atomic::u8_store(self, to_u8(fresh_count_value()), order::reset_order())
    }

    fn increment(&self) -> (r: usize)
        ensures
            r <= u8::MAX,
    {
        usize::from(atomic::u8_fetch_add(self, to_u8(count_unit_value()), order::acquire_order()))
    }

    fn decrement(&self) -> (r: usize)
        ensures
            r <= u8::MAX,
    {
        usize::from(atomic::u8_fetch_sub(self, to_u8(count_unit_value()), order::release_order()))
    }

    fn observe(&self, acquire: bool) -> (r: usize)
        ensures
            r <= u8::MAX,
    {
        let o = if acquire {
            order::unique_load_order()
        } else {
            order::count_load_order()
        };
        usize::from(atomic::u8_load(self, o))
    }
}

/// A type that `Irc` handles can share: it holds its own counter.
///
/// `Tag` tells apart several kinds of handle on one item, each with a counter
/// of its own; `P` is the pointer the item lives in and is handed back in when
/// the last handle is dropped.
///
/// # Safety
///
/// The handles free the item when its count falls to zero, so `counter()`
/// must return a field of the item itself, always the same one, and a
/// different one for each `Tag` implemented on the item: a counter shared with
/// another item, or between two `Tag`s, lets an item be freed while handles to
/// it remain. Nothing checks this rule for an implementor.
pub trait IrcItem<Tag = (), P = Box<Self>>: Sized + Send + Sync where P: Pointer<Target = Self> {
    /// The type of counter.
    type Counter: IrcCounter;

    /// The counter of this kind of handle.
    fn counter(&self) -> &Self::Counter;

    /// Runs when the last handle is dropped, with the pointer the item was
    /// wrapped from; by default it drops it.
    fn on_drop(this: P) {
    }

    /// The number of handles, as a relaxed load of the counter sees it.
    fn strong_count(&self) -> usize {
        self.counter().observe(false)
    }
}

/// What making a handle from a pointer does: the item's counter is reset to one.
pub fn reset_count<T, Tag, P>(item: &T) where T: IrcItem<Tag, P>, P: Pointer<Target = T> {
    item.counter().set_one()
}

/// What cloning a handle does: the item's counter gains one. Returns the count
/// the addition saw.
pub fn acquire_handle<T, Tag, P>(item: &T) -> usize where
    T: IrcItem<Tag, P>,
    P: Pointer<Target = T>,
 {
    item.counter().increment()
}

/// What dropping a handle does to the counter: it loses one. Returns the count
/// the subtraction saw and whether that made this handle the last one; for the
/// last one an `Acquire` fence orders the reclaiming after every release.
pub fn release_handle<T, Tag, P>(item: &T) -> (r: (usize, bool)) where
    T: IrcItem<Tag, P>,
    P: Pointer<Target = T>,
    ensures
        r.1 == last_release(r.0 as int),
{
    let previous = item.counter().decrement();
    let last = is_last_release(previous);
    if last {
        reclaim_fence();
    }
    (previous, last)
}

/// Whether the handle on `item` is the only one: an `Acquire` load of the
/// counter sees one. Returns the count seen and the answer. Another thread
/// dropping its handle at the same time can make the answer a false negative.
pub fn observe_unique<T, Tag, P>(item: &T) -> (r: (usize, bool)) where
    T: IrcItem<Tag, P>,
    P: Pointer<Target = T>,
    ensures
        r.1 == unique_count(r.0 as int),
{
    let observed = item.counter().observe(true);
    (observed, is_unique_count(observed))
}

// ---------------------------------------------------------------------------
// Laws of the protocol.
// ---------------------------------------------------------------------------

/// An item is reclaimed exactly once, when nothing keeps it any more: in any
/// history of clones, drops, `into_raw` and `from_raw` that starts with a fresh
/// handle and makes each event only when it can be made, the count is the
/// number of live handles plus the outstanding raw pointers; the item is not
/// reclaimed while that number is at least one, and is reclaimed exactly once
/// when it has fallen to zero.
pub proof fn law_reclaimed_exactly_once(events: Seq<CountEvent>)
    requires
        live_history(events),
    ensures
        handles_after(events) >= 0,
        raws_after(events) >= 0,
        count_after(fresh_count(), events) == handles_after(events) + raws_after(events),
        reclaims(fresh_count(), events) == if count_after(fresh_count(), events) == 0 {
            1nat
        } else {
            0nat
        },
    decreases events.len(),
{
    if events.len() > 0 {
        law_reclaimed_exactly_once(events.drop_last());
    }
}

/// A fresh handle is the only one; cloning a live handle makes the item shared,
/// and dropping the clone neither reclaims the item nor changes the count it
/// had before the clone.
pub proof fn law_clone_then_drop(count: int)
    requires
        count >= 1,
    ensures
        unique_count(fresh_count()),
        !unique_count(count_after_acquire(count)),
        !last_release(count_after_acquire(count)),
        count_after_release(count_after_acquire(count)) == count,
{
}

/// `make_mut` on a shared handle moves it to a fresh copy of the item: the
/// copy's handle is the only one, and giving up the old item does not reclaim
/// it, since the other handles keep it (count at least one). On a handle that
/// is the only one, nothing is copied and the count stays.
pub proof fn law_make_mut_detaches(count: int)
    requires
        count >= 1,
    ensures
        !unique_count(count) ==> {
            &&& unique_count(fresh_count())
            &&& !last_release(count)
            &&& count_after_release(count) >= 1
        },
        unique_count(count) ==> count == fresh_count(),
{
}

/// The count is the balance of the history: whatever the order of the clones
/// and drops, it is the starting count plus the clones minus the drops.
pub proof fn law_count_is_balance(start: int, events: Seq<CountEvent>)
    ensures
        count_after(start, events) == start + acquires(events) - releases(events),
    decreases events.len(),
{
    if events.len() > 0 {
        law_count_is_balance(start, events.drop_last());
    }
}

/// A handle that sees the count at one is the only owner: were it dropped
/// then, it would be the last handle and the item would be reclaimed. This is
/// why `get_mut` and `make_mut` may hand out the item mutably on that answer.
pub proof fn law_unique_is_last(count: int)
    ensures
        unique_count(count) <==> last_release(count),
        unique_count(count) ==> count_after_release(count) == 0,
{
}

} // verus!
