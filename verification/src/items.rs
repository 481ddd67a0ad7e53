//! Sample items for `Irc` handles: one wrapped in a `Box`, one in an `Arc`.
use crate::irc::IrcItem;
use core::sync::atomic::AtomicUsize;
use std::sync::Arc;
use vstd::prelude::*;

verus! {

/// An `i32` payload.
pub struct CounterI32 {
    pub value: i32,
}

impl CounterI32 {
    pub fn new(value: i32) -> (r: Self)
        ensures
            r.value == value,
    {
        CounterI32 { value }
    }
}

impl Clone for CounterI32 {
    fn clone(&self) -> (r: Self)
        ensures
            r.value == self.value,
    {
        CounterI32 { value: self.value }
    }
}

/// An item shared by handles over a `Box` (the default pointer).
pub struct TestItem {
    pub value: CounterI32,
    pub counter: AtomicUsize,
}

impl TestItem {
    /// An item holding `val`, with its counter at zero.
    pub fn new(val: i32) -> (r: Self)
        ensures
            r.value.value == val,
    {
        TestItem { value: CounterI32::new(val), counter: AtomicUsize::new(0) }
    }
}

impl Clone for TestItem {
    /// A copy of the payload with a counter of its own, at zero.
    fn clone(&self) -> (r: Self)
        ensures
            r.value.value == self.value.value,
    {
        TestItem { value: self.value.clone(), counter: AtomicUsize::new(0) }
    }
}

impl IrcItem for TestItem {
    type Counter = AtomicUsize;

    fn counter(&self) -> (r: &AtomicUsize)
        ensures
            r == &self.counter,
    {
        &self.counter
    }
}

/// An item shared by handles over an `Arc`.
pub struct ArcTestItem {
    pub value: CounterI32,
    pub counter: AtomicUsize,
}

impl ArcTestItem {
    /// An item holding `val`, with its counter at zero.
    pub fn new(val: i32) -> (r: Self)
        ensures
            r.value.value == val,
    {
        ArcTestItem { value: CounterI32::new(val), counter: AtomicUsize::new(0) }
    }
}

impl IrcItem<(), Arc<ArcTestItem>> for ArcTestItem {
    type Counter = AtomicUsize;

    fn counter(&self) -> (r: &AtomicUsize)
        ensures
            r == &self.counter,
    {
        &self.counter
    }
}

} // verus!
