//! Pointer abstractions for generic containers, and the verified counting
//! protocol of the intrusive reference counter (`irc`).
use std::rc::Rc;
use std::sync::Arc;
use vstd::prelude::*;

mod atomic;
pub mod order;
pub mod irc;
pub mod items;

verus! {

/// Abstract pointer trait to support various pointer types in collections:
/// `Box<T>` (owned), `Rc<T>` (single-thread shared), `Arc<T>` (shared) and
/// `&T`. Each impl here states that `as_ref` hands out the value the pointer
/// holds.
pub trait Pointer: Sized {
    type Target;

    /// The value the pointer holds.
    spec fn pointee(&self) -> &Self::Target;

    fn as_ref(&self) -> (r: &Self::Target)
        ensures
            r == self.pointee(),
    ;
}

/// A pointer that can be built from an owned value. Each impl here states that
/// the pointer it builds holds that value.
pub trait SmartPointer: Pointer {
    fn new(t: Self::Target) -> (r: Self)
        ensures
            *r.pointee() == t,
    ;
}

impl<T> Pointer for Box<T> {
    type Target = T;

    open spec fn pointee(&self) -> &T {
        &**self
    }

    fn as_ref(&self) -> (r: &T) {
        &**self
    }
}

impl<T> SmartPointer for Box<T> {
    fn new(t: T) -> (r: Self) {
        Box::new(t)
    }
}

impl<T> Pointer for Rc<T> {
    type Target = T;

    open spec fn pointee(&self) -> &T {
        &**self
    }

    fn as_ref(&self) -> (r: &T) {
        &**self
    }
}

impl<T> SmartPointer for Rc<T> {
    fn new(t: T) -> (r: Self) {
        Rc::new(t)
    }
}

impl<T> Pointer for Arc<T> {
    type Target = T;

    open spec fn pointee(&self) -> &T {
        &**self
    }

    fn as_ref(&self) -> (r: &T) {
        &**self
    }
}

impl<T> SmartPointer for Arc<T> {
    fn new(t: T) -> (r: Self) {
        Arc::new(t)
    }
}

impl<'a, T> Pointer for &'a T {
    type Target = T;

    open spec fn pointee(&self) -> &T {
        &**self
    }

    fn as_ref(&self) -> (r: &T) {
        *self
    }
}

} // verus!
