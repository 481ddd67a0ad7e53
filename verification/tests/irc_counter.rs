use core::sync::atomic::Ordering;
use core::sync::atomic::{AtomicU16, AtomicU8, AtomicUsize};
use pointers::irc::{
    acquire_handle, count_unit_value, fresh_count_value, is_last_release, is_unique_count, observe_unique, release_handle,
    reset_count, IrcCounter, IrcItem,
};
use pointers::order::{
    acquire_order, count_load_order, reclaim_fence_order, release_order, reset_order,
    unique_load_order,
};
use pointers::items::{ArcTestItem, CounterI32, TestItem};
use pointers::{Pointer, SmartPointer};
use std::rc::Rc;
use std::sync::Arc;

struct SmallItem {
    counter: AtomicU8,
}

impl IrcItem for SmallItem {
    type Counter = AtomicU8;
    fn counter(&self) -> &AtomicU8 {
        &self.counter
    }
}

#[test]
fn test_items_start_with_counter_zero() {
    let item = TestItem::new(10);
    assert_eq!(item.value.value, 10);
    assert_eq!(item.strong_count(), 0);
    let arc_item = ArcTestItem::new(-7);
    assert_eq!(arc_item.value.value, -7);
    assert_eq!(IrcItem::<(), Arc<ArcTestItem>>::strong_count(&arc_item), 0);
}

#[test]
fn test_counter_basic_protocol() {
    let item = TestItem::new(10);
    reset_count::<TestItem, (), Box<TestItem>>(&item);
    assert_eq!(item.strong_count(), 1);
    assert_eq!(observe_unique::<TestItem, (), Box<TestItem>>(&item), (1, true));

    assert_eq!(acquire_handle::<TestItem, (), Box<TestItem>>(&item), 1);
    assert_eq!(item.strong_count(), 2);
    assert_eq!(observe_unique::<TestItem, (), Box<TestItem>>(&item), (2, false));

    assert_eq!(release_handle::<TestItem, (), Box<TestItem>>(&item), (2, false));
    assert_eq!(item.strong_count(), 1);
    assert_eq!(observe_unique::<TestItem, (), Box<TestItem>>(&item), (1, true));

    assert_eq!(release_handle::<TestItem, (), Box<TestItem>>(&item), (1, true));
    assert_eq!(item.strong_count(), 0);
}

#[test]
fn test_counter_arc_item() {
    let item = ArcTestItem::new(10);
    reset_count::<ArcTestItem, (), Arc<ArcTestItem>>(&item);
    assert_eq!(IrcItem::<(), Arc<ArcTestItem>>::strong_count(&item), 1);
    acquire_handle::<ArcTestItem, (), Arc<ArcTestItem>>(&item);
    assert_eq!(IrcItem::<(), Arc<ArcTestItem>>::strong_count(&item), 2);
    assert_eq!(release_handle::<ArcTestItem, (), Arc<ArcTestItem>>(&item), (2, false));
    assert_eq!(release_handle::<ArcTestItem, (), Arc<ArcTestItem>>(&item), (1, true));
}

#[test]
fn test_reset_overrides_any_count() {
    let item = TestItem::new(3);
    for _ in 0..5 {
        acquire_handle::<TestItem, (), Box<TestItem>>(&item);
    }
    assert_eq!(item.strong_count(), 5);
    reset_count::<TestItem, (), Box<TestItem>>(&item);
    assert_eq!(item.strong_count(), 1);
}

#[test]
fn test_counter_drop_all() {
    let item = TestItem::new(0);
    reset_count::<TestItem, (), Box<TestItem>>(&item);
    for _ in 0..100 {
        acquire_handle::<TestItem, (), Box<TestItem>>(&item);
    }
    assert_eq!(item.strong_count(), 101);
    for _ in 0..100 {
        let (_, last) = release_handle::<TestItem, (), Box<TestItem>>(&item);
        assert!(!last);
    }
    assert_eq!(item.strong_count(), 1);
    assert_eq!(release_handle::<TestItem, (), Box<TestItem>>(&item), (1, true));
}

#[test]
fn test_decisions() {
    assert!(is_unique_count(1));
    assert!(!is_unique_count(0));
    assert!(!is_unique_count(2));
    assert!(is_last_release(1));
    assert!(!is_last_release(0));
    assert!(!is_last_release(2));
    assert!(!is_last_release(usize::MAX));
}

#[test]
fn test_small_counters() {
    let item = SmallItem { counter: AtomicU8::new(0) };
    reset_count::<SmallItem, (), Box<SmallItem>>(&item);
    assert_eq!(item.strong_count(), 1);
    assert_eq!(acquire_handle::<SmallItem, (), Box<SmallItem>>(&item), 1);
    assert_eq!(release_handle::<SmallItem, (), Box<SmallItem>>(&item), (2, false));
    assert_eq!(release_handle::<SmallItem, (), Box<SmallItem>>(&item), (1, true));

    let c8 = AtomicU8::new(255);
    assert_eq!(c8.increment(), 255);
    assert_eq!(c8.observe(true), 0);
    let c16 = AtomicU16::new(0);
    c16.set_one();
    assert_eq!(c16.increment(), 1);
    assert_eq!(c16.decrement(), 2);
    assert_eq!(c16.observe(false), 1);
    let cu = AtomicUsize::new(7);
    assert_eq!(cu.decrement(), 7);
    assert_eq!(cu.observe(true), 6);
}

#[test]
fn test_item_clone_has_own_counter() {
    let item = TestItem::new(20);
    reset_count::<TestItem, (), Box<TestItem>>(&item);
    acquire_handle::<TestItem, (), Box<TestItem>>(&item);
    let copy = item.clone();
    assert_eq!(copy.value.value, 20);
    assert_eq!(copy.strong_count(), 0);
    assert_eq!(item.strong_count(), 2);
    let payload = CounterI32::new(5);
    assert_eq!(payload.clone().value, 5);
}

#[test]
fn test_smart_pointers() {
    let b: Box<i32> = SmartPointer::new(3);
    assert_eq!(*Pointer::as_ref(&b), 3);
    let r: Rc<i32> = SmartPointer::new(4);
    assert_eq!(*Pointer::as_ref(&r), 4);
    let a: Arc<i32> = SmartPointer::new(5);
    assert_eq!(*Pointer::as_ref(&a), 5);
    let x = 6;
    let p: &i32 = &x;
    assert_eq!(*Pointer::as_ref(&p), 6);
}

#[test]
fn test_protocol_values_and_orders() {
    assert_eq!(fresh_count_value(), 1);
    assert_eq!(count_unit_value(), 1);
    assert_eq!(reset_order(), Ordering::Relaxed);
    assert_eq!(acquire_order(), Ordering::Relaxed);
    assert_eq!(release_order(), Ordering::Release);
    assert_eq!(reclaim_fence_order(), Ordering::Acquire);
    assert_eq!(unique_load_order(), Ordering::Acquire);
    assert_eq!(count_load_order(), Ordering::Relaxed);
}
