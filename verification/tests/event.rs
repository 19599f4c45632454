use sgx_sdk_tools::event::{
    get_tcs_event, null_tcs_status, ocall_status, timespec_to_duration, AllocErrorHook,
    OcallStatus, SeEvent, SgxTcsInfoCache, Timespec, WaitOutcome,
};

#[test]
fn new_event_is_idle() {
    assert_eq!(SeEvent::new().counter(), 0);
    assert_eq!(SeEvent::default().counter(), 0);
}

#[test]
fn wait_on_idle_event_sleeps_until_woken() {
    let mut e = SeEvent::new();
    assert!(e.wait());
    assert_eq!(e.counter(), -1);
    assert!(e.still_waiting());
    assert!(e.wake());
    assert_eq!(e.counter(), 0);
    assert!(!e.still_waiting());
}

#[test]
fn wake_before_wait_is_not_lost() {
    let mut e = SeEvent::new();
    assert!(!e.wake());
    assert_eq!(e.counter(), 1);
    assert!(!e.wait());
    assert_eq!(e.counter(), 0);
}

#[test]
fn wait_then_wake_restores_counter() {
    let mut e = SeEvent::new();
    e.wake();
    e.wake();
    let before = e.counter();
    e.wait();
    e.wake();
    assert_eq!(e.counter(), before);
}

#[test]
fn second_waiter_is_signalled_only_when_counter_reaches_zero() {
    let mut e = SeEvent::new();
    e.wait();
    e.wait();
    assert_eq!(e.counter(), -2);
    assert!(!e.wake());
    assert!(e.wake());
}

#[test]
fn timed_out_wait_resets_event() {
    let mut e = SeEvent::new();
    e.wait();
    assert_eq!(e.time_out(), WaitOutcome::TimedOut);
    assert_eq!(e.counter(), 0);
}

#[test]
fn timed_wait_that_was_woken_succeeds() {
    let mut e = SeEvent::new();
    e.wait();
    e.wake();
    assert_eq!(e.time_out(), WaitOutcome::Woken);
    assert_eq!(e.counter(), 0);
}

#[test]
fn timespec_conversion() {
    assert_eq!(timespec_to_duration(&Timespec { tv_sec: 2, tv_nsec: 500 }), Some((2, 500)));
    assert_eq!(
        timespec_to_duration(&Timespec { tv_sec: 0, tv_nsec: 999_999_999 }),
        Some((0, 999_999_999))
    );
    assert_eq!(timespec_to_duration(&Timespec { tv_sec: 0, tv_nsec: 1_000_000_000 }), None);
    assert_eq!(timespec_to_duration(&Timespec { tv_sec: 0, tv_nsec: -1 }), None);
    assert_eq!(timespec_to_duration(&Timespec { tv_sec: -1, tv_nsec: 0 }), None);
    assert_eq!(
        timespec_to_duration(&Timespec { tv_sec: i64::MAX, tv_nsec: 0 }),
        Some((i64::MAX as u64, 0))
    );
}

#[test]
fn ocall_statuses() {
    assert_eq!(null_tcs_status(22), OcallStatus { error: 22, ret: -1 });
    assert_eq!(ocall_status(0), OcallStatus { error: 0, ret: 0 });
    assert_eq!(ocall_status(110), OcallStatus { error: 110, ret: -1 });
}

#[test]
fn tcs_cache_gives_one_event_per_tcs() {
    let mut cache: SgxTcsInfoCache<u32> = SgxTcsInfoCache::new();
    assert_eq!(cache.len(), 0);
    let a = cache.get_event(0x1000, || 7);
    let b = cache.get_event(0x2000, || 8);
    let a2 = cache.get_event(0x1000, || 9);
    assert_eq!((a, b, a2), (0, 1, 0));
    assert_eq!(cache.len(), 2);
    assert_eq!(*cache.event_at(a), 7);
    assert_eq!(*cache.event_at(b), 8);
    assert_eq!(cache.position(0x2000), Some(1));
    assert_eq!(cache.position(0x3000), None);
}

#[test]
fn tcs_event_slot_is_set_up_on_first_use() {
    let mut slot: Option<SgxTcsInfoCache<&'static str>> = None;
    let i = get_tcs_event(&mut slot, 42, || "first");
    assert_eq!(i, 0);
    let j = get_tcs_event(&mut slot, 42, || "second");
    assert_eq!(j, 0);
    let k = get_tcs_event(&mut slot, 43, || "third");
    assert_eq!(k, 1);
    let cache = slot.as_ref().expect("set up");
    assert_eq!(*cache.event_at(0), "first");
    assert_eq!(*cache.event_at(1), "third");
}

#[test]
fn alloc_error_hook_slot() {
    let mut h: AllocErrorHook<u8> = AllocErrorHook::new();
    assert_eq!(h.current(), None);
    assert_eq!(h.take_alloc_error_hook(), None);
    h.set_alloc_error_hook(1);
    h.set_alloc_error_hook(2);
    assert_eq!(h.current(), Some(&2));
    assert_eq!(h.take_alloc_error_hook(), Some(2));
    assert_eq!(h.take_alloc_error_hook(), None);
}

#[test]
fn wakes_accumulate_for_later_waits() {
    let mut e = SeEvent::new();
    for _ in 0..3 {
        e.wake();
    }
    for _ in 0..3 {
        assert!(!e.wait());
    }
    assert_eq!(e.counter(), 0);
    assert!(e.wait());
}
