//! The untrusted-side event that an enclave thread sleeps on and another
//! thread wakes, the per-TCS event cache, and the status an ocall reports.
//!
//! An event is a counter guarded by a mutex: a waiter takes one from it and
//! sleeps while it is negative; a waker adds one and signals when that
//! brings it back to zero.  A wake that comes first is remembered, so the
//! next wait does not sleep.  The decisions are made here; the blocking on a
//! condition variable is done by the caller.

use vstd::prelude::*;

verus! {

/// The counter after a thread starts waiting.
pub open spec fn after_wait(counter: int) -> int {
    counter - 1
}

/// The counter after a thread wakes the event.
pub open spec fn after_wake(counter: int) -> int {
    counter + 1
}

/// Whether a waiter sleeps: the counter is negative.
pub open spec fn sleeping(counter: int) -> bool {
    counter < 0
}

/// Whether a wake signals a sleeping waiter: the counter came back to zero.
pub open spec fn signalled(counter: int) -> bool {
    counter == 0
}

/// The state of an event: its counter.
pub struct SeEvent {
    counter: i32,
}

impl View for SeEvent {
    type V = int;

    closed spec fn view(&self) -> int {
        self.counter as int
    }
}

impl Default for SeEvent {
    fn default() -> (r: Self)
        ensures
            r@ == 0,
    {
        SeEvent { counter: 0 }
    }
}

impl SeEvent {
    /// A new event: nobody waits and no wake is pending.
    pub fn new() -> (r: SeEvent)
        ensures
            r@ == 0,
    {
        SeEvent::default()
    }

    /// The counter: negative while a waiter sleeps, positive while wakes are
    /// pending.
    pub fn counter(&self) -> (r: i32)
        ensures
            r == self@,
    {
        self.counter
    }

    /// A thread starts waiting: the counter drops by one.  Gives whether it
    /// must sleep until woken, that is, whether no wake was pending.
    pub fn wait(&mut self) -> (must_sleep: bool)
        requires
            old(self)@ > i32::MIN,
        ensures
            final(self)@ == after_wait(old(self)@),
            must_sleep == sleeping(final(self)@),
    {
        self.counter = self.counter - 1;
        self.counter < 0
    }

    /// Whether a sleeping waiter must go on sleeping after it woke up.
    pub fn still_waiting(&self) -> (r: bool)
        ensures
            r == sleeping(self@),
    {
        self.counter < 0
    }

    /// A thread wakes the event: the counter rises by one.  Gives whether a
    /// sleeping waiter must be signalled, that is, whether the counter came
    /// back to zero.
    pub fn wake(&mut self) -> (notify: bool)
        requires
            old(self)@ < i32::MAX,
        ensures
            final(self)@ == after_wake(old(self)@),
            notify == signalled(final(self)@),
    {
        self.counter = self.counter + 1;
        self.counter == 0
    }

    /// A timed wait ran out: when the waiter was still not woken, the event
    /// is reset and the wait reports a time-out; otherwise it succeeded.
    pub fn time_out(&mut self) -> (outcome: WaitOutcome)
        ensures
            old(self)@ < 0 ==> final(self)@ == 0 && outcome == WaitOutcome::TimedOut,
            old(self)@ >= 0 ==> final(self)@ == old(self)@ && outcome == WaitOutcome::Woken,
    {
        if self.counter < 0 {
            self.counter = 0;
            WaitOutcome::TimedOut
        } else {
            WaitOutcome::Woken
        }
    }
}

/// A wake that comes before the wait is not lost: after a wake on an event
/// nobody waits on, the next wait does not sleep.
pub proof fn lemma_pending_wake_not_lost(counter: int)
    requires
        counter >= 0,
    ensures
        !sleeping(after_wait(after_wake(counter))),
{
}

/// A waiter that sleeps on an idle event is signalled and released by the
/// next wake.
pub proof fn lemma_wake_releases_sleeper(counter: int)
    requires
        counter == 0,
    ensures
        sleeping(after_wait(counter)),
        signalled(after_wake(after_wait(counter))),
        !sleeping(after_wake(after_wait(counter))),
{
}

/// A wait followed by a wake leaves the counter as it was.
pub proof fn lemma_wait_then_wake_restores(counter: int)
    ensures
        after_wake(after_wait(counter)) == counter,
{
}

/// The counter after `k` wakes in a row.
pub open spec fn after_wakes(counter: int, k: nat) -> int
    decreases k,
{
    if k == 0 {
        counter
    } else {
        after_wake(after_wakes(counter, (k - 1) as nat))
    }
}

/// The counter after `k` waits in a row, each of which went through.
pub open spec fn after_waits(counter: int, k: nat) -> int
    decreases k,
{
    if k == 0 {
        counter
    } else {
        after_wait(after_waits(counter, (k - 1) as nat))
    }
}

proof fn lemma_after_wakes_value(counter: int, k: nat)
    ensures
        after_wakes(counter, k) == counter + k,
    decreases k,
{
    if k > 0 {
        lemma_after_wakes_value(counter, (k - 1) as nat);
    }
}

proof fn lemma_after_waits_value(counter: int, k: nat)
    ensures
        after_waits(counter, k) == counter - k,
    decreases k,
{
    if k > 0 {
        lemma_after_waits_value(counter, (k - 1) as nat);
    }
}

/// Wakes accumulate: after `k` wakes on an event nobody sleeps on, each of
/// the next `k` waits goes through without sleeping, and the event is then
/// as it was before the wakes.
pub proof fn lemma_wakes_accumulate(counter: int, k: nat)
    requires
        counter >= 0,
    ensures
        forall|i: nat| i < k ==> !sleeping(#[trigger] after_waits(after_wakes(counter, k), i + 1)),
        after_waits(after_wakes(counter, k), k) == counter,
{
    lemma_after_wakes_value(counter, k);
    assert forall|i: nat| i < k implies !sleeping(#[trigger] after_waits(after_wakes(counter, k), i + 1)) by {
        lemma_after_waits_value(after_wakes(counter, k), i + 1);
    }
    lemma_after_waits_value(after_wakes(counter, k), k);
}

/// When exactly one thread sleeps on the event and no wake is pending, the
/// next wake signals it and lets it go.
pub proof fn lemma_wake_releases_only_sleeper(counter: int)
    requires
        counter == -1,
    ensures
        signalled(after_wake(counter)),
        !sleeping(after_wake(counter)),
{
}

/// How a wait ended.
#[derive(Debug, Clone, Copy, PartialEq, Eq, Structural)]
pub enum WaitOutcome {
    /// The waiter was woken (or a wake was pending).
    Woken,
    /// The time limit passed before a wake came.
    TimedOut,
}

/// A time limit as the C `timespec` holds it.
#[derive(Debug, Clone, Copy, PartialEq, Eq, Structural)]
pub struct Timespec {
    pub tv_sec: i64,
    pub tv_nsec: i64,
}

/// Whether a time limit is usable: whole seconds not negative, and the
/// nanoseconds within one second.
pub open spec fn timespec_valid(t: Timespec) -> bool {
    t.tv_sec >= 0 && 0 <= t.tv_nsec <= 999_999_999
}

/// A time limit as seconds and nanoseconds; nothing when it is not usable.
pub fn timespec_to_duration(t: &Timespec) -> (r: Option<(u64, u32)>)
    ensures
        r is Some == timespec_valid(*t),
        r matches Some(d) ==> d.0 == t.tv_sec && d.1 == t.tv_nsec,
{
    if t.tv_nsec < 0 || t.tv_nsec > 999_999_999 {
        return None;
    }
    if t.tv_sec < 0 {
        return None;
    }
    Some((t.tv_sec as u64, t.tv_nsec as u32))
}

/// The status an ocall reports: the error code it stores and the value it
/// returns.
#[derive(Debug, Clone, Copy, PartialEq, Eq, Structural)]
pub struct OcallStatus {
    pub error: i32,
    pub ret: i32,
}

/// The status of an ocall that was handed no TCS: the invalid-argument code
/// `einval`, and -1.
pub fn null_tcs_status(einval: i32) -> (r: OcallStatus)
    ensures
        r == (OcallStatus { error: einval, ret: -1i32 }),
{
    OcallStatus { error: einval, ret: -1 }
}

/// The status of an ocall whose event operation gave `result`: success (0,
/// with the result returned) when it is 0, and otherwise the result as error
/// code with -1.
pub fn ocall_status(result: i32) -> (r: OcallStatus)
    ensures
        result == 0 ==> r == (OcallStatus { error: 0, ret: result }),
        result != 0 ==> r == (OcallStatus { error: result, ret: -1i32 }),
{
    if result != 0 {
        OcallStatus { error: result, ret: -1 }
    } else {
        OcallStatus { error: 0, ret: result }
    }
}

/// The event of one thread control structure (TCS).
pub struct SgxTcsInfo<E> {
    pub tcs: usize,
    pub se_event: E,
}

/// The events of the TCSs seen so far, one per TCS, in the order they were
/// first asked for.
pub struct SgxTcsInfoCache<E> {
    cache: Vec<SgxTcsInfo<E>>,
}

/// Whether no TCS occurs twice.
pub open spec fn distinct_tcs<E>(s: Seq<(usize, E)>) -> bool {
    forall|i: int, j: int| 0 <= i < s.len() && 0 <= j < s.len() && i != j ==> s[i].0 != s[j].0
}

/// Whether `tcs` has an event.
pub open spec fn has_tcs<E>(s: Seq<(usize, E)>, tcs: usize) -> bool {
    exists|i: int| 0 <= i < s.len() && s[i].0 == tcs
}

/// In a cache without duplicates, a TCS has its event at one position only,
/// so asking for the same TCS twice gives the same event.
pub proof fn lemma_tcs_position_unique<E>(s: Seq<(usize, E)>, i: int, j: int)
    requires
        distinct_tcs(s),
        0 <= i < s.len(),
        0 <= j < s.len(),
        s[i].0 == s[j].0,
    ensures
        i == j,
        s[i].1 == s[j].1,
{
}

/// The (TCS, event) pairs of a list of entries.
pub open spec fn tcs_entries<E>(v: Seq<SgxTcsInfo<E>>) -> Seq<(usize, E)> {
    Seq::new(v.len(), |i: int| (v[i].tcs, v[i].se_event))
}

impl<E> View for SgxTcsInfoCache<E> {
    type V = Seq<(usize, E)>;

    closed spec fn view(&self) -> Seq<(usize, E)> {
        tcs_entries(self.cache@)
    }
}

impl<E> SgxTcsInfoCache<E> {
    /// No TCS has two events.
    #[verifier::type_invariant]
    spec fn one_event_per_tcs(self) -> bool {
        distinct_tcs(self@)
    }

    /// An empty cache.
    pub fn new() -> (r: SgxTcsInfoCache<E>)
        ensures
            r@ == Seq::<(usize, E)>::empty(),
    {
        let r = SgxTcsInfoCache { cache: Vec::new() };
        assert(r@ =~= Seq::<(usize, E)>::empty());
        r
    }

    /// The number of TCSs that have an event.
    pub fn len(&self) -> (n: usize)
        ensures
            n == self@.len(),
    {
        self.cache.len()
    }

    /// The position of the event of `tcs`, if it has one; no other position
    /// holds an event of `tcs`.
    pub fn position(&self, tcs: usize) -> (r: Option<usize>)
        ensures
            r matches Some(i) ==> i < self@.len() && self@[i as int].0 == tcs && forall|j: int|
                0 <= j < self@.len() && j != i ==> self@[j].0 != tcs,
            r is None ==> !has_tcs(self@, tcs),
    {
        proof {
            use_type_invariant(self);
        }
        let mut i: usize = 0;
        while i < self.cache.len()
            invariant
                i <= self.cache@.len(),
                forall|j: int| 0 <= j < i ==> self@[j].0 != tcs,
                distinct_tcs(self@),
            decreases self.cache.len() - i,
        {
            if self.cache[i].tcs == tcs {
                assert(self@[i as int].0 == tcs);
                return Some(i);
            }
            i += 1;
        }
        None
    }

    /// The event at position `i`.
    pub fn event_at(&self, i: usize) -> (r: &E)
        requires
            i < self@.len(),
        ensures
            *r == self@[i as int].1,
    {
        &self.cache[i].se_event
    }

    /// The position of the event of `tcs`; when it has none yet, `make`
    /// creates one, which is added last.  No TCS ever has two events, so the
    /// position is the only one that holds an event of `tcs`.
    pub fn get_event<F: FnOnce() -> E>(&mut self, tcs: usize, make: F) -> (r: usize)
        requires
            make.requires(()),
        ensures
            has_tcs(old(self)@, tcs) ==> final(self)@ == old(self)@,
            !has_tcs(old(self)@, tcs) ==> r == old(self)@.len() && final(self)@.len() == old(
                self,
            )@.len() + 1 && final(self)@.take(r as int) == old(self)@ && make.ensures(
                (),
                final(self)@[r as int].1,
            ),
            r < final(self)@.len(),
            final(self)@[r as int].0 == tcs,
            forall|j: int| 0 <= j < final(self)@.len() && j != r ==> final(self)@[j].0 != tcs,
            distinct_tcs(final(self)@),
    {
        proof {
            use_type_invariant(&*self);
        }
        match self.position(tcs) {
            Some(i) => i,
            None => {
                let ghost before = self@;
                let e = make();
                let mut entries: Vec<SgxTcsInfo<E>> = Vec::new();
                std::mem::swap(&mut entries, &mut self.cache);
                assert(tcs_entries(entries@) == before);
                entries.push(SgxTcsInfo { tcs, se_event: e });
                let r = entries.len() - 1;
                let ghost after = tcs_entries(entries@);
                proof {
                    assert(after.take(r as int) =~= before);
                    assert forall|k: int| 0 <= k < before.len() implies after[k] == before[k] by {
                        assert(after.take(r as int)[k] == after[k]);
                    }
                    assert(after[r as int].0 == tcs);
                    assert forall|i: int, j: int|
                        0 <= i < after.len() && 0 <= j < after.len() && i != j implies after[i].0
                        != after[j].0 by {
                        if i == r && j < r {
                            if before[j].0 == tcs {
                                assert(has_tcs(before, tcs));
                            }
                        } else if j == r && i < r {
                            if before[i].0 == tcs {
                                assert(has_tcs(before, tcs));
                            }
                        }
                    }
                }
                self.cache = entries;
                r
            },
        }
    }
}

/// The events held in a cache slot: none before the slot is set up.
pub open spec fn slot_events<E>(slot: Option<SgxTcsInfoCache<E>>) -> Seq<(usize, E)> {
    match slot {
        Some(c) => c@,
        None => Seq::empty(),
    }
}

/// The position of the event of `tcs` in the cache held in `slot`, which is
/// set up empty on first use; when `tcs` has no event yet, `make` creates
/// one, which is added last.
pub fn get_tcs_event<E, F: FnOnce() -> E>(
    slot: &mut Option<SgxTcsInfoCache<E>>,
    tcs: usize,
    make: F,
) -> (r: usize)
    requires
        make.requires(()),
    ensures
        (*final(slot)) is Some,
        has_tcs(slot_events(*old(slot)), tcs) ==> slot_events(*final(slot)) == slot_events(
            *old(slot),
        ),
        !has_tcs(slot_events(*old(slot)), tcs) ==> r == slot_events(*old(slot)).len()
            && slot_events(*final(slot)).len() == slot_events(*old(slot)).len() + 1
            && slot_events(*final(slot)).take(r as int) == slot_events(*old(slot))
            && make.ensures((), slot_events(*final(slot))[r as int].1),
        r < slot_events(*final(slot)).len(),
        slot_events(*final(slot))[r as int].0 == tcs,
        forall|j: int|
            0 <= j < slot_events(*final(slot)).len() && j != r ==> slot_events(*final(slot))[j].0
                != tcs,
        distinct_tcs(slot_events(*final(slot))),
{
    let mut cache = match slot.take() {
        Some(c) => c,
        None => SgxTcsInfoCache::new(),
    };
    let r = cache.get_event(tcs, make);
    *slot = Some(cache);
    r
}

/// What an allocation-failure hook slot holds: the hook registered last, if
/// it has not been taken since.
pub struct AllocErrorHook<H> {
    hook: Option<H>,
}

impl<H> View for AllocErrorHook<H> {
    type V = Option<H>;

    closed spec fn view(&self) -> Option<H> {
        self.hook
    }
}

impl<H> AllocErrorHook<H> {
    /// A slot with no hook registered (the default hook applies).
    pub fn new() -> (r: AllocErrorHook<H>)
        ensures
            r@ is None,
    {
        AllocErrorHook { hook: None }
    }

    /// Registers a custom allocation error hook, replacing any that was
    /// previously registered.
    pub fn set_alloc_error_hook(&mut self, hook: H)
        ensures
            final(self)@ == Some(hook),
    {
        self.hook = Some(hook);
    }

    /// Unregisters the current allocation error hook, returning it; nothing
    /// when none is registered, in which case the default hook applies.
    pub fn take_alloc_error_hook(&mut self) -> (r: Option<H>)
        ensures
            r == old(self)@,
            final(self)@ is None,
    {
        self.hook.take()
    }

    /// The registered hook, if any, without unregistering it.
    pub fn current(&self) -> (r: Option<&H>)
        ensures
            r matches Some(h) ==> self@ == Some(*h),
            r is None ==> self@ is None,
    {
        match &self.hook {
            Some(h) => Some(h),
            None => None,
        }
    }
}

} // verus!
