//! The alarm queue of the time driver.
//!
//! Pending wake-ups are held in the timer queue of `embassy-time-queue-utils`
//! (its generic, fixed-capacity form). The driver expires due entries and
//! decides which deadline the hardware comparator is armed for; the clock is
//! read by the caller and handed in.
use vstd::multiset::Multiset;
use vstd::prelude::*;

verus! {

#[verifier::external_type_specification]
#[verifier::external_body]
pub struct ExQueue(embassy_time_queue_utils::Queue);

#[verifier::external_type_specification]
#[verifier::external_body]
pub struct ExWaker(core::task::Waker);

/// Capacity of the timer queue, as selected by its `generic-queue-16` feature.
pub const QUEUE_CAPACITY: usize = 16;

/// The deadlines of the timers that a queue holds, one per timer.
pub uninterp spec fn queue_deadlines(q: embassy_time_queue_utils::Queue) -> Multiset<u64>;

/// `v` is the next alarm time of a queue holding `m`: its earliest deadline,
/// or `u64::MAX` when it is empty.
pub open spec fn is_next_alarm(m: Multiset<u64>, v: u64) -> bool {
    if m.len() == 0 {
        v == u64::MAX
    } else {
        m.contains(v) && forall|d: u64| m.contains(d) ==> v <= d
    }
}

/// The deadlines left once those at or before `now` have expired.
pub open spec fn expire(m: Multiset<u64>, now: u64) -> Multiset<u64> {
    m.filter(|d: u64| d > now)
}

/// What scheduling a wake-up at `at` may do to a queue holding `old`, leaving
/// `new` and reporting `changed`. The waker's own timer is found by waker
/// identity: if it is due no later than `at`, nothing changes; if it is due
/// later, it is moved to `at`. A waker with no timer gets a new one at `at`;
/// in a full queue the last timer is first woken and dropped to make room.
pub open spec fn schedule_outcome(
    old: Multiset<u64>,
    at: u64,
    changed: bool,
    new: Multiset<u64>,
) -> bool {
    if !changed {
        new == old && exists|d: u64| old.contains(d) && d <= at
    } else {
        ||| (exists|d: u64| old.contains(d) && d > at && new == old.remove(d).insert(at))
        ||| (old.len() < QUEUE_CAPACITY && new == old.insert(at))
        ||| (old.len() == QUEUE_CAPACITY && exists|d: u64|
            old.contains(d) && new == old.remove(d).insert(at))
    }
}

/// Relies on `Queue::new`: a queue starts with no timer.
#[verifier::external_body]
fn queue_new() -> (r: embassy_time_queue_utils::Queue)
    ensures
        queue_deadlines(r) =~= Multiset::empty(),
{
    embassy_time_queue_utils::Queue::new()
}

/// Relies on `Queue::schedule_wake`: it finds the waker's timer and keeps the
/// earlier deadline, or pushes a new timer, waking and popping the last one
/// while the queue is full.
#[verifier::external_body]
fn queue_schedule_wake(
    q: &mut embassy_time_queue_utils::Queue,
    at: u64,
    waker: &core::task::Waker,
) -> (r: bool)
    requires
        queue_deadlines(*old(q)).len() <= QUEUE_CAPACITY,
    ensures
        schedule_outcome(queue_deadlines(*old(q)), at, r, queue_deadlines(*final(q))),
        queue_deadlines(*final(q)).len() <= QUEUE_CAPACITY,
{
    q.schedule_wake(at, waker)
}

/// Relies on `Queue::next_expiration`: it wakes and removes every timer due at
/// or before `now` and returns the minimum deadline of the rest, starting
/// from `u64::MAX`.
#[verifier::external_body]
fn queue_next_expiration(q: &mut embassy_time_queue_utils::Queue, now: u64) -> (r: u64)
    requires
        queue_deadlines(*old(q)).len() <= QUEUE_CAPACITY,
    ensures
        queue_deadlines(*final(q)) == expire(queue_deadlines(*old(q)), now),
        queue_deadlines(*final(q)).len() <= queue_deadlines(*old(q)).len(),
        is_next_alarm(queue_deadlines(*final(q)), r),
{
    q.next_expiration(now)
}

/// The time driver: its queue of pending wake-ups and the value last armed
/// into the hardware deadline comparator (`u64::MAX` while disarmed).
pub struct TimeDriver {
    queue: embassy_time_queue_utils::Queue,
    alarm: u64,
}

impl TimeDriver {
    /// The deadlines of the pending wake-ups.
    pub closed spec fn deadlines(&self) -> Multiset<u64> {
        queue_deadlines(self.queue)
    }

    /// The value armed into the comparator.
    pub closed spec fn armed(&self) -> u64 {
        self.alarm
    }

    /// The queue is within its capacity.
    pub open spec fn wf(&self) -> bool {
        self.deadlines().len() <= QUEUE_CAPACITY
    }

    /// The comparator fires no later than any pending deadline.
    pub open spec fn alarm_covers_queue(&self) -> bool {
        forall|d: u64| self.deadlines().contains(d) ==> self.armed() <= d
    }

    /// A driver with no pending wake-up and the comparator disarmed.
    pub fn new() -> (r: TimeDriver)
        ensures
            r.wf(),
            r.deadlines() =~= Multiset::empty(),
            r.armed() == u64::MAX,
            r.alarm_covers_queue(),
    {
        TimeDriver { queue: queue_new(), alarm: u64::MAX }
    }

    /// The value armed into the comparator.
    pub fn alarm(&self) -> (r: u64)
        ensures
            r == self.armed(),
    {
        self.alarm
    }

    /// Arms the comparator for `timestamp` if it lies after `now`, the clock
    /// reading at the time of arming; a deadline already passed is refused.
    pub fn set_alarm(&mut self, timestamp: u64, now: u64) -> (r: bool)
        ensures
            r == (timestamp > now),
            final(self).armed() == if r {
                timestamp
            } else {
                old(self).armed()
            },
            final(self).deadlines() == old(self).deadlines(),
    {
        if timestamp > now {
            self.alarm = timestamp;
            true
        } else {
            false
        }
    }

    /// Wakes and removes every entry due at or before `now`, and returns the
    /// next alarm time: the earliest remaining deadline, or `u64::MAX`.
    pub fn next_expiration(&mut self, now: u64) -> (r: u64)
        requires
            old(self).wf(),
        ensures
            final(self).wf(),
            final(self).deadlines() == expire(old(self).deadlines(), now),
            is_next_alarm(final(self).deadlines(), r),
            final(self).armed() == old(self).armed(),
    {
        queue_next_expiration(&mut self.queue, now)
    }

    /// Schedules `waker` to be woken at `at`. Returns whether the queue
    /// changed, in which case the caller re-arms the comparator with
    /// `on_interrupt`; otherwise everything stays as it was.
    pub fn schedule_wake(&mut self, at: u64, waker: &core::task::Waker) -> (r: bool)
        requires
            old(self).wf(),
        ensures
            final(self).wf(),
            schedule_outcome(old(self).deadlines(), at, r, final(self).deadlines()),
            final(self).armed() == old(self).armed(),
            !r ==> final(self).alarm_covers_queue() == old(self).alarm_covers_queue(),
    {
        let r = queue_schedule_wake(&mut self.queue, at, waker);
        proof {
            if !r {
                assert(self.deadlines() == old(self).deadlines());
            }
        }
        r
    }

    /// One pass of the alarm protocol that the timer interrupt runs, and that
    /// follows a scheduling that changed the queue: expire every entry due at
    /// the clock reading `expire_at`, then try to arm the comparator for the
    /// next alarm time against the later reading `arm_at`. Returns whether it
    /// was armed; if the clock passed that deadline in between, the caller
    /// reads the clock again and repeats.
    pub fn on_interrupt(&mut self, expire_at: u64, arm_at: u64) -> (r: bool)
        requires
            old(self).wf(),
        ensures
            final(self).wf(),
            final(self).deadlines() == expire(old(self).deadlines(), expire_at),
            r == exists|v: u64| is_next_alarm(final(self).deadlines(), v) && v > arm_at,
            r ==> is_next_alarm(final(self).deadlines(), final(self).armed()),
            r ==> final(self).alarm_covers_queue(),
            !r ==> final(self).armed() == old(self).armed(),
    {
        let next = self.next_expiration(expire_at);
        let armed = self.set_alarm(next, arm_at);
        proof {
            lemma_next_alarm_unique(self.deadlines(), next);
        }
        armed
    }
}

/// A queue has one next alarm time.
pub proof fn lemma_next_alarm_unique(m: Multiset<u64>, v: u64)
    requires
        is_next_alarm(m, v),
    ensures
        forall|w: u64| is_next_alarm(m, w) ==> w == v,
{
}

/// A wake-up scheduled at or before the clock is woken by the very next alarm
/// pass: the queue then holds a timer due no later than it, which that pass
/// removes, and leaves no timer that is due.
pub proof fn lemma_due_wake_fires_next_pass(
    old: Multiset<u64>,
    at: u64,
    changed: bool,
    new: Multiset<u64>,
    now: u64,
)
    requires
        schedule_outcome(old, at, changed, new),
        at <= now,
    ensures
        exists|d: u64| new.contains(d) && d <= at && !expire(new, now).contains(d),
        forall|d: u64| expire(new, now).contains(d) ==> d > now,
{
    if changed {
        assert(new.contains(at));
        assert(!expire(new, now).contains(at));
    } else {
        let d = choose|d: u64| old.contains(d) && d <= at;
        assert(!expire(new, now).contains(d));
    }
}

/// When the clock has not reached its last value, the next alarm time after
/// expiring at the clock lies after it, so a pass that reads the clock once
/// arms the comparator at its first attempt.
pub proof fn lemma_next_alarm_after_clock(m: Multiset<u64>, now: u64, next: u64)
    requires
        is_next_alarm(expire(m, now), next),
        now < u64::MAX,
    ensures
        next > now,
{
    if expire(m, now).len() != 0 {
        assert(expire(m, now).contains(next));
    }
}

/// After a scheduling that changed the queue, a re-arm pass at `now` arms the
/// comparator for the earliest unexpired deadline, which is no later than the
/// new deadline when that one lies in the future.
pub proof fn lemma_rearm_after_insert(
    old: Multiset<u64>,
    at: u64,
    new: Multiset<u64>,
    now: u64,
    next: u64,
)
    requires
        schedule_outcome(old, at, true, new),
        at > now,
        is_next_alarm(expire(new, now), next),
    ensures
        next <= at,
        expire(new, now).contains(next),
        forall|d: u64| expire(new, now).contains(d) ==> next <= d,
{
    assert(new.contains(at));
    assert(expire(new, now).contains(at));
}

} // verus!
