//! Tick counter with one hardware-adjacent alarm fed from a shared timer
//! queue of waiting tasks.
//!
//! The alarm always holds the earliest deadline still waiting in the queue.
//! When the tick reaches it, the queue wakes the expired tasks and the alarm
//! is re-armed at the earliest deadline left. The caller owns the queue and
//! enqueues tasks into it, with wakers of the embassy executor.
use vstd::multiset::Multiset;
use vstd::prelude::*;

use crate::systick_time_driver::{due, AlarmState, NO_DEADLINE};

verus! {

/// The deadlines of the tasks waiting in `q`, one per task.
pub uninterp spec fn queue_deadlines(q: embassy_time_queue_utils::Queue) -> Multiset<u64>;

/// `after` holds exactly the deadlines of `before` that lie after `now` and
/// below `u64::MAX`, with their counts.
pub open spec fn expired_removed(before: Multiset<u64>, after: Multiset<u64>, now: u64) -> bool {
    forall|d: u64|
        #[trigger] after.count(d) == if now < d && d < u64::MAX {
            before.count(d)
        } else {
            0
        }
}

/// `r` is the least deadline in `m`, or `u64::MAX` when `m` is empty.
pub open spec fn least_deadline(m: Multiset<u64>, r: u64) -> bool {
    &&& forall|d: u64| #[trigger] m.count(d) > 0 ==> r <= d
    &&& (r == u64::MAX || m.count(r) > 0)
}

/// Relies on `Queue::next_expiration` of embassy-time-queue-utils: it wakes
/// and removes every task whose deadline is not after `now`, removes
/// without waking those whose deadline is `u64::MAX`, keeps the others, and
/// returns the least deadline kept, or `u64::MAX` when none is kept.
#[verifier::external_body]
fn next_expiration(queue: &mut embassy_time_queue_utils::Queue, now: u64) -> (r: u64)
    ensures
        expired_removed(queue_deadlines(*old(queue)), queue_deadlines(*final(queue)), now),
        least_deadline(queue_deadlines(*final(queue)), r),
{
    queue.next_expiration(now)
}

/// Tick count and alarm deadline, as values.
pub struct QueueTimerModel {
    pub ticks: u64,
    pub alarm: u64,
}

/// Tick-driven time source whose one alarm follows a timer queue.
pub struct SysTickDriver {
    ticks: u64,
    alarm: AlarmState,
}

impl View for SysTickDriver {
    type V = QueueTimerModel;

    closed spec fn view(&self) -> QueueTimerModel {
        QueueTimerModel { ticks: self.ticks, alarm: self.alarm.timestamp }
    }
}

impl SysTickDriver {
    /// No tick elapsed, the alarm not armed.
    pub fn new() -> (r: Self)
        ensures
            r@.ticks == 0,
            r@.alarm == NO_DEADLINE,
    {
        SysTickDriver { ticks: 0, alarm: AlarmState::new() }
    }

    /// Ticks elapsed since start.
    pub fn now(&self) -> (r: u64)
        ensures
            r == self@.ticks,
    {
        self.ticks
    }

    /// The deadline the alarm is armed at.
    pub fn alarm(&self) -> (r: u64)
        ensures
            r == self@.alarm,
    {
        self.alarm.timestamp
    }

    /// Arms the alarm for tick `timestamp`. A deadline that is not after the
    /// current tick is refused, and the alarm keeps its previous state.
    pub fn set_alarm(&mut self, timestamp: u64) -> (r: bool)
        ensures
            r == (timestamp > old(self)@.ticks),
            r ==> final(self)@.alarm == timestamp,
            !r ==> final(self)@.alarm == old(self)@.alarm,
            final(self)@.ticks == old(self)@.ticks,
    {
        if self.now() >= timestamp {
            return false;
        }
        self.alarm.timestamp = timestamp;
        true
    }

    /// Arms the alarm at `next`, a deadline the queue reported, when it is
    /// still in the future; otherwise lets the queue wake what has expired
    /// and arms the alarm at the least deadline left. Returns the deadline
    /// armed.
    pub fn rearm(&mut self, queue: &mut embassy_time_queue_utils::Queue, next: u64) -> (armed: u64)
        ensures
            final(self)@.ticks == old(self)@.ticks,
            next > old(self)@.ticks ==> armed == next && final(self)@.alarm == next
                && queue_deadlines(*final(queue)) == queue_deadlines(*old(queue)),
            next <= old(self)@.ticks ==> expired_removed(
                queue_deadlines(*old(queue)),
                queue_deadlines(*final(queue)),
                old(self)@.ticks,
            ) && least_deadline(queue_deadlines(*final(queue)), armed),
            old(self)@.ticks < u64::MAX ==> armed > old(self)@.ticks && final(self)@.alarm
                == armed,
    {
        if self.set_alarm(next) {
            return next;
        }
        let now = self.now();
        let later = next_expiration(queue, now);
        let _ = self.set_alarm(later);
        later
    }

    /// One period of the tick timer: advances the counter (wrapping) and,
    /// when the alarm is due at the count read before the increment, lets
    /// the queue wake the tasks whose deadline has passed and re-arms the
    /// alarm at the least deadline left. Returns that deadline when the
    /// alarm was due, `None` when it was not.
    pub fn on_systick(&mut self, queue: &mut embassy_time_queue_utils::Queue) -> (armed: Option<u64>)
        ensures
            old(self)@.ticks < u64::MAX ==> final(self)@.ticks == old(self)@.ticks + 1,
            final(self)@.ticks == (old(self)@.ticks + 1) % 0x1_0000_0000_0000_0000,
            armed is Some == due(old(self)@.alarm, old(self)@.ticks),
            armed is None ==> final(self)@.alarm == old(self)@.alarm && queue_deadlines(
                *final(queue),
            ) == queue_deadlines(*old(queue)),
            armed is Some ==> least_deadline(queue_deadlines(*final(queue)), armed->0),
            armed is Some ==> forall|d: u64|
                #[trigger] queue_deadlines(*final(queue)).count(d) <= queue_deadlines(
                    *old(queue),
                ).count(d) && (queue_deadlines(*final(queue)).count(d) > 0 ==> old(self)@.ticks
                    < d < u64::MAX),
            armed is Some && old(self)@.ticks < u64::MAX ==> forall|d: u64|
                old(self)@.ticks + 1 < d < u64::MAX ==> #[trigger] queue_deadlines(
                    *final(queue),
                ).count(d) == queue_deadlines(*old(queue)).count(d),
            armed is Some && final(self)@.ticks < u64::MAX ==> final(self)@.alarm == armed->0
                && armed->0 > final(self)@.ticks,
    {
        let current_time = self.ticks;
        self.ticks = if self.ticks == u64::MAX {
            0
        } else {
            self.ticks + 1
        };
        let alarm_timestamp = self.alarm.timestamp;
        if alarm_timestamp != NO_DEADLINE && current_time >= alarm_timestamp {
            let ghost q0 = queue_deadlines(*queue);
            let next = next_expiration(queue, current_time);
            let ghost q1 = queue_deadlines(*queue);
            let armed = self.rearm(queue, next);
            proof {
                let q2 = queue_deadlines(*queue);
                if next <= self.ticks {
                    assert forall|d: u64| #[trigger] q2.count(d) <= q0.count(d) by {
                        assert(q1.count(d) <= q0.count(d));
                    }
                }
            }
            Some(armed)
        } else {
            None
        }
    }

    /// Follows up a `schedule_wake` on the queue, which reported
    /// `next_changed`: when the queue's next expiration may have changed,
    /// lets the queue wake what has expired and arms the alarm at the least
    /// deadline left. Returns that deadline, `None` when the queue was not
    /// asked.
    pub fn schedule_wake(
        &mut self,
        queue: &mut embassy_time_queue_utils::Queue,
        next_changed: bool,
    ) -> (armed: Option<u64>)
        ensures
            final(self)@.ticks == old(self)@.ticks,
            armed is Some == next_changed,
            !next_changed ==> final(self)@.alarm == old(self)@.alarm && queue_deadlines(
                *final(queue),
            ) == queue_deadlines(*old(queue)),
            next_changed ==> expired_removed(
                queue_deadlines(*old(queue)),
                queue_deadlines(*final(queue)),
                old(self)@.ticks,
            ),
            next_changed ==> least_deadline(queue_deadlines(*final(queue)), armed->0),
            next_changed && old(self)@.ticks < u64::MAX ==> final(self)@.alarm == armed->0,
    {
        if next_changed {
            let now = self.now();
            let next = next_expiration(queue, now);
            let armed = self.rearm(queue, next);
            Some(armed)
        } else {
            None
        }
    }
}

} // verus!
