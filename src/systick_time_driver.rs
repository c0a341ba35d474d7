//! Tick counter with a fixed pool of alarm slots.
//!
//! Each slot holds a deadline; `u64::MAX` means that the slot is not armed.
//! The periodic tick fires every armed slot whose deadline has been reached
//! and disarms it. The callbacks themselves stay with the caller, one per
//! slot, and are invoked for the slots that a tick reports as fired.
use vstd::prelude::*;

verus! {

/// Number of alarm slots.
pub const ALARM_COUNT: usize = 3;

/// Deadline of a slot that is not armed.
pub const NO_DEADLINE: u64 = u64::MAX;

/// Largest reload value of the 24-bit tick timer.
pub const MAX_RELOAD: u64 = 0x00FF_FFFF;

/// State of one alarm slot.
#[derive(Clone, Copy, Debug, PartialEq, Eq, Structural)]
pub struct AlarmState {
    pub timestamp: u64,
}

impl AlarmState {
    /// A slot that is not armed.
    pub fn new() -> (r: Self)
        ensures
            r.timestamp == NO_DEADLINE,
    {
        AlarmState { timestamp: NO_DEADLINE }
    }
}

/// The reload value that makes a timer clocked at `core_clock` hertz tick at
/// `tick_hz` hertz, or `None` when that rate cannot be reached.
pub fn reload_value(core_clock: u32, tick_hz: u64) -> (r: Option<u32>)
    ensures
        tick_hz == 0 ==> r is None,
        tick_hz > 0 && 0 < (core_clock as u64) / tick_hz <= MAX_RELOAD ==> r == Some(
            ((core_clock as u64) / tick_hz - 1) as u32,
        ),
        tick_hz > 0 && !(0 < (core_clock as u64) / tick_hz <= MAX_RELOAD) ==> r is None,
{
    match (core_clock as u64).checked_div(tick_hz) {
        Some(div) => {
            if div > 0 && div <= MAX_RELOAD {
                Some((div - 1) as u32)
            } else {
                None
            }
        },
        None => None,
    }
}

/// Tick count, allocated slots and slot deadlines, as values.
pub struct TimerModel {
    pub ticks: u64,
    pub alarm_count: u32,
    pub deadlines: Seq<u64>,
}

/// Whether slot `n` fires at tick `now`.
pub open spec fn due(deadline: u64, now: u64) -> bool {
    deadline != NO_DEADLINE && now >= deadline
}

/// Tick-driven time source with `ALARM_COUNT` alarm slots.
pub struct SysTickDriver {
    ticks: u64,
    alarm_count: u32,
    alarms: Vec<AlarmState>,
}

impl View for SysTickDriver {
    type V = TimerModel;

    closed spec fn view(&self) -> TimerModel {
        TimerModel {
            ticks: self.ticks,
            alarm_count: self.alarm_count,
            deadlines: self.alarms@.map_values(|a: AlarmState| a.timestamp),
        }
    }
}

impl SysTickDriver {
    pub closed spec fn wf(&self) -> bool {
        self.alarms@.len() == ALARM_COUNT && self.alarm_count <= ALARM_COUNT
    }

    /// A well-formed driver has one deadline per slot and has handed out at
    /// most every slot.
    pub proof fn lemma_wf_len(&self)
        requires
            self.wf(),
        ensures
            self@.deadlines.len() == ALARM_COUNT,
            self@.alarm_count <= ALARM_COUNT,
    {
    }

    /// No tick elapsed, no slot allocated, no slot armed.
    pub fn new() -> (r: Self)
        ensures
            r.wf(),
            r@.ticks == 0,
            r@.alarm_count == 0,
            r@.deadlines == seq![NO_DEADLINE, NO_DEADLINE, NO_DEADLINE],
    {
        let alarms = vec![AlarmState::new(), AlarmState::new(), AlarmState::new()];
        let r = SysTickDriver { ticks: 0, alarm_count: 0, alarms };
        assert(r@.deadlines =~= seq![NO_DEADLINE, NO_DEADLINE, NO_DEADLINE]);
        r
    }

    /// Ticks elapsed since start.
    pub fn now(&self) -> (r: u64)
        ensures
            r == self@.ticks,
    {
        self.ticks
    }

    /// The deadline of slot `alarm`.
    pub fn deadline(&self, alarm: u8) -> (r: u64)
        requires
            self.wf(),
            alarm < ALARM_COUNT,
        ensures
            r == self@.deadlines[alarm as int],
    {
        self.alarms[alarm as usize].timestamp
    }

    /// Hands out the next free slot; slots are never freed.
    pub fn allocate_alarm(&mut self) -> (r: Option<u8>)
        requires
            old(self).wf(),
        ensures
            final(self).wf(),
            final(self)@.ticks == old(self)@.ticks,
            final(self)@.deadlines == old(self)@.deadlines,
            old(self)@.alarm_count < ALARM_COUNT ==> r == Some(old(self)@.alarm_count as u8)
                && final(self)@.alarm_count == old(self)@.alarm_count + 1,
            old(self)@.alarm_count >= ALARM_COUNT ==> r is None && final(self)@ == old(self)@,
    {
        let id = self.alarm_count;
        if id < ALARM_COUNT as u32 {
            self.alarm_count = id + 1;
            Some(id as u8)
        } else {
            None
        }
    }

    /// Arms slot `alarm` for tick `timestamp`. A deadline that is not after
    /// the current tick is refused, and the slot keeps its previous state.
    pub fn set_alarm(&mut self, alarm: u8, timestamp: u64) -> (r: bool)
        requires
            old(self).wf(),
            alarm < ALARM_COUNT,
        ensures
            final(self).wf(),
            r == (timestamp > old(self)@.ticks),
            !r ==> final(self)@ == old(self)@,
            r ==> final(self)@.deadlines == old(self)@.deadlines.update(alarm as int, timestamp),
            final(self)@.ticks == old(self)@.ticks,
            final(self)@.alarm_count == old(self)@.alarm_count,
    {
        let current_time = self.now();
        if timestamp <= current_time {
            return false;
        }
        self.alarms.set(alarm as usize, AlarmState { timestamp });
        proof {
            assert(self@.deadlines =~= old(self)@.deadlines.update(alarm as int, timestamp));
        }
        true
    }

    /// One period of the tick timer: advances the counter (wrapping) and
    /// fires, then disarms, every armed slot whose deadline is not after the
    /// tick count read before the increment. Returns, per slot, whether it
    /// fired.
    pub fn on_systick(&mut self) -> (fired: Vec<bool>)
        requires
            old(self).wf(),
        ensures
            final(self).wf(),
            old(self)@.ticks < u64::MAX ==> final(self)@.ticks == old(self)@.ticks + 1,
            final(self)@.ticks == (old(self)@.ticks + 1) % 0x1_0000_0000_0000_0000,
            final(self)@.alarm_count == old(self)@.alarm_count,
            fired@.len() == ALARM_COUNT,
            forall|n: int|
                0 <= n < ALARM_COUNT ==> #[trigger] fired@[n] == due(
                    old(self)@.deadlines[n],
                    old(self)@.ticks,
                ),
            forall|n: int|
                0 <= n < ALARM_COUNT ==> #[trigger] final(self)@.deadlines[n] == if due(
                    old(self)@.deadlines[n],
                    old(self)@.ticks,
                ) {
                    NO_DEADLINE
                } else {
                    old(self)@.deadlines[n]
                },
    {
        let current_time = self.ticks;
        self.ticks = if self.ticks == u64::MAX {
            0
        } else {
            self.ticks + 1
        };
        let mut fired: Vec<bool> = Vec::new();
        let mut n: usize = 0;
        while n < ALARM_COUNT
            invariant
                self.wf(),
                current_time == old(self)@.ticks,
                old(self).wf(),
                self.alarm_count == old(self).alarm_count,
                self@.ticks == (old(self)@.ticks + 1) % 0x1_0000_0000_0000_0000,
                n <= ALARM_COUNT,
                fired@.len() == n,
                forall|m: int|
                    0 <= m < n ==> #[trigger] fired@[m] == due(
                        old(self)@.deadlines[m],
                        current_time,
                    ),
                forall|m: int|
                    0 <= m < ALARM_COUNT ==> #[trigger] self@.deadlines[m] == if m < n && due(
                        old(self)@.deadlines[m],
                        current_time,
                    ) {
                        NO_DEADLINE
                    } else {
                        old(self)@.deadlines[m]
                    },
            decreases ALARM_COUNT - n,
        {
            let fire = self.check_and_trigger_alarm(n, current_time);
            fired.push(fire);
            n = n + 1;
        }
        fired
    }

    fn check_and_trigger_alarm(&mut self, n: usize, current_time: u64) -> (fire: bool)
        requires
            old(self).wf(),
            n < ALARM_COUNT,
        ensures
            final(self).wf(),
            final(self).ticks == old(self).ticks,
            final(self).alarm_count == old(self).alarm_count,
            fire == due(old(self)@.deadlines[n as int], current_time),
            final(self)@.deadlines == if fire {
                old(self)@.deadlines.update(n as int, NO_DEADLINE)
            } else {
                old(self)@.deadlines
            },
    {
        let alarm_timestamp = self.alarms[n].timestamp;
        if alarm_timestamp != NO_DEADLINE && current_time >= alarm_timestamp {
            self.alarms.set(n, AlarmState { timestamp: NO_DEADLINE });
            proof {
                assert(self@.deadlines =~= old(self)@.deadlines.update(n as int, NO_DEADLINE));
            }
            true
        } else {
            false
        }
    }
}

} // verus!
