//! A time driver with a fixed table of alarms, each armed on one of the LPC55's
//! CTIMER match registers.

use atomic_polyfill::{AtomicU64, AtomicU8};
use vstd::prelude::*;

verus! {

/// Number of alarms that the driver hands out, one per CTIMER.
pub const ALARM_COUNT: usize = 5;

/// Identifies an alarm of the driver.
#[derive(Debug, Eq, PartialEq, Clone, Copy, Structural)]
pub struct AlarmHandle {
    id: u8,
}

impl AlarmHandle {
    /// The identifier of the alarm.
    pub closed spec fn id_spec(self) -> u8 {
        self.id
    }

    /// Create a handle for alarm `id`.
    pub fn new(id: u8) -> (r: Self)
        ensures
            r.id_spec() == id,
    {
        Self { id }
    }

    /// The identifier of the alarm.
    pub fn id(&self) -> (r: u8)
        ensures
            r == self.id_spec(),
    {
        self.id
    }
}

/// The tick that follows `x`, where there is one.
pub open spec fn tick_after(x: u64) -> Option<u64> {
    if x < u64::MAX {
        Some((x + 1) as u64)
    } else {
        None
    }
}

/// The next alarm counter after `x`: the counter moves on while alarms are left.
pub open spec fn alarm_counter_after(x: u8) -> Option<u8> {
    if (x as int) < ALARM_COUNT {
        Some((x + 1) as u8)
    } else {
        None
    }
}

/// The update of the tick counter: one more tick.
pub fn next_tick(x: u64) -> (r: Option<u64>)
    ensures
        r == tick_after(x),
{
    x.checked_add(1)
}

/// The update of the alarm counter: hands out the next alarm while one is left.
pub fn next_alarm_counter(x: u8) -> (r: Option<u8>)
    ensures
        r == alarm_counter_after(x),
{
    if (x as usize) < ALARM_COUNT {
        Some(x + 1)
    } else {
        None
    }
}

/// The tick that a counter update reports: the counter's value before the update.
pub fn tick_from_update(update: Result<u64, u64>) -> (t: u64)
    ensures
        update matches Ok(prev) ==> t == prev,
        update matches Err(prev) ==> t == prev,
{
    match update {
        Ok(prev) => prev,
        Err(prev) => prev,
    }
}

/// The alarm that an alarm-counter update hands out: the counter's value before the
/// update, or none where the counter was left unchanged.
pub fn alarm_from_update(update: Result<u8, u8>) -> (r: Option<AlarmHandle>)
    ensures
        update matches Ok(prev) ==> r matches Some(h) && h.id_spec() == prev,
        update is Err ==> r is None,
{
    match update {
        Ok(prev) => Some(AlarmHandle::new(prev)),
        Err(_) => None,
    }
}

/// Atomically advances the tick counter with [next_tick] (`AtomicU64::fetch_update`).
///
/// `fetch_update` returns `Ok` with the previous value where the update function
/// returned `Some`, and `Err` with the previous value where it returned `None`. What
/// that previous value is depends on the other users of the counter, so it is left
/// open here.
#[verifier::external_body]
fn tick_counter_fetch_update(counter: &AtomicU64) -> (r: Result<u64, u64>)
    ensures
        r matches Ok(prev) ==> tick_after(prev) is Some,
        r matches Err(prev) ==> tick_after(prev) is None,
{
    counter.fetch_update(
        atomic_polyfill::Ordering::AcqRel,
        atomic_polyfill::Ordering::Acquire,
        |x| next_tick(x),
    )
}

/// Atomically advances the alarm counter with [next_alarm_counter]
/// (`AtomicU8::fetch_update`).
///
/// `fetch_update` returns `Ok` with the previous value where the update function
/// returned `Some`, and `Err` with the previous value where it returned `None`. What
/// that previous value is depends on the other users of the counter, so it is left
/// open here.
#[verifier::external_body]
fn alarm_counter_fetch_update(counter: &AtomicU8) -> (r: Result<u8, u8>)
    ensures
        r matches Ok(prev) ==> alarm_counter_after(prev) is Some,
        r matches Err(prev) ==> alarm_counter_after(prev) is None,
{
    counter.fetch_update(
        atomic_polyfill::Ordering::AcqRel,
        atomic_polyfill::Ordering::Acquire,
        |x| next_alarm_counter(x),
    )
}

/// The shared counters of the time driver.
pub struct TimerDriver {
    /// The tick counter; each reading of the time advances it by one.
    pub now: AtomicU64,
    /// How many alarms have been handed out.
    pub next_alarm: AtomicU8,
    pub clocks_configured: bool,
}

impl TimerDriver {
    /// The current tick. Each call advances the tick counter by one and returns its
    /// value from before the call; a counter at `u64::MAX` stays there.
    pub fn now(&self) -> (t: u64) {
        tick_from_update(tick_counter_fetch_update(&self.now))
    }

    /// Hands out the next free alarm, or `None` when all [ALARM_COUNT] alarms have
    /// been handed out.
    pub fn allocate_alarm(&self) -> (r: Option<AlarmHandle>)
        ensures
            r matches Some(h) ==> (h.id_spec() as int) < ALARM_COUNT,
    {
        alarm_from_update(alarm_counter_fetch_update(&self.next_alarm))
    }
}

/// The hardware programming that arms an alarm: CTIMER `timer` gets an interrupt on
/// match register 0, which is loaded with `match_value`; the counter is enabled and
/// the match-0 interrupt flag is cleared.
#[derive(Debug, Eq, PartialEq, Clone, Copy, Structural)]
pub struct CtimerArm {
    pub timer: usize,
    pub match_value: u32,
}

/// The per-alarm state of the driver: when each alarm fires and what it calls.
pub struct AlarmTable<C> {
    timestamps: Vec<u64>,
    callbacks: Vec<Option<C>>,
}

impl<C> AlarmTable<C> {
    /// The table holds one entry per alarm.
    pub open spec fn wf(&self) -> bool {
        &&& self.timestamps_view().len() == ALARM_COUNT
        &&& self.callbacks_view().len() == ALARM_COUNT
    }

    /// The timestamp of each alarm.
    pub closed spec fn timestamps_view(&self) -> Seq<u64> {
        self.timestamps@
    }

    /// The callback of each alarm.
    pub closed spec fn callbacks_view(&self) -> Seq<Option<C>> {
        self.callbacks@
    }

    /// A table where every alarm has timestamp zero and no callback.
    pub fn new() -> (r: Self)
        ensures
            r.wf(),
            r.timestamps_view() == Seq::new(ALARM_COUNT as nat, |i: int| 0u64),
            r.callbacks_view() == Seq::new(ALARM_COUNT as nat, |i: int| None::<C>),
    {
        let mut timestamps: Vec<u64> = Vec::new();
        let mut callbacks: Vec<Option<C>> = Vec::new();
        let mut i: usize = 0;
        while i < ALARM_COUNT
            invariant
                i <= ALARM_COUNT,
                timestamps@ == Seq::new(i as nat, |j: int| 0u64),
                callbacks@ == Seq::new(i as nat, |j: int| None::<C>),
            decreases ALARM_COUNT - i,
        {
            timestamps.push(0);
            callbacks.push(None);
            i = i + 1;
        }
        Self { timestamps, callbacks }
    }

    /// The timestamp of `alarm`.
    pub fn timestamp(&self, alarm: AlarmHandle) -> (t: u64)
        requires
            self.wf(),
            (alarm.id_spec() as int) < ALARM_COUNT,
        ensures
            t == self.timestamps_view()[alarm.id_spec() as int],
    {
        self.timestamps[alarm.id() as usize]
    }

    /// The callback of `alarm`.
    pub fn callback(&self, alarm: AlarmHandle) -> (c: &Option<C>)
        requires
            self.wf(),
            (alarm.id_spec() as int) < ALARM_COUNT,
        ensures
            *c == self.callbacks_view()[alarm.id_spec() as int],
    {
        &self.callbacks[alarm.id() as usize]
    }

    /// Sets the callback to be called when `alarm` fires.
    pub fn set_alarm_callback(&mut self, alarm: AlarmHandle, callback: C)
        requires
            old(self).wf(),
            (alarm.id_spec() as int) < ALARM_COUNT,
        ensures
            final(self).wf(),
            final(self).callbacks_view() == old(self).callbacks_view().update(
                alarm.id_spec() as int,
                Some(callback),
            ),
            final(self).timestamps_view() == old(self).timestamps_view(),
    {
        let n = alarm.id() as usize;
        self.callbacks.set(n, Some(callback));
    }

    /// Sets `alarm` to fire at `timestamp`. Returns `true` (the alarm is always
    /// armed) and the programming of the alarm's CTIMER. The match register holds
    /// only the low 32 bits of the timestamp, so an alarm more than 2^32 ticks ahead
    /// can fire early.
    pub fn set_alarm(&mut self, alarm: AlarmHandle, timestamp: u64) -> (r: (bool, CtimerArm))
        requires
            old(self).wf(),
            (alarm.id_spec() as int) < ALARM_COUNT,
        ensures
            final(self).wf(),
            final(self).timestamps_view() == old(self).timestamps_view().update(
                alarm.id_spec() as int,
                timestamp,
            ),
            final(self).callbacks_view() == old(self).callbacks_view(),
            r.0,
            r.1.timer == alarm.id_spec() as usize,
            r.1.match_value == timestamp % 0x1_0000_0000,
    {
        let n = alarm.id() as usize;
        self.timestamps.set(n, timestamp);
        let match_value = (timestamp & 0xffff_ffff) as u32;
        assert(match_value == timestamp % 0x1_0000_0000) by (bit_vector)
            requires
                match_value == (timestamp & 0xffff_ffff) as u32,
        ;
        (true, CtimerArm { timer: n, match_value })
    }
}

/// Each reading of the time that advances the counter moves it strictly forward, so
/// the readings never go backwards.
pub proof fn lemma_ticks_increase(x: u64)
    ensures
        tick_after(x) matches Some(y) ==> y == x + 1,
        tick_after(x) is None <==> x == u64::MAX,
{
}

/// The alarm counter after `k` requests, starting from zero.
pub open spec fn alarm_counter_run(k: nat) -> u8
    decreases k,
{
    if k == 0 {
        0
    } else {
        let prev = alarm_counter_run((k - 1) as nat);
        match alarm_counter_after(prev) {
            Some(next) => next,
            None => prev,
        }
    }
}

/// Starting from zero, request number `k` (counting from zero) is granted exactly when
/// `k < ALARM_COUNT`, and then hands out alarm `k`: each alarm is handed out once,
/// in order, and no more than [ALARM_COUNT] are handed out.
pub proof fn lemma_alarms_handed_out_once(k: nat)
    ensures
        alarm_counter_run(k) == if k < ALARM_COUNT { k } else { ALARM_COUNT as nat },
        alarm_counter_after(alarm_counter_run(k)) is Some <==> k < ALARM_COUNT,
    decreases k,
{
    if k > 0 {
        lemma_alarms_handed_out_once((k - 1) as nat);
    }
}

} // verus!
