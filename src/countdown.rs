//! The countdown that paces captures and drives the status indicator.
//!
//! The scheduler is a state machine: the caller owns the timer task that a
//! start asks for, sleeps until the deadline that [`TickSchedule`] gives,
//! then calls [`Countdown::tick`] with the task's identifier and carries out
//! the indicator command that comes back, until a tick says to halt.
use vstd::prelude::*;
use crate::text::{decimal, push_decimal};

verus! {

/// The interval that a fresh scheduler holds before its first start.
pub const DEFAULT_INTERVAL_SECONDS: u64 = 60;

/// Milliseconds between two ticks.
pub const TICK_MILLIS: u64 = 1000;

/// The observable state of a scheduler.
#[derive(Clone, Copy, Debug, PartialEq, Eq, Structural)]
pub struct CountdownModel {
    pub running: bool,
    pub interval: u64,
    pub remaining: u64,
    pub capturing: bool,
    /// The identifier of the latest timer task; ticks of any other are ignored.
    pub timer: u64,
}

/// What the status indicator should do after an operation.
#[derive(Clone, Copy, Debug, PartialEq, Eq, Structural)]
pub enum Indicator {
    /// Leave the indicator as it is.
    Leave,
    /// Remove the indicator's title.
    Clear,
    /// Show the number of seconds left until the next capture.
    Seconds(u64),
    /// Show that a capture is under way.
    Capturing,
}

/// The outcome of one tick.
#[derive(Clone, Copy, Debug, PartialEq, Eq, Structural)]
pub enum Tick {
    /// The scheduler was stopped, or restarted with another timer task:
    /// the tick task ends.
    Halt,
    /// One second passed; the indicator command to carry out.
    Advance(Indicator),
}

impl CountdownModel {
    /// The number of seconds left never exceeds the interval.
    pub open spec fn wf(self) -> bool {
        self.remaining <= self.interval
    }
}

/// The state of a scheduler that was never started.
pub open spec fn initial_model() -> CountdownModel {
    CountdownModel {
        running: false,
        interval: DEFAULT_INTERVAL_SECONDS,
        remaining: 0,
        capturing: false,
        timer: 0,
    }
}

/// The identifier of the timer task that follows `t`.
pub open spec fn next_timer(t: u64) -> u64 {
    if t == u64::MAX {
        0
    } else {
        (t + 1) as u64
    }
}

/// The state after a start request: a running scheduler ignores it; a
/// stopped one counts down from `interval` under a new timer task.
pub open spec fn start_model(m: CountdownModel, interval: u64) -> CountdownModel {
    if m.running {
        m
    } else {
        CountdownModel {
            running: true,
            interval,
            remaining: interval,
            capturing: false,
            timer: next_timer(m.timer),
        }
    }
}

/// The state after a stop request.
pub open spec fn stop_model(m: CountdownModel) -> CountdownModel {
    CountdownModel { running: false, remaining: 0, ..m }
}

/// The state after a reset: a full interval is left.
pub open spec fn reset_model(m: CountdownModel) -> CountdownModel {
    CountdownModel { remaining: m.interval, ..m }
}

/// The state after the capture flag is set to `flag`.
pub open spec fn capturing_model(m: CountdownModel, flag: bool) -> CountdownModel {
    CountdownModel { capturing: flag, ..m }
}

/// The number of seconds left once one more second has passed, floored at zero.
pub open spec fn decremented(remaining: u64) -> u64 {
    if remaining > 0 {
        (remaining - 1) as u64
    } else {
        0
    }
}

/// Whether the timer task `timer` is the one that drives the countdown now.
pub open spec fn is_live(m: CountdownModel, timer: u64) -> bool {
    m.running && timer == m.timer
}

/// The state after a tick of the timer task `timer`: a second passes, and an
/// exhausted countdown starts over from the interval. A tick of a task that
/// is not live changes nothing.
pub open spec fn tick_model(m: CountdownModel, timer: u64) -> CountdownModel {
    if !is_live(m, timer) {
        m
    } else if decremented(m.remaining) == 0 {
        CountdownModel { remaining: m.interval, ..m }
    } else {
        CountdownModel { remaining: decremented(m.remaining), ..m }
    }
}

/// What a tick of the timer task `timer` reports: a task that is not live
/// ends; nothing is shown while a capture is under way.
pub open spec fn tick_result(m: CountdownModel, timer: u64) -> Tick {
    if !is_live(m, timer) {
        Tick::Halt
    } else if m.capturing {
        Tick::Advance(Indicator::Leave)
    } else {
        Tick::Advance(Indicator::Seconds(decremented(m.remaining)))
    }
}

/// The state after `k` ticks of the live timer task.
pub open spec fn run_ticks(m: CountdownModel, k: nat) -> CountdownModel
    decreases k,
{
    if k == 0 {
        m
    } else {
        tick_model(run_ticks(m, (k - 1) as nat), m.timer)
    }
}

/// The title text that shows `n` seconds.
pub open spec fn seconds_title(n: u64) -> Seq<char> {
    decimal(n as nat) + seq!['秒']
}

/// The title text that shows a capture under way.
pub open spec fn capturing_title() -> Seq<char> {
    seq!['📷']
}

impl Indicator {
    /// The title that this command puts on the indicator, if it sets one.
    pub fn title_text(&self) -> (r: Option<String>)
        ensures
            match *self {
                Indicator::Seconds(n) => r.is_some() && r.unwrap()@ == seconds_title(n),
                Indicator::Capturing => r.is_some() && r.unwrap()@ == capturing_title(),
                _ => r.is_none(),
            },
    {
        match self {
            Indicator::Seconds(n) => {
                let mut s = String::new();
                push_decimal(&mut s, *n);
                proof {
                    reveal_strlit("秒");
                }
                s.append("秒");
                Some(s)
            },
            Indicator::Capturing => {
                proof {
                    reveal_strlit("📷");
                }
                Some(String::from_str("📷"))
            },
            _ => None,
        }
    }
}

/// The countdown scheduler: one per application, owned by its caller.
pub struct Countdown {
    running: bool,
    interval_seconds: u64,
    remaining_seconds: u64,
    is_capturing: bool,
    timer: u64,
}

impl View for Countdown {
    type V = CountdownModel;

    closed spec fn view(&self) -> CountdownModel {
        CountdownModel {
            running: self.running,
            interval: self.interval_seconds,
            remaining: self.remaining_seconds,
            capturing: self.is_capturing,
            timer: self.timer,
        }
    }
}

impl Countdown {
    /// A stopped scheduler with the default interval and nothing left to count.
    pub fn new() -> (r: Countdown)
        ensures
            r@ == initial_model(),
            r@.wf(),
    {
        Countdown {
            running: false,
            interval_seconds: DEFAULT_INTERVAL_SECONDS,
            remaining_seconds: 0,
            is_capturing: false,
            timer: 0,
        }
    }

    /// Starts counting down from `interval_seconds`. Returns the identifier
    /// of the timer task to start, which passes it to each tick; a scheduler
    /// that is already running is left untouched and needs none.
    pub fn start_countdown_timer(&mut self, interval_seconds: u64) -> (timer: Option<u64>)
        requires
            old(self)@.wf(),
        ensures
            timer == if old(self)@.running {
                None
            } else {
                Some(next_timer(old(self)@.timer))
            },
            final(self)@ == start_model(old(self)@, interval_seconds),
            final(self)@.wf(),
    {
        if self.running {
            return None;
        }
        let timer: u64 = if self.timer == u64::MAX {
            0
        } else {
            self.timer + 1
        };
        self.running = true;
        self.interval_seconds = interval_seconds;
        self.remaining_seconds = interval_seconds;
        self.is_capturing = false;
        self.timer = timer;
        Some(timer)
    }

    /// Stops the scheduler; the indicator's title is to be cleared.
    pub fn stop_countdown_timer(&mut self) -> (r: Indicator)
        requires
            old(self)@.wf(),
        ensures
            r == Indicator::Clear,
            final(self)@ == stop_model(old(self)@),
            final(self)@.wf(),
    {
        self.running = false;
        self.remaining_seconds = 0;
        Indicator::Clear
    }

    /// Rewinds the countdown to a full interval without touching whether it runs.
    pub fn reset_countdown(&mut self)
        requires
            old(self)@.wf(),
        ensures
            final(self)@ == reset_model(old(self)@),
            final(self)@.wf(),
    {
        self.remaining_seconds = self.interval_seconds;
    }

    /// Sets whether a capture is under way. While it is, ticks leave the
    /// indicator alone; setting it shows the capture mark at once.
    pub fn set_capturing_flag(&mut self, is_capturing: bool) -> (r: Indicator)
        requires
            old(self)@.wf(),
        ensures
            r == (if is_capturing { Indicator::Capturing } else { Indicator::Leave }),
            final(self)@ == capturing_model(old(self)@, is_capturing),
            final(self)@.wf(),
    {
        self.is_capturing = is_capturing;
        if is_capturing {
            Indicator::Capturing
        } else {
            Indicator::Leave
        }
    }

    /// The number of seconds left until the next capture.
    pub fn get_remaining_seconds(&self) -> (r: u64)
        ensures
            r == self@.remaining,
    {
        self.remaining_seconds
    }

    /// Whether the countdown runs.
    pub fn is_running(&self) -> (r: bool)
        ensures
            r == self@.running,
    {
        self.running
    }

    /// Whether the timer task `timer` should go on.
    pub fn is_live(&self, timer: u64) -> (r: bool)
        ensures
            r == is_live(self@, timer),
    {
        self.running && timer == self.timer
    }

    /// One second has passed for the timer task `timer`.
    pub fn tick(&mut self, timer: u64) -> (r: Tick)
        requires
            old(self)@.wf(),
        ensures
            r == tick_result(old(self)@, timer),
            final(self)@ == tick_model(old(self)@, timer),
            final(self)@.wf(),
    {
        if !self.running || timer != self.timer {
            return Tick::Halt;
        }
        let remaining = self.remaining_seconds;
        let new_remaining: u64 = if remaining > 0 {
            remaining - 1
        } else {
            0
        };
        let shown = if self.is_capturing {
            Indicator::Leave
        } else {
            Indicator::Seconds(new_remaining)
        };
        if new_remaining == 0 {
            self.remaining_seconds = self.interval_seconds;
        } else {
            self.remaining_seconds = new_remaining;
        }
        Tick::Advance(shown)
    }
}

proof fn lemma_ticks_keep_running(m: CountdownModel, k: nat)
    ensures
        run_ticks(m, k).running == m.running,
        run_ticks(m, k).interval == m.interval,
        run_ticks(m, k).capturing == m.capturing,
        run_ticks(m, k).timer == m.timer,
        m.wf() ==> run_ticks(m, k).wf(),
    decreases k,
{
    if k > 0 {
        lemma_ticks_keep_running(m, (k - 1) as nat);
    }
}

/// After a start with a positive interval, the countdown begins at the
/// interval; every tick takes one second off it and shows the new value on
/// the indicator; a tick that shows zero puts the countdown back at the
/// interval. This holds after any number of ticks, as long as no stop
/// intervenes.
pub proof fn lemma_countdown_cycle(before: CountdownModel, interval: u64, k: nat)
    requires
        before.wf(),
        !before.running,
        interval > 0,
    ensures
        ({
            let m = start_model(before, interval);
            let s = run_ticks(m, k);
            &&& m.remaining == interval
            &&& s.running && s.interval == interval && !s.capturing
            &&& 1 <= s.remaining <= interval
            &&& tick_result(s, m.timer) == Tick::Advance(
                Indicator::Seconds((s.remaining - 1) as u64),
            )
            &&& run_ticks(m, k + 1).remaining == if s.remaining > 1 {
                (s.remaining - 1) as u64
            } else {
                interval
            }
        }),
    decreases k,
{
    let m = start_model(before, interval);
    lemma_ticks_keep_running(m, k);
    if k > 0 {
        lemma_countdown_cycle(before, interval, (k - 1) as nat);
    }
}

/// A stopped scheduler reports zero seconds left; the tick of any timer
/// task changes nothing, puts nothing on the indicator and ends that task.
pub proof fn lemma_stop_silences(m: CountdownModel, timer: u64)
    ensures
        stop_model(m).remaining == 0,
        tick_model(stop_model(m), timer) == stop_model(m),
        tick_result(stop_model(m), timer) == Tick::Halt,
{
}

/// Once a stopped scheduler is started again, the timer task of the earlier
/// run is no longer live: its next tick ends it, so one task drives the
/// countdown.
pub proof fn lemma_restart_retires_timer(m: CountdownModel, interval: u64)
    requires
        !m.running,
    ensures
        start_model(m, interval).timer != m.timer,
        tick_result(start_model(m, interval), m.timer) == Tick::Halt,
        tick_model(start_model(m, interval), m.timer) == start_model(m, interval),
{
}

proof fn lemma_ticks_ignore_capturing(m: CountdownModel, flag: bool, k: nat)
    ensures
        run_ticks(capturing_model(m, flag), k) == capturing_model(run_ticks(m, k), flag),
    decreases k,
{
    if k > 0 {
        lemma_ticks_ignore_capturing(m, flag, (k - 1) as nat);
    }
}

/// While a capture is under way the countdown goes on, but no tick touches
/// the indicator. Once the flag is cleared, the next tick shows the same
/// value that it would have shown had the indicator never been frozen.
pub proof fn lemma_capture_freeze(m: CountdownModel, k: nat)
    requires
        m.wf(),
        m.running,
    ensures
        forall|j: nat|
            j < k ==> tick_result(#[trigger] run_ticks(capturing_model(m, true), j), m.timer)
                == Tick::Advance(Indicator::Leave),
        run_ticks(capturing_model(m, true), k).remaining == run_ticks(m, k).remaining,
        tick_result(capturing_model(run_ticks(capturing_model(m, true), k), false), m.timer)
            == tick_result(run_ticks(capturing_model(m, false), k), m.timer),
        tick_result(capturing_model(run_ticks(capturing_model(m, true), k), false), m.timer)
            == Tick::Advance(Indicator::Seconds(decremented(run_ticks(m, k).remaining))),
{
    let frozen = capturing_model(m, true);
    assert forall|j: nat| j < k implies tick_result(#[trigger] run_ticks(frozen, j), m.timer)
        == Tick::Advance(Indicator::Leave) by {
        lemma_ticks_keep_running(frozen, j);
    }
    lemma_ticks_ignore_capturing(m, true, k);
    lemma_ticks_ignore_capturing(m, false, k);
    lemma_ticks_keep_running(m, k);
}

/// The deadline of the next tick, kept on a fixed grid so that the time
/// spent between ticks does not add up to drift.
pub struct TickSchedule {
    next_deadline_ms: u64,
}

impl TickSchedule {
    /// The deadline of the next tick, in milliseconds on the caller's clock.
    pub closed spec fn deadline(&self) -> u64 {
        self.next_deadline_ms
    }

    /// A schedule whose first tick falls one interval after `now_ms`.
    pub fn starting_at(now_ms: u64) -> (r: TickSchedule)
        ensures
            r.deadline() == if now_ms <= u64::MAX - TICK_MILLIS {
                (now_ms + TICK_MILLIS) as u64
            } else {
                u64::MAX
            },
    {
        TickSchedule { next_deadline_ms: now_ms.saturating_add(TICK_MILLIS) }
    }

    /// How long to sleep at `now_ms` before the next tick is due.
    pub fn wait_millis(&self, now_ms: u64) -> (r: u64)
        ensures
            r == if now_ms < self.deadline() {
                (self.deadline() - now_ms) as u64
            } else {
                0
            },
    {
        if now_ms < self.next_deadline_ms {
            self.next_deadline_ms - now_ms
        } else {
            0
        }
    }

    /// Moves the deadline one interval on from the previous deadline, not
    /// from the present.
    pub fn advance(&mut self)
        ensures
            final(self).deadline() == if old(self).deadline() <= u64::MAX - TICK_MILLIS {
                (old(self).deadline() + TICK_MILLIS) as u64
            } else {
                u64::MAX
            },
    {
        self.next_deadline_ms = self.next_deadline_ms.saturating_add(TICK_MILLIS);
    }
}

} // verus!
