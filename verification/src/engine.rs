use vstd::prelude::*;
use vstd::string::StringSliceAdditionalSpecFns;
use crate::duration::{ticks_needed, Duration};
use crate::parse::{parse_duration, parsed_millis};

verus! {

/// Why a schedule request was turned down.
#[derive(Clone, Copy, Debug, PartialEq, Eq, Structural)]
pub enum ScheduleError {
    /// The duration is unreadable, is zero, or ends beyond the last instant
    /// the clock can express.
    InvalidDuration,
}

/// The instant, in milliseconds on the driver's clock, at which a job fires.
#[derive(Clone, Copy, Debug, PartialEq, Eq, Structural)]
pub struct Deadline {
    pub at_millis: u64,
}

impl Deadline {
    /// The time left at `now`, never below zero.
    pub open spec fn remaining_at(self, now: nat) -> Duration {
        if now >= self.at_millis {
            Duration { millis: 0 }
        } else {
            Duration { millis: (self.at_millis - now) as u64 }
        }
    }

    /// Whether the deadline has come at `now`.
    pub open spec fn reached_at(self, now: nat) -> bool {
        now >= self.at_millis
    }

    /// The time left at `now`, clamped at zero.
    pub fn remaining(&self, now: u64) -> (left: Duration)
        ensures
            left == self.remaining_at(now as nat),
    {
        if now >= self.at_millis {
            Duration { millis: 0 }
        } else {
            Duration { millis: self.at_millis - now }
        }
    }

    /// Whether the deadline has come at `now`.
    pub fn reached(&self, now: u64) -> (due: bool)
        ensures
            due == self.reached_at(now as nat),
    {
        now >= self.at_millis
    }
}

/// The one countdown an engine may hold.
#[derive(Clone, Copy, Debug, PartialEq, Eq, Structural)]
pub struct Job {
    /// Fixed when the job is accepted.
    pub deadline: Deadline,
    /// The ticks the countdown takes when the driver keeps the cadence.
    pub planned_ticks: u64,
}

/// A snapshot of a live countdown, one per tick.
#[derive(Clone, Copy, Debug, PartialEq, Eq, Structural)]
pub struct ProgressEvent {
    pub time_remaining: Duration,
}

/// What the engine delivers to its listener.
#[derive(Clone, Copy, Debug, PartialEq, Eq, Structural)]
pub enum Signal {
    /// A tick of the live job.
    Progress(ProgressEvent),
    /// The live job reached its deadline; the terminal action was asked for.
    Fired,
    /// The live job was cancelled or replaced before its deadline.
    Cancelled,
    /// The terminal action was carried out and failed.
    ActionFailed,
    /// The countdown broke down in the driver; what was under way is given
    /// up.
    Errored,
}

/// What the driver has to do after a tick.
#[derive(Clone, Copy, Debug, PartialEq, Eq, Structural)]
pub enum Action {
    /// Nothing is scheduled.
    Idle,
    /// The job is still live: tick again after one cadence.
    Wait,
    /// The job has expired: carry out the terminal action, once.
    Shutdown,
}

/// The engine as contracts see it.
pub ghost struct EngineState {
    /// The live job, if any.
    pub job: Option<Job>,
    /// The signals not yet taken by the listener, oldest first.
    pub signals: Seq<Signal>,
    /// Whether a terminal action was asked for and its outcome is not yet
    /// reported.
    pub awaiting_action: bool,
}

/// Whether a duration can be scheduled at `now`: it is positive and its
/// deadline is an instant of the clock.
pub open spec fn schedulable(now: nat, duration: Duration) -> bool {
    duration.millis > 0 && now + duration.millis <= u64::MAX
}

/// The job that a schedulable duration accepted at `now` gives.
pub open spec fn job_for(now: nat, duration: Duration) -> Job {
    Job {
        deadline: Deadline { at_millis: (now + duration.millis) as u64 },
        planned_ticks: ticks_needed(duration@) as u64,
    }
}

/// The state after a request to cancel.
pub open spec fn after_cancel(s: EngineState) -> EngineState {
    match s.job {
        Some(_) => EngineState {
            job: None,
            signals: s.signals.push(Signal::Cancelled),
            awaiting_action: s.awaiting_action,
        },
        None => s,
    }
}

/// The state after a request to schedule `duration` at `now`.
pub open spec fn after_schedule(s: EngineState, now: nat, duration: Duration) -> EngineState {
    if schedulable(now, duration) {
        EngineState {
            job: Some(job_for(now, duration)),
            signals: after_cancel(s).signals,
            awaiting_action: s.awaiting_action,
        }
    } else {
        s
    }
}

/// The state after a tick at `now`.
pub open spec fn after_tick(s: EngineState, now: nat) -> EngineState {
    match s.job {
        None => s,
        Some(job) => {
            let progress = Signal::Progress(
                ProgressEvent { time_remaining: job.deadline.remaining_at(now) },
            );
            if job.deadline.reached_at(now) {
                EngineState {
                    job: None,
                    signals: s.signals.push(progress).push(Signal::Fired),
                    awaiting_action: true,
                }
            } else {
                EngineState {
                    job: s.job,
                    signals: s.signals.push(progress),
                    awaiting_action: s.awaiting_action,
                }
            }
        },
    }
}

/// What a tick at `now` asks of the driver.
pub open spec fn tick_action(s: EngineState, now: nat) -> Action {
    match s.job {
        None => Action::Idle,
        Some(job) => if job.deadline.reached_at(now) {
            Action::Shutdown
        } else {
            Action::Wait
        },
    }
}

/// The state after the driver reports how the terminal action went.
pub open spec fn after_action_result(s: EngineState, succeeded: bool) -> EngineState {
    if s.awaiting_action {
        EngineState {
            job: s.job,
            signals: if succeeded {
                s.signals
            } else {
                s.signals.push(Signal::ActionFailed)
            },
            awaiting_action: false,
        }
    } else {
        s
    }
}

/// The state after the driver reports that the countdown broke down.
pub open spec fn after_failure(s: EngineState) -> EngineState {
    if s.job.is_some() || s.awaiting_action {
        EngineState {
            job: None,
            signals: s.signals.push(Signal::Errored),
            awaiting_action: false,
        }
    } else {
        s
    }
}

/// The state after the listener took what was pending.
pub open spec fn after_take(s: EngineState) -> EngineState {
    EngineState { job: s.job, signals: Seq::empty(), awaiting_action: s.awaiting_action }
}

/// Owns at most one live job and the signals that await the listener.
pub struct ScheduleEngine {
    job: Option<Job>,
    outbox: Vec<Signal>,
    awaiting_action: bool,
}

impl View for ScheduleEngine {
    type V = EngineState;

    closed spec fn view(&self) -> EngineState {
        EngineState {
            job: self.job,
            signals: self.outbox@,
            awaiting_action: self.awaiting_action,
        }
    }
}

impl ScheduleEngine {
    /// An idle engine with nothing pending.
    pub fn new() -> (engine: ScheduleEngine)
        ensures
            engine@.job.is_none(),
            engine@.signals == Seq::<Signal>::empty(),
            !engine@.awaiting_action,
    {
        ScheduleEngine { job: None, outbox: Vec::new(), awaiting_action: false }
    }

    /// Accepts `duration` at `now`, replacing the live job if there is one.
    ///
    /// A replaced job is cancelled first, so its deadline never fires. A
    /// duration that is not schedulable leaves the engine as it was.
    pub fn schedule(&mut self, now: u64, duration: Duration) -> (accepted: Result<
        (),
        ScheduleError,
    >)
        ensures
            accepted.is_ok() == schedulable(now as nat, duration),
            accepted.is_err() ==> accepted == Err::<(), ScheduleError>(
                ScheduleError::InvalidDuration,
            ),
            final(self)@ == after_schedule(old(self)@, now as nat, duration),
            accepted.is_err() ==> final(self)@ == old(self)@,
    {
        if duration.millis == 0 {
            return Err(ScheduleError::InvalidDuration);
        }
        match now.checked_add(duration.millis) {
            None => Err(ScheduleError::InvalidDuration),
            Some(at_millis) => {
                let planned_ticks: u64 = duration.ticks();
                if self.job.is_some() {
                    self.outbox.push(Signal::Cancelled);
                }
                self.job = Some(Job { deadline: Deadline { at_millis }, planned_ticks });
                Ok(())
            },
        }
    }

    /// Reads a duration from `text` and schedules it at `now`.
    ///
    /// Text that is no duration is turned down like a duration of zero, and
    /// the engine stays as it was.
    pub fn schedule_text(&mut self, now: u64, text: &str) -> (accepted: Result<(), ScheduleError>)
        ensures
            accepted.is_ok() == match parsed_millis(text.spec_bytes()) {
                Some(millis) => millis <= u64::MAX && schedulable(
                    now as nat,
                    Duration { millis: millis as u64 },
                ),
                None => false,
            },
            accepted.is_err() ==> accepted == Err::<(), ScheduleError>(
                ScheduleError::InvalidDuration,
            ),
            accepted.is_ok() ==> final(self)@ == after_schedule(
                old(self)@,
                now as nat,
                Duration { millis: parsed_millis(text.spec_bytes()).unwrap() as u64 },
            ),
            accepted.is_err() ==> final(self)@ == old(self)@,
    {
        match parse_duration(text) {
            Ok(duration) => self.schedule(now, duration),
            Err(e) => Err(e),
        }
    }

    /// Cancels the live job. Returns whether there was one; without one,
    /// nothing changes.
    pub fn cancel(&mut self) -> (was_live: bool)
        ensures
            was_live == old(self)@.job.is_some(),
            final(self)@ == after_cancel(old(self)@),
            !was_live ==> final(self)@ == old(self)@,
    {
        if self.job.is_some() {
            self.job = None;
            self.outbox.push(Signal::Cancelled);
            true
        } else {
            false
        }
    }

    /// One tick of the countdown at `now`.
    ///
    /// A live job reports the time left to its deadline, clamped at zero. At
    /// or after the deadline it then fires: the job ends and the driver is
    /// told to carry out the terminal action. An idle engine does nothing.
    pub fn tick(&mut self, now: u64) -> (action: Action)
        ensures
            action == tick_action(old(self)@, now as nat),
            final(self)@ == after_tick(old(self)@, now as nat),
    {
        match self.job {
            None => Action::Idle,
            Some(job) => {
                let time_remaining = job.deadline.remaining(now);
                self.outbox.push(Signal::Progress(ProgressEvent { time_remaining }));
                if job.deadline.reached(now) {
                    self.outbox.push(Signal::Fired);
                    self.job = None;
                    self.awaiting_action = true;
                    Action::Shutdown
                } else {
                    Action::Wait
                }
            },
        }
    }

    /// Takes the driver's report on the terminal action. A failure is
    /// passed on to the listener and not retried. Returns whether a report
    /// was awaited; an unawaited one changes nothing.
    pub fn action_finished(&mut self, succeeded: bool) -> (awaited: bool)
        ensures
            awaited == old(self)@.awaiting_action,
            final(self)@ == after_action_result(old(self)@, succeeded),
    {
        if self.awaiting_action {
            self.awaiting_action = false;
            if !succeeded {
                self.outbox.push(Signal::ActionFailed);
            }
            true
        } else {
            false
        }
    }

    /// Takes the driver's report that the countdown broke down: the live
    /// job, or the terminal action whose outcome was awaited, is given up
    /// with one errored signal, and the engine is idle again. Returns
    /// whether anything was under way; if not, nothing changes.
    pub fn countdown_failed(&mut self) -> (was_under_way: bool)
        ensures
            was_under_way == (old(self)@.job.is_some() || old(self)@.awaiting_action),
            final(self)@ == after_failure(old(self)@),
            !was_under_way ==> final(self)@ == old(self)@,
    {
        if self.job.is_some() || self.awaiting_action {
            self.job = None;
            self.awaiting_action = false;
            self.outbox.push(Signal::Errored);
            true
        } else {
            false
        }
    }

    /// Hands the pending signals to the listener, oldest first, and leaves
    /// none pending.
    pub fn take_signals(&mut self) -> (taken: Vec<Signal>)
        ensures
            taken@ == old(self)@.signals,
            final(self)@ == after_take(old(self)@),
    {
        let mut taken: Vec<Signal> = Vec::new();
        std::mem::swap(&mut self.outbox, &mut taken);
        taken
    }

    /// Whether a job is live.
    pub fn is_scheduled(&self) -> (live: bool)
        ensures
            live == self@.job.is_some(),
    {
        self.job.is_some()
    }

    /// The live job, if any.
    pub fn current_job(&self) -> (job: Option<Job>)
        ensures
            job == self@.job,
    {
        self.job
    }

    /// The time left to the live job's deadline at `now`, clamped at zero.
    pub fn time_remaining(&self, now: u64) -> (left: Option<Duration>)
        ensures
            left == match self@.job {
                Some(job) => Some(job.deadline.remaining_at(now as nat)),
                None => None,
            },
    {
        match self.job {
            Some(job) => Some(job.deadline.remaining(now)),
            None => None,
        }
    }
}

} // verus!
