use vstd::prelude::*;
use crate::duration::{ticks_needed, Duration};
use crate::engine::{
    after_cancel, after_schedule, after_tick, job_for, schedulable, tick_action, Action,
    EngineState, ProgressEvent, Signal,
};

verus! {

/// The state after `k` ticks that keep the cadence: the first one second
/// after `start`, each next one second later.
pub open spec fn after_ticks(s: EngineState, start: nat, k: nat) -> EngineState
    decreases k,
{
    if k == 0 {
        s
    } else {
        after_tick(after_ticks(s, start, (k - 1) as nat), start + k * 1000)
    }
}

/// How many of those `k` ticks asked for the terminal action.
pub open spec fn shutdowns_in(s: EngineState, start: nat, k: nat) -> nat
    decreases k,
{
    if k == 0 {
        0
    } else {
        let before = after_ticks(s, start, (k - 1) as nat);
        let asked: nat = if tick_action(before, start + k * 1000) == Action::Shutdown {
            1
        } else {
            0
        };
        shutdowns_in(s, start, (k - 1) as nat) + asked
    }
}

/// The time left of `millis` milliseconds after `ticks` whole seconds,
/// never below zero.
pub open spec fn left_after(millis: nat, ticks: nat) -> Duration {
    if ticks * 1000 >= millis {
        Duration { millis: 0 }
    } else {
        Duration { millis: (millis - ticks * 1000) as u64 }
    }
}

/// The progress events of the first `k` ticks of a countdown of `millis`
/// milliseconds that keeps the cadence.
pub open spec fn countdown(millis: nat, k: nat) -> Seq<Signal> {
    Seq::new(
        k,
        |i: int| Signal::Progress(ProgressEvent { time_remaining: left_after(millis, (i + 1) as nat) }),
    )
}

/// How many of `signals` are progress events.
pub open spec fn progress_count(signals: Seq<Signal>) -> nat
    decreases signals.len(),
{
    if signals.len() == 0 {
        0
    } else {
        let last: nat = if signals.last() is Progress {
            1
        } else {
            0
        };
        progress_count(signals.drop_last()) + last
    }
}

/// How often `signal` occurs in `signals`.
pub open spec fn occurrences(signals: Seq<Signal>, signal: Signal) -> nat
    decreases signals.len(),
{
    if signals.len() == 0 {
        0
    } else {
        let last: nat = if signals.last() == signal {
            1
        } else {
            0
        };
        occurrences(signals.drop_last(), signal) + last
    }
}

/// A countdown of `k` ticks holds `k` progress events and no other signal.
pub proof fn lemma_countdown_counts(millis: nat, k: nat)
    ensures
        progress_count(countdown(millis, k)) == k,
        occurrences(countdown(millis, k), Signal::Fired) == 0,
        occurrences(countdown(millis, k), Signal::Cancelled) == 0,
        occurrences(countdown(millis, k), Signal::ActionFailed) == 0,
        occurrences(countdown(millis, k), Signal::Errored) == 0,
    decreases k,
{
    if k > 0 {
        lemma_countdown_counts(millis, (k - 1) as nat);
        assert(countdown(millis, k).drop_last() =~= countdown(millis, (k - 1) as nat));
    }
}

/// Ticks leave an idle engine as it is and ask for nothing.
pub proof fn lemma_idle_ticks(s: EngineState, start: nat, k: nat)
    requires
        s.job.is_none(),
    ensures
        after_ticks(s, start, k) == s,
        shutdowns_in(s, start, k) == 0,
    decreases k,
{
    if k > 0 {
        lemma_idle_ticks(s, start, (k - 1) as nat);
    }
}

/// Before its last tick, a countdown that keeps the cadence stays live and
/// has delivered one progress event per tick.
pub proof fn lemma_live_ticks(s: EngineState, start: nat, duration: Duration, k: nat)
    requires
        schedulable(start, duration),
        s.job == Some(job_for(start, duration)),
        k < ticks_needed(duration@),
    ensures
        after_ticks(s, start, k) == (EngineState {
            job: s.job,
            signals: s.signals + countdown(duration@, k),
            awaiting_action: s.awaiting_action,
        }),
        shutdowns_in(s, start, k) == 0,
    decreases k,
{
    if k == 0 {
        assert(s.signals + countdown(duration@, 0) =~= s.signals);
    } else {
        lemma_live_ticks(s, start, duration, (k - 1) as nat);
        assert((s.signals + countdown(duration@, (k - 1) as nat)).push(
            Signal::Progress(ProgressEvent { time_remaining: left_after(duration@, k) }),
        ) =~= s.signals + countdown(duration@, k));
    }
}

/// A countdown that is left to run fires once, after as many progress
/// events as its duration has seconds, rounded up.
///
/// Scheduled at `start` and ticked once per second, the job delivers
/// `ticks_needed` progress events, the time left falling to zero, then the
/// fired signal, and the engine is idle again. The last of those ticks asks
/// for the terminal action, and no tick before or after it does.
pub proof fn law_countdown_completes(s: EngineState, start: nat, duration: Duration, more: nat)
    requires
        schedulable(start, duration),
    ensures
        ({
            let scheduled = after_schedule(s, start, duration);
            let n = ticks_needed(duration@);
            let delivered = countdown(duration@, n).push(Signal::Fired);
            let done = after_ticks(scheduled, start, n + more);
            &&& n >= 1
            &&& done.job.is_none()
            &&& done.signals == scheduled.signals + delivered
            &&& progress_count(delivered) == n
            &&& occurrences(delivered, Signal::Fired) == 1
            &&& occurrences(delivered, Signal::Cancelled) == 0
            &&& delivered[n - 1] == Signal::Progress(
                ProgressEvent { time_remaining: Duration { millis: 0 } },
            )
            &&& shutdowns_in(scheduled, start, (n - 1) as nat) == 0
            &&& shutdowns_in(scheduled, start, n + more) == 1
        }),
    decreases more,
{
    let scheduled = after_schedule(s, start, duration);
    let n = ticks_needed(duration@);
    let delivered = countdown(duration@, n).push(Signal::Fired);
    if more == 0 {
        lemma_live_ticks(scheduled, start, duration, (n - 1) as nat);
        lemma_countdown_counts(duration@, n);
        assert(delivered.drop_last() =~= countdown(duration@, n));
        assert((scheduled.signals + countdown(duration@, (n - 1) as nat)).push(
            Signal::Progress(ProgressEvent { time_remaining: left_after(duration@, n) }),
        ).push(Signal::Fired) =~= scheduled.signals + delivered);
    } else {
        law_countdown_completes(s, start, duration, (more - 1) as nat);
    }
}

/// A job cancelled before its first tick never fires.
///
/// The cancel finds the job live, delivers one cancelled signal and
/// leaves the engine idle; however many ticks follow, from whatever
/// instant, none delivers anything or asks for the terminal action.
pub proof fn law_cancel_before_first_tick(
    s: EngineState,
    start: nat,
    duration: Duration,
    later: nat,
    ticks: nat,
)
    requires
        schedulable(start, duration),
    ensures
        ({
            let scheduled = after_schedule(s, start, duration);
            let cancelled = after_cancel(scheduled);
            &&& scheduled.job.is_some()
            &&& cancelled.job.is_none()
            &&& cancelled.signals == scheduled.signals.push(Signal::Cancelled)
            &&& after_cancel(cancelled) == cancelled
            &&& after_ticks(cancelled, later, ticks) == cancelled
            &&& shutdowns_in(cancelled, later, ticks) == 0
        }),
{
    lemma_idle_ticks(after_cancel(after_schedule(s, start, duration)), later, ticks);
}

/// A job cancelled in the middle of its countdown never fires.
///
/// After `k` ticks that keep the cadence, fewer than the countdown takes,
/// the job has delivered `k` progress events and asked for nothing. The
/// cancel then finds it live, delivers one cancelled signal and leaves the
/// engine idle; however many ticks follow, none delivers anything or asks
/// for the terminal action.
pub proof fn law_cancel_during_countdown(
    s: EngineState,
    start: nat,
    duration: Duration,
    k: nat,
    later: nat,
    ticks: nat,
)
    requires
        schedulable(start, duration),
        k < ticks_needed(duration@),
    ensures
        ({
            let scheduled = after_schedule(s, start, duration);
            let running = after_ticks(scheduled, start, k);
            let cancelled = after_cancel(running);
            let delivered = countdown(duration@, k).push(Signal::Cancelled);
            &&& running.job == scheduled.job
            &&& shutdowns_in(scheduled, start, k) == 0
            &&& cancelled.job.is_none()
            &&& cancelled.signals == scheduled.signals + delivered
            &&& progress_count(delivered) == k
            &&& occurrences(delivered, Signal::Cancelled) == 1
            &&& occurrences(delivered, Signal::Fired) == 0
            &&& after_ticks(cancelled, later, ticks) == cancelled
            &&& shutdowns_in(cancelled, later, ticks) == 0
        }),
{
    let scheduled = after_schedule(s, start, duration);
    let delivered = countdown(duration@, k).push(Signal::Cancelled);
    lemma_live_ticks(scheduled, start, duration, k);
    lemma_countdown_counts(duration@, k);
    assert(delivered.drop_last() =~= countdown(duration@, k));
    assert((scheduled.signals + countdown(duration@, k)).push(Signal::Cancelled)
        =~= scheduled.signals + delivered);
    lemma_idle_ticks(after_cancel(after_ticks(scheduled, start, k)), later, ticks);
}

/// Scheduling twice leaves one live job, the second, and the first one's
/// deadline fires nothing.
///
/// The second request cancels the first job, with one cancelled signal, and
/// from then on a tick asks for the terminal action exactly when the second
/// deadline has come.
pub proof fn law_reschedule_replaces(
    s: EngineState,
    first_at: nat,
    first: Duration,
    second_at: nat,
    second: Duration,
    now: nat,
)
    requires
        schedulable(first_at, first),
        schedulable(second_at, second),
    ensures
        ({
            let once = after_schedule(s, first_at, first);
            let twice = after_schedule(once, second_at, second);
            &&& twice.job == Some(job_for(second_at, second))
            &&& twice.signals == once.signals.push(Signal::Cancelled)
            &&& twice.awaiting_action == s.awaiting_action
            &&& tick_action(twice, now) == if now >= second_at + second@ {
                Action::Shutdown
            } else {
                Action::Wait
            }
        }),
{
}

} // verus!
