//! The promise that every backend keeps: a sleep never returns early.

use vstd::prelude::*;

use crate::linux::{TimerfdNames, TimerfdSleep};
use crate::macos::{KqueueNames, KqueueSleep};
use crate::platform::Platform;
use crate::run::{Machine, Run};
use crate::sleep::{Sleep, SleepEvent, SleepStage};
use crate::windows_timer::{WaitableNames, WaitableSleep};

verus! {

/// `inner` took place between the instants `from` and `to`.
pub open spec fn within<M: Machine>(inner: Run<M>, from: int, to: int) -> bool {
    from <= inner.began() && inner.ended() <= to
}

/// `inner` is a `timerfd` sleep of `duration_ns` to the end, between `from` and
/// `to`, on a kernel that keeps time.
pub open spec fn timerfd_slept<E>(
    duration_ns: i64,
    names: TimerfdNames,
    inner: Run<TimerfdSleep<E>>,
    from: int,
    to: int,
) -> bool {
    &&& inner.follows(TimerfdSleep::<E>::started(duration_ns, names))
    &&& crate::linux::timerfd_keeps_time(inner)
    &&& inner.final_state().slept()
    &&& within(inner, from, to)
}

/// `inner` is a `kqueue` sleep of `duration_ns` to the end, between `from` and
/// `to`, on a kernel that keeps time.
pub open spec fn kqueue_slept<E>(
    duration_ns: i64,
    names: KqueueNames,
    inner: Run<KqueueSleep<E>>,
    from: int,
    to: int,
) -> bool {
    &&& inner.follows(KqueueSleep::<E>::started(duration_ns, names))
    &&& crate::macos::kqueue_keeps_time(inner, names)
    &&& inner.final_state().slept()
    &&& within(inner, from, to)
}

/// `inner` is a waitable-timer sleep of `duration_ns` to the end, between `from`
/// and `to`, on a system that keeps time.
pub open spec fn waitable_slept(
    duration_ns: i64,
    names: WaitableNames,
    inner: Run<WaitableSleep>,
    from: int,
    to: int,
) -> bool {
    &&& inner.follows(WaitableSleep::started(duration_ns, names))
    &&& crate::windows_timer::waitable_keeps_time(inner)
    &&& inner.final_state().slept()
    &&& within(inner, from, to)
}

/// Between `from` and `to` the precise timer of `platform` slept `duration_ns`
/// to the end, on a kernel that keeps time.
pub open spec fn timer_slept<E>(platform: Platform, duration_ns: i64, from: int, to: int) -> bool {
    match platform {
        Platform::Linux => exists|names: TimerfdNames, inner: Run<TimerfdSleep<E>>|
            timerfd_slept(duration_ns, names, inner, from, to),
        Platform::Macos => exists|names: KqueueNames, inner: Run<KqueueSleep<E>>|
            kqueue_slept(duration_ns, names, inner, from, to),
        Platform::Windows => exists|names: WaitableNames, inner: Run<WaitableSleep>|
            waitable_slept(duration_ns, names, inner, from, to),
        Platform::Other => false,
    }
}

/// A run of a sleep in a world that keeps time: a timer that is said to have
/// slept has run to its end, the wheel sleeps no shorter than it is asked to,
/// and the clock does not overstate the time since the sleep began.
pub open spec fn world_keeps_time<E>(run: Run<Sleep>) -> bool {
    forall|i: int|
        0 <= i < run.events.len() ==> match (run.states[i].stage, #[trigger] run.events[i]) {
            (SleepStage::Timer, SleepEvent::TimerSlept) => timer_slept::<E>(
                run.states[i].platform,
                run.states[i].duration_ns,
                run.times[i],
                run.times[i + 1],
            ),
            (SleepStage::Timer, SleepEvent::TimerFailed { elapsed_ns }) => elapsed_ns
                <= run.times[i + 1] - run.began(),
            (SleepStage::Wheel { nanos }, SleepEvent::Resumed) => run.times[i] + nanos
                <= run.times[i + 1],
            _ => true,
        }
}

/// A sleep never returns early: on every platform, for every duration, and
/// whatever fails on the way, at least the requested time has passed when it
/// is over.
pub proof fn sleep_never_returns_early<E>(platform: Platform, duration_ns: i64, run: Run<Sleep>)
    requires
        run.follows(Sleep::started(platform, duration_ns)),
        world_keeps_time::<E>(run),
        run.final_state().stage == SleepStage::Finished,
    ensures
        run.ended() - run.began() >= duration_ns,
{
    lemma_sleep_progress::<E>(platform, duration_ns, run, run.events.len() as int);
}

/// What holds of the `n`th state of a sleep.
proof fn lemma_sleep_progress<E>(platform: Platform, duration_ns: i64, run: Run<Sleep>, n: int)
    requires
        run.follows(Sleep::started(platform, duration_ns)),
        world_keeps_time::<E>(run),
        0 <= n < run.states.len(),
    ensures
        run.states[n].platform == platform,
        run.states[n].duration_ns == duration_ns,
        match run.states[n].stage {
            SleepStage::Timer => true,
            SleepStage::Wheel { nanos } => run.times[n] + nanos >= run.times[0] + duration_ns,
            _ => run.times[n] >= run.times[0] + duration_ns,
        },
    decreases n,
{
    if n > 0 {
        lemma_sleep_progress::<E>(platform, duration_ns, run, n - 1);
        let event = run.events[n - 1];
        assert(run.states[n] == run.states[n - 1].next(event));
        assert(run.times[0] <= run.times[n - 1] <= run.times[n]);
        if run.states[n - 1].stage == SleepStage::Timer && event == SleepEvent::TimerSlept {
            lemma_timer_slept::<E>(platform, duration_ns, run.times[n - 1], run.times[n]);
        }
    }
}

/// A precise timer that slept took at least its duration.
proof fn lemma_timer_slept<E>(platform: Platform, duration_ns: i64, from: int, to: int)
    requires
        timer_slept::<E>(platform, duration_ns, from, to),
    ensures
        to - from >= duration_ns,
{
    match platform {
        Platform::Linux => {
            let (names, inner) = choose|names: TimerfdNames, inner: Run<TimerfdSleep<E>>|
                timerfd_slept(duration_ns, names, inner, from, to);
            crate::linux::timerfd_never_returns_early(duration_ns, names, inner);
        },
        Platform::Macos => {
            let (names, inner) = choose|names: KqueueNames, inner: Run<KqueueSleep<E>>|
                kqueue_slept(duration_ns, names, inner, from, to);
            crate::macos::kqueue_never_returns_early(duration_ns, names, inner);
        },
        Platform::Windows => {
            let (names, inner) = choose|names: WaitableNames, inner: Run<WaitableSleep>|
                waitable_slept(duration_ns, names, inner, from, to);
            crate::windows_timer::waitable_never_returns_early(duration_ns, names, inner);
        },
        Platform::Other => {},
    }
}

/// A sleep of a non-positive duration resolves after a single yield: it yields
/// until it is resumed for the first time, and is over from then on.
pub proof fn non_positive_yields_once(platform: Platform, duration_ns: i64, run: Run<Sleep>)
    requires
        duration_ns <= 0,
        run.follows(Sleep::started(platform, duration_ns)),
    ensures
        forall|n: int|
            0 <= n < run.states.len() ==> (#[trigger] run.states[n]).stage == if resumed_before(
                run,
                n,
            ) {
                SleepStage::Finished
            } else {
                SleepStage::Yield
            },
{
    assert forall|n: int| 0 <= n < run.states.len() implies (#[trigger] run.states[n]).stage
        == if resumed_before(run, n) {
        SleepStage::Finished
    } else {
        SleepStage::Yield
    } by {
        lemma_yields_until_resumed(platform, duration_ns, run, n);
    }
}

/// One of the first `n` events of the run resumed the sleep.
pub open spec fn resumed_before(run: Run<Sleep>, n: int) -> bool {
    exists|i: int| 0 <= i < n && #[trigger] run.events[i] == SleepEvent::Resumed
}

proof fn lemma_yields_until_resumed(
    platform: Platform,
    duration_ns: i64,
    run: Run<Sleep>,
    n: int,
)
    requires
        duration_ns <= 0,
        run.follows(Sleep::started(platform, duration_ns)),
        0 <= n < run.states.len(),
    ensures
        run.states[n].stage == if resumed_before(run, n) {
            SleepStage::Finished
        } else {
            SleepStage::Yield
        },
    decreases n,
{
    if n > 0 {
        lemma_yields_until_resumed(platform, duration_ns, run, n - 1);
        let event = run.events[n - 1];
        assert(run.states[n] == run.states[n - 1].next(event));
        if resumed_before(run, n - 1) {
            let i = choose|i: int|
                0 <= i < n - 1 && #[trigger] run.events[i] == SleepEvent::Resumed;
            assert(run.events[i] == SleepEvent::Resumed);
        }
    }
}

/// A run of a sleep in a punctual world: a timer that slept took exactly the
/// duration, the wheel sleeps exactly as long as it is asked to, a failed timer
/// is reported with the exact time since the sleep began, and nothing else
/// takes time.
pub open spec fn world_is_punctual(run: Run<Sleep>) -> bool {
    forall|i: int|
        0 <= i < run.events.len() ==> match (run.states[i].stage, #[trigger] run.events[i]) {
            (SleepStage::Timer, SleepEvent::TimerSlept) => run.times[i + 1] - run.times[i]
                == run.states[i].duration_ns,
            (SleepStage::Timer, SleepEvent::TimerFailed { elapsed_ns }) => elapsed_ns
                == run.times[i + 1] - run.began(),
            (SleepStage::Wheel { nanos }, SleepEvent::Resumed) => run.times[i + 1] - run.times[i]
                == nanos,
            _ => run.times[i + 1] == run.times[i],
        }
}

/// One of the first `n` events reports that the timer failed when at least the
/// duration had passed, namely `elapsed`.
pub open spec fn failed_late(run: Run<Sleep>, n: int, duration_ns: i64, elapsed: int) -> bool {
    exists|i: int|
        0 <= i < n && (#[trigger] run.events[i] matches SleepEvent::TimerFailed { elapsed_ns }
            && elapsed_ns == elapsed && elapsed_ns >= duration_ns)
}

/// A sleep never asks for more than its duration: in a punctual world it takes
/// exactly that, or no time where it is negative, unless its timer fails later
/// than that, in which case it is over at once.
pub proof fn sleep_never_oversleeps(platform: Platform, duration_ns: i64, run: Run<Sleep>)
    requires
        run.follows(Sleep::started(platform, duration_ns)),
        world_is_punctual(run),
        run.final_state().stage is Finished,
    ensures
        ({
            let took = run.ended() - run.began();
            ||| took == (if duration_ns > 0 {
                duration_ns as int
            } else {
                0
            })
            ||| failed_late(run, run.events.len() as int, duration_ns, took)
        }),
{
    lemma_punctual_progress(platform, duration_ns, run, run.events.len() as int);
}

/// What holds of the `n`th state of a sleep in a punctual world.
proof fn lemma_punctual_progress(platform: Platform, duration_ns: i64, run: Run<Sleep>, n: int)
    requires
        run.follows(Sleep::started(platform, duration_ns)),
        world_is_punctual(run),
        0 <= n < run.states.len(),
    ensures
        run.states[n].duration_ns == duration_ns,
        ({
            let took = run.times[n] - run.times[0];
            match run.states[n].stage {
                SleepStage::Timer => took == 0 && duration_ns > 0,
                SleepStage::Wheel { nanos } => took + nanos == duration_ns && nanos > 0,
                SleepStage::Yield => (took == 0 && duration_ns <= 0) || failed_late(
                    run,
                    n,
                    duration_ns,
                    took,
                ),
                SleepStage::Finished => took == (if duration_ns > 0 {
                    duration_ns as int
                } else {
                    0
                }) || failed_late(run, n, duration_ns, took),
            }
        }),
    decreases n,
{
    if n > 0 {
        lemma_punctual_progress(platform, duration_ns, run, n - 1);
        let event = run.events[n - 1];
        assert(run.states[n] == run.states[n - 1].next(event));
        let took = run.times[n - 1] - run.times[0];
        if failed_late(run, n - 1, duration_ns, took) {
            let i = choose|i: int|
                0 <= i < n - 1 && (#[trigger] run.events[i] matches SleepEvent::TimerFailed {
                    elapsed_ns,
                } && elapsed_ns == took && elapsed_ns >= duration_ns);
            assert(run.events[i] is TimerFailed);
        }
    }
}

} // verus!
