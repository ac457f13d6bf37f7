//! Linux: a one-shot monotonic `timerfd`.

use vstd::prelude::*;

use crate::readiness::{Drain, Readiness, ReadinessEvent, Wait};
use crate::run::{Machine, Owner, Run};

verus! {

pub const NANOS_PER_SEC: i64 = 1_000_000_000;

/// The kernel constants that creating a `timerfd` takes.
#[derive(Clone, Copy, Debug)]
pub struct TimerfdNames {
    pub clock_monotonic: i32,
    pub tfd_nonblock: i32,
    pub tfd_cloexec: i32,
}

/// The plain contents of an `itimerspec`.
#[derive(Clone, Copy, Debug, PartialEq, Eq, Structural)]
pub struct TimerSpec {
    pub interval_sec: i64,
    pub interval_nsec: i64,
    pub value_sec: i64,
    pub value_nsec: i64,
}

impl TimerSpec {
    /// Nanoseconds from arming to the first expiration.
    pub open spec fn value_ns(self) -> int {
        self.value_sec * NANOS_PER_SEC + self.value_nsec
    }

    /// After the first expiration there is no other.
    pub open spec fn is_one_shot(self) -> bool {
        self.interval_sec == 0 && self.interval_nsec == 0
    }

    /// Whole seconds are split off as far as they go, and both parts have the
    /// sign of the value.
    pub open spec fn is_split(self) -> bool {
        &&& -NANOS_PER_SEC < self.value_nsec < NANOS_PER_SEC
        &&& self.value_ns() >= 0 ==> self.value_nsec >= 0
        &&& self.value_ns() <= 0 ==> self.value_nsec <= 0
    }

    /// The one-shot timer that expires after `duration_ns`.
    pub open spec fn one_shot_of(duration_ns: i64) -> TimerSpec {
        TimerSpec {
            interval_sec: 0,
            interval_nsec: 0,
            value_sec: whole_seconds(duration_ns as int) as i64,
            value_nsec: (duration_ns - whole_seconds(duration_ns as int)
                * NANOS_PER_SEC) as i64,
        }
    }

    /// The one-shot timer that expires after `duration_ns`.
    pub fn one_shot(duration_ns: i64) -> (timer: TimerSpec)
        ensures
            timer.is_one_shot(),
            timer.value_ns() == duration_ns,
            timer.is_split(),
            timer == TimerSpec::one_shot_of(duration_ns),
    {
        TimerSpec {
            interval_sec: 0,
            interval_nsec: 0,
            value_sec: duration_ns / NANOS_PER_SEC,
            value_nsec: duration_ns % NANOS_PER_SEC,
        }
    }
}

/// Whole seconds in `ns`, rounded towards zero.
pub open spec fn whole_seconds(ns: int) -> int {
    if ns >= 0 {
        ns / (NANOS_PER_SEC as int)
    } else {
        -(-ns / (NANOS_PER_SEC as int))
    }
}

/// A `timerfd` sleep. All states but `Finished` name the call to make next, with
/// its arguments.
#[derive(Debug)]
pub enum TimerfdSleep<E> {
    /// Create a `timerfd` on this clock with these flags; `timer` is for later.
    Create { clock: i32, flags: i32, timer: TimerSpec },
    /// Set this descriptor's timer, with these flags. None of them means that
    /// the value is relative to now.
    Arm { fd: i32, flags: i32, timer: TimerSpec },
    /// Await the expiry of the armed descriptor.
    Await { fd: i32, readiness: Readiness },
    /// Close the descriptor.
    Close { fd: i32, result: Result<(), E> },
    /// The sleep is over, with this result.
    Finished { result: Result<(), E> },
}

/// The answer to the call that a [`TimerfdSleep`] asks for. `os_error` is the
/// last OS error as the call left it, which tells something only where the call
/// failed.
#[derive(Debug)]
pub enum TimerfdEvent<E> {
    /// What `timerfd_create` returned.
    Created { fd: i32, os_error: E },
    /// What `timerfd_settime` returned.
    Armed { status: i32, os_error: E },
    Awaited(ReadinessEvent<E>),
    Closed,
}

impl<E> Machine for TimerfdSleep<E> {
    type Event = TimerfdEvent<E>;

    /// A negative descriptor and a status other than zero are failures with
    /// the last OS error; a descriptor that exists is closed before the end.
    /// An event that does not answer the pending call changes nothing.
    open spec fn next(self, event: TimerfdEvent<E>) -> Self {
        match (self, event) {
            (TimerfdSleep::Create { timer, .. }, TimerfdEvent::Created { fd, os_error }) => if fd
                < 0 {
                TimerfdSleep::Finished { result: Err(os_error) }
            } else {
                TimerfdSleep::Arm { fd, flags: 0, timer }
            },
            (TimerfdSleep::Arm { fd, .. }, TimerfdEvent::Armed { status, os_error }) => if status
                != 0 {
                TimerfdSleep::Close { fd, result: Err(os_error) }
            } else {
                TimerfdSleep::Await { fd, readiness: Readiness::Register }
            },
            (TimerfdSleep::Await { fd, readiness }, TimerfdEvent::Awaited(answer)) =>
                match Wait::Pending(readiness).next(answer) {
                    Wait::Pending(readiness) => TimerfdSleep::Await { fd, readiness },
                    Wait::Ended(result) => TimerfdSleep::Close { fd, result },
                },
            (TimerfdSleep::Close { result, .. }, TimerfdEvent::Closed) => TimerfdSleep::Finished {
                result,
            },
            _ => self,
        }
    }
}

impl<E> Owner for TimerfdSleep<E> {
    open spec fn is_fresh(self) -> bool {
        self is Create
    }

    open spec fn holds(self) -> Option<int> {
        match self {
            TimerfdSleep::Arm { fd, .. } => Some(fd as int),
            TimerfdSleep::Await { fd, .. } => Some(fd as int),
            TimerfdSleep::Close { fd, .. } => Some(fd as int),
            _ => None,
        }
    }

    open spec fn opens(self, event: TimerfdEvent<E>) -> Option<int> {
        match (self, event) {
            (TimerfdSleep::Create { .. }, TimerfdEvent::Created { fd, .. }) => if fd < 0 {
                None
            } else {
                Some(fd as int)
            },
            _ => None,
        }
    }

    open spec fn closes(self, event: TimerfdEvent<E>) -> Option<int> {
        match (self, event) {
            (TimerfdSleep::Close { fd, .. }, TimerfdEvent::Closed) => Some(fd as int),
            _ => None,
        }
    }

    proof fn owns_at_most_one(self, event: TimerfdEvent<E>) {
    }
}

impl<E> TimerfdSleep<E> {
    /// The state in which a sleep of `duration_ns` begins: a non-blocking,
    /// close-on-exec descriptor on the monotonic clock is to be created.
    pub open spec fn started(duration_ns: i64, names: TimerfdNames) -> Self {
        TimerfdSleep::Create {
            clock: names.clock_monotonic,
            flags: names.tfd_nonblock | names.tfd_cloexec,
            timer: TimerSpec::one_shot_of(duration_ns),
        }
    }

    /// The timer has expired, and its descriptor is closed.
    pub open spec fn slept(self) -> bool {
        self matches TimerfdSleep::Finished { result } && result is Ok
    }

    /// The error that the sleep has failed with, whether or not the descriptor
    /// is closed yet.
    pub open spec fn failure(self) -> Option<E> {
        match self {
            TimerfdSleep::Close { result: Err(e), .. } => Some(e),
            TimerfdSleep::Finished { result: Err(e) } => Some(e),
            _ => None,
        }
    }

    /// `event` says that the pending call failed, with this error.
    pub open spec fn refusal(self, event: TimerfdEvent<E>) -> Option<E> {
        match (self, event) {
            (TimerfdSleep::Create { .. }, TimerfdEvent::Created { fd, os_error }) => if fd < 0 {
                Some(os_error)
            } else {
                None
            },
            (TimerfdSleep::Arm { .. }, TimerfdEvent::Armed { status, os_error }) => if status
                != 0 {
                Some(os_error)
            } else {
                None
            },
            (TimerfdSleep::Await { readiness, .. }, TimerfdEvent::Awaited(answer)) =>
                Wait::Pending(readiness).refusal(answer),
            _ => None,
        }
    }

    /// Takes the answer to the pending call and moves on.
    pub fn step(self, event: TimerfdEvent<E>) -> (next: Self)
        ensures
            next == self.next(event),
    {
        match self {
            TimerfdSleep::Create { clock, flags, timer } => match event {
                TimerfdEvent::Created { fd, os_error } => if fd < 0 {
                    TimerfdSleep::Finished { result: Err(os_error) }
                } else {
                    TimerfdSleep::Arm { fd, flags: 0, timer }
                },
                _ => TimerfdSleep::Create { clock, flags, timer },
            },
            TimerfdSleep::Arm { fd, flags, timer } => match event {
                TimerfdEvent::Armed { status, os_error } => if status != 0 {
                    TimerfdSleep::Close { fd, result: Err(os_error) }
                } else {
                    TimerfdSleep::Await { fd, readiness: Readiness::Register }
                },
                _ => TimerfdSleep::Arm { fd, flags, timer },
            },
            TimerfdSleep::Await { fd, readiness } => match event {
                TimerfdEvent::Awaited(answer) => match Wait::Pending(readiness).step(answer) {
                    Wait::Pending(readiness) => TimerfdSleep::Await { fd, readiness },
                    Wait::Ended(result) => TimerfdSleep::Close { fd, result },
                },
                _ => TimerfdSleep::Await { fd, readiness },
            },
            TimerfdSleep::Close { fd, result } => match event {
                TimerfdEvent::Closed => TimerfdSleep::Finished { result },
                _ => TimerfdSleep::Close { fd, result },
            },
            TimerfdSleep::Finished { result } => TimerfdSleep::Finished { result },
        }
    }
}

/// Begins a sleep of `duration_ns` on a one-shot monotonic `timerfd`.
pub fn timerfd_sleep_ns<E>(duration_ns: i64, names: TimerfdNames) -> (sleep: TimerfdSleep<E>)
    ensures
        sleep == TimerfdSleep::<E>::started(duration_ns, names),
{
    TimerfdSleep::Create {
        clock: names.clock_monotonic,
        flags: names.tfd_nonblock | names.tfd_cloexec,
        timer: TimerSpec::one_shot(duration_ns),
    }
}

/// What reading the descriptor came to.
#[derive(Clone, Copy, Debug, PartialEq, Eq, Structural)]
pub enum ReadVerdict {
    /// The expiration was consumed.
    Fired,
    /// The read failed with the last OS error.
    LastOsError,
}

/// Judges the return value `n` of reading the descriptor.
pub fn read_verdict(n: isize) -> (verdict: ReadVerdict)
    ensures
        verdict == ReadVerdict::LastOsError <==> n < 0,
{
    if n < 0 {
        ReadVerdict::LastOsError
    } else {
        ReadVerdict::Fired
    }
}

/// The timer of a sleep carries its duration exactly, expires once, and, for a
/// positive duration, is neither out of the kernel's range nor the zero value
/// that would disarm it.
pub proof fn timer_carries_duration(duration_ns: i64)
    ensures
        TimerSpec::one_shot_of(duration_ns).value_ns() == duration_ns,
        TimerSpec::one_shot_of(duration_ns).is_one_shot(),
        TimerSpec::one_shot_of(duration_ns).is_split(),
        duration_ns > 0 ==> {
            let timer = TimerSpec::one_shot_of(duration_ns);
            &&& timer.value_sec >= 0
            &&& 0 <= timer.value_nsec < NANOS_PER_SEC
            &&& timer.value_sec > 0 || timer.value_nsec > 0
        },
{
}

/// The sleep fails exactly when a call other than closing fails, with that
/// call's error, and the error is not lost or changed on the way to the end.
pub proof fn timerfd_fails_iff_a_call_fails<E>(state: TimerfdSleep<E>, event: TimerfdEvent<E>)
    ensures
        state.failure() is None ==> state.next(event).failure() == state.refusal(event),
        state.failure() is Some ==> state.next(event).failure() == state.failure(),
        state is Finished ==> state.next(event) == state,
{
}

/// A failed call is followed by no call but closing: the sleep goes straight to
/// its end, by way of closing the descriptor where there is one.
pub proof fn timerfd_failure_goes_to_the_end<E>(state: TimerfdSleep<E>, event: TimerfdEvent<E>)
    requires
        state.refusal(event) is Some,
    ensures
        match state.holds() {
            Some(fd) => state.next(event) is Close && state.next(event).holds() == Some(fd)
                && state.next(event).next(TimerfdEvent::Closed) is Finished,
            None => state.next(event) is Finished,
        },
{
}

/// The descriptor that a sleep created is closed exactly once by the time the sleep is
/// over, whatever its outcome, and nothing else is closed.
pub proof fn timerfd_closes_its_descriptor_once<E>(
    duration_ns: i64,
    names: TimerfdNames,
    run: Run<TimerfdSleep<E>>,
)
    requires
        run.follows(TimerfdSleep::<E>::started(duration_ns, names)),
        run.final_state() is Finished,
    ensures
        run.closes_what_it_opens(),
{
    crate::run::owner_closes_what_it_opens(run, TimerfdSleep::<E>::started(duration_ns, names));
}

/// The kernel lets the descriptor be read only once the armed timer has run
/// out: a read that consumes the expiration comes no sooner than the timer's
/// value after an arming relative to that moment.
pub open spec fn timerfd_keeps_time<E>(run: Run<TimerfdSleep<E>>) -> bool {
    forall|j: int, i: int|
        #![trigger run.states[j], run.events[i]]
        0 <= j < i < run.events.len() && is_relative_arming(run.states[j]) && run.states[i] is Await
            && run.states[i]->readiness is Drain && run.events[i] == TimerfdEvent::Awaited(
            ReadinessEvent::<E>::Drained(Drain::Fired),
        ) ==> run.times[j] + run.states[j]->Arm_timer.value_ns() <= run.times[i + 1]
}

/// The timer is to be armed with a value relative to now.
pub open spec fn is_relative_arming<E>(state: TimerfdSleep<E>) -> bool {
    state matches TimerfdSleep::Arm { flags, .. } && flags == 0
}

/// Where the kernel keeps time, a `timerfd` sleep never returns early.
pub proof fn timerfd_never_returns_early<E>(
    duration_ns: i64,
    names: TimerfdNames,
    run: Run<TimerfdSleep<E>>,
)
    requires
        run.follows(TimerfdSleep::<E>::started(duration_ns, names)),
        timerfd_keeps_time(run),
        run.final_state().slept(),
    ensures
        run.ended() - run.began() >= duration_ns,
{
    lemma_timerfd_progress(duration_ns, names, run, run.events.len() as int);
}

/// The state arms the timer of a sleep of `duration_ns`.
spec fn arms<E>(state: TimerfdSleep<E>, duration_ns: i64) -> bool {
    is_relative_arming(state) && state->Arm_timer == TimerSpec::one_shot_of(duration_ns)
}

/// What holds of the `n`th state of a sleep.
proof fn lemma_timerfd_progress<E>(
    duration_ns: i64,
    names: TimerfdNames,
    run: Run<TimerfdSleep<E>>,
    n: int,
)
    requires
        run.follows(TimerfdSleep::<E>::started(duration_ns, names)),
        timerfd_keeps_time(run),
        0 <= n < run.states.len(),
    ensures
        run.states[n] matches TimerfdSleep::Create { timer, .. } ==> timer
            == TimerSpec::one_shot_of(duration_ns),
        run.states[n] is Arm ==> arms(run.states[n], duration_ns),
        run.states[n] is Await ==> exists|j: int|
            0 <= j < n && arms(#[trigger] run.states[j], duration_ns),
        run.states[n] matches TimerfdSleep::Close { result, .. } && result is Ok ==> run.times[n]
            >= run.times[0] + duration_ns,
        run.states[n].slept() ==> run.times[n] >= run.times[0] + duration_ns,
    decreases n,
{
    if n > 0 {
        lemma_timerfd_progress(duration_ns, names, run, n - 1);
        let event = run.events[n - 1];
        assert(run.states[n] == run.states[n - 1].next(event));
        if run.states[n - 1] is Arm && run.states[n] is Await {
            assert(arms(run.states[n - 1], duration_ns));
        }
        if run.states[n - 1] is Await && run.states[n] is Close {
            let j = choose|j: int|
                0 <= j < n - 1 && arms(#[trigger] run.states[j], duration_ns);
            timer_carries_duration(duration_ns);
            assert(run.times[0] <= run.times[j]);
        }
    }
}

/// A sleep begins by asking for a descriptor on the monotonic clock that is
/// non-blocking and closed on exec. What it will be armed with adds up to the
/// duration to the nanosecond, in whole seconds and a rest of less than one, and
/// does not repeat.
pub proof fn timerfd_begins_with_the_duration<E>(duration_ns: i64, names: TimerfdNames)
    ensures
        ({
            let first = TimerfdSleep::<E>::started(duration_ns, names);
            &&& first is Create
            &&& first->clock == names.clock_monotonic
            &&& first->Create_flags == names.tfd_nonblock | names.tfd_cloexec
            &&& first->Create_timer.value_sec * 1_000_000_000 + first->Create_timer.value_nsec
                == duration_ns
            &&& -1_000_000_000 < first->Create_timer.value_nsec < 1_000_000_000
            &&& duration_ns >= 0 ==> first->Create_timer.value_nsec >= 0
            &&& duration_ns <= 0 ==> first->Create_timer.value_nsec <= 0
            &&& first->Create_timer.interval_sec == 0
            &&& first->Create_timer.interval_nsec == 0
        }),
{
}

/// A descriptor that was created is armed next, relative to now and with the
/// timer that the sleep began with; a negative one ends the sleep with the OS
/// error.
pub proof fn timerfd_arms_what_it_created<E>(state: TimerfdSleep<E>, fd: i32, os_error: E)
    requires
        state is Create,
    ensures
        ({
            let next = state.next(TimerfdEvent::Created { fd, os_error });
            &&& fd >= 0 ==> next is Arm && next->Arm_fd == fd && next->Arm_flags == 0
                && next->Arm_timer == state->Create_timer
            &&& fd < 0 ==> next is Finished && next->Finished_result == Err::<(), E>(os_error)
        }),
{
}

/// An armed descriptor is registered next; one that could not be armed is
/// closed, for the OS error.
pub proof fn timerfd_registers_what_it_armed<E>(state: TimerfdSleep<E>, status: i32, os_error: E)
    requires
        state is Arm,
    ensures
        ({
            let next = state.next(TimerfdEvent::Armed { status, os_error });
            &&& status == 0 ==> next is Await && next->Await_fd == state->Arm_fd
                && next->readiness is Register
            &&& status != 0 ==> next is Close && next->Close_fd == state->Arm_fd
                && next->Close_result == Err::<(), E>(os_error)
        }),
{
}

/// Once registered the descriptor is awaited, once readable it is drained, and
/// once drained it is closed; spurious readiness is awaited again, and an error
/// closes the descriptor too and is the result.
pub proof fn timerfd_awaits_until_it_fires<E>(state: TimerfdSleep<E>, e: E)
    requires
        state is Await,
    ensures
        ({
            let answered = |answer: ReadinessEvent<E>| state.next(TimerfdEvent::Awaited(answer));
            let awaits = |next: TimerfdSleep<E>, readiness: Readiness|
                next is Await && next->Await_fd == state->Await_fd && next->readiness == readiness;
            let closes = |next: TimerfdSleep<E>, result: Result<(), E>|
                next is Close && next->Close_fd == state->Await_fd && next->Close_result == result;
            match state->readiness {
                Readiness::Register => awaits(
                    answered(ReadinessEvent::Registered(Ok(()))),
                    Readiness::AwaitReadable,
                ) && closes(answered(ReadinessEvent::Registered(Err(e))), Err(e)),
                Readiness::AwaitReadable => awaits(
                    answered(ReadinessEvent::Readable(Ok(()))),
                    Readiness::Drain,
                ) && closes(answered(ReadinessEvent::Readable(Err(e))), Err(e)),
                Readiness::Drain => awaits(
                    answered(ReadinessEvent::Drained(Drain::WouldBlock)),
                    Readiness::AwaitReadable,
                ) && closes(answered(ReadinessEvent::Drained(Drain::Fired)), Ok(())) && closes(
                    answered(ReadinessEvent::Drained(Drain::Failed(e))),
                    Err(e),
                ),
            }
        }),
{
}

/// Closing the descriptor ends the sleep with the result that led to it.
pub proof fn timerfd_ends_when_closed<E>(state: TimerfdSleep<E>)
    requires
        state is Close,
    ensures
        state.next(TimerfdEvent::Closed) is Finished,
        state.next(TimerfdEvent::Closed)->Finished_result == state->Close_result,
{
}

/// An answer to another call than the pending one leaves the sleep as it is, and
/// so does any answer once the sleep is over.
pub proof fn timerfd_ignores_stray_answers<E>(state: TimerfdSleep<E>, event: TimerfdEvent<E>)
    requires
        state is Create ==> event !is Created,
        state is Arm ==> event !is Armed,
        state is Await && event is Awaited ==> match state->readiness {
            Readiness::Register => event->Awaited_0 !is Registered,
            Readiness::AwaitReadable => event->Awaited_0 !is Readable,
            Readiness::Drain => event->Awaited_0 !is Drained,
        },
        state is Close ==> event !is Closed,
    ensures
        state.next(event) == state,
{
}

/// The descriptor is waited for, and drained, only after it was registered with
/// the reactor.
pub proof fn timerfd_registers_before_it_waits<E>(
    duration_ns: i64,
    names: TimerfdNames,
    run: Run<TimerfdSleep<E>>,
    n: int,
)
    requires
        run.follows(TimerfdSleep::<E>::started(duration_ns, names)),
        0 <= n < run.states.len(),
        run.states[n] is Await,
        run.states[n]->readiness !is Register,
    ensures
        exists|i: int|
            0 <= i < n && run.states[i] is Await && run.states[i]->readiness is Register
                && (#[trigger] run.events[i] matches TimerfdEvent::Awaited(
                ReadinessEvent::Registered(answer),
            ) && answer is Ok),
    decreases n,
{
    let before = run.states[n - 1];
    assert(run.states[n] == before.next(run.events[n - 1]));
    if before is Await && before->readiness !is Register {
        timerfd_registers_before_it_waits(duration_ns, names, run, n - 1);
        let i = choose|i: int|
            0 <= i < n - 1 && run.states[i] is Await && run.states[i]->readiness is Register
                && (#[trigger] run.events[i] matches TimerfdEvent::Awaited(
                ReadinessEvent::Registered(answer),
            ) && answer is Ok);
        assert(run.events[i] is Awaited);
    } else {
        assert(before is Await && before->readiness is Register);
        assert(run.events[n - 1] is Awaited);
    }
}

/// A sleep whose calls all succeed is over, well, after six answers.
pub proof fn timerfd_success_is_reported<E>(
    duration_ns: i64,
    names: TimerfdNames,
    fd: i32,
    unused: E,
)
    requires
        fd >= 0,
    ensures
        TimerfdSleep::<E>::started(duration_ns, names).next(
            TimerfdEvent::Created { fd, os_error: unused },
        ).next(TimerfdEvent::Armed { status: 0, os_error: unused }).next(
            TimerfdEvent::Awaited(ReadinessEvent::Registered(Ok(()))),
        ).next(TimerfdEvent::Awaited(ReadinessEvent::Readable(Ok(())))).next(
            TimerfdEvent::Awaited(ReadinessEvent::Drained(Drain::Fired)),
        ).next(TimerfdEvent::Closed).slept(),
{
}

/// The timer that a sleep arms its descriptor with adds up to the duration to
/// the nanosecond, whatever happened before.
pub proof fn timerfd_arms_with_the_duration<E>(
    duration_ns: i64,
    names: TimerfdNames,
    run: Run<TimerfdSleep<E>>,
    n: int,
)
    requires
        run.follows(TimerfdSleep::<E>::started(duration_ns, names)),
        0 <= n < run.states.len(),
    ensures
        run.states[n] matches TimerfdSleep::Create { timer, .. } ==> timer.value_sec * 1_000_000_000
            + timer.value_nsec == duration_ns,
        run.states[n] matches TimerfdSleep::Arm { timer, .. } ==> timer.value_sec * 1_000_000_000
            + timer.value_nsec == duration_ns,
    decreases n,
{
    if n > 0 {
        timerfd_arms_with_the_duration(duration_ns, names, run, n - 1);
        assert(run.states[n] == run.states[n - 1].next(run.events[n - 1]));
    }
}

} // verus!
