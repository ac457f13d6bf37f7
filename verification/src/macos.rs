//! macOS: a `kqueue` holding one one-shot `EVFILT_TIMER`.

use vstd::prelude::*;

use crate::linux::{TimerfdEvent, TimerfdSleep};
use crate::readiness::{Drain, Readiness, ReadinessEvent, Wait};
use crate::run::{Machine, Owner, Run};

verus! {

/// The kernel constants that a `kqueue` timer takes.
#[derive(Clone, Copy, Debug)]
pub struct KqueueNames {
    pub evfilt_timer: i16,
    pub ev_add: u16,
    pub ev_oneshot: u16,
    pub ev_error: u16,
    pub note_nseconds: u32,
    pub note_critical: u32,
    pub fd_cloexec: i32,
    pub o_nonblock: i32,
}

/// The identifier of the one timer on the queue.
pub const TIMER_IDENT: usize = 1;

/// The plain contents of the `kevent` change that adds the timer.
#[derive(Clone, Copy, Debug, PartialEq, Eq, Structural)]
pub struct TimerChange {
    pub ident: usize,
    pub filter: i16,
    pub flags: u16,
    pub fflags: u32,
    /// Nanoseconds until the timer fires.
    pub data: i64,
}

impl TimerChange {
    /// Adds a one-shot timer that fires after `duration_ns`, counted in
    /// nanoseconds and exempt from timer coalescing.
    pub open spec fn one_shot_of(duration_ns: i64, names: KqueueNames) -> TimerChange {
        TimerChange {
            ident: TIMER_IDENT,
            filter: names.evfilt_timer,
            flags: names.ev_add | names.ev_oneshot,
            fflags: names.note_nseconds | names.note_critical,
            data: duration_ns,
        }
    }
}

/// A `kqueue` sleep. All states but `Finished` name the call to make next, with
/// its arguments.
#[derive(Debug)]
pub enum KqueueSleep<E> {
    /// Create a queue. It takes no flags, so they are set one by one below.
    Create { change: TimerChange, names: KqueueNames },
    /// Set this descriptor flag, which closes the queue on exec.
    SetCloexec { kq: i32, flag: i32, change: TimerChange, names: KqueueNames },
    /// Get the status flags.
    GetStatus { kq: i32, change: TimerChange, names: KqueueNames },
    /// Set the status flags.
    SetStatus { kq: i32, status: i32, change: TimerChange },
    /// Submit the change that arms the timer.
    Arm { kq: i32, change: TimerChange },
    /// Await the event on the armed queue.
    Await { kq: i32, readiness: Readiness },
    /// Close the queue.
    Close { kq: i32, result: Result<(), E> },
    /// The sleep is over, with this result.
    Finished { result: Result<(), E> },
}

/// The answer to the call that a [`KqueueSleep`] asks for. `os_error` is the
/// last OS error as the call left it, which tells something only where the call
/// failed.
#[derive(Debug)]
pub enum KqueueEvent<E> {
    /// What `kqueue` returned.
    Created { kq: i32, os_error: E },
    /// Setting the descriptor flag returned, with whatever result.
    CloexecSet,
    /// What getting the status flags returned.
    Status { status: i32 },
    /// Setting the status flags returned, with whatever result.
    StatusSet,
    /// What submitting the change returned.
    Armed { status: i32, os_error: E },
    Awaited(ReadinessEvent<E>),
    Closed,
}

impl<E> Machine for KqueueSleep<E> {
    type Event = KqueueEvent<E>;

    /// A negative descriptor and a negative status of the arming call are
    /// failures with the last OS error; the descriptor flags are set without
    /// regard to the result; a queue that exists is closed before the end. An
    /// event that does not answer the pending call changes nothing.
    open spec fn next(self, event: KqueueEvent<E>) -> Self {
        match (self, event) {
            (KqueueSleep::Create { change, names }, KqueueEvent::Created { kq, os_error }) => if kq
                < 0 {
                KqueueSleep::Finished { result: Err(os_error) }
            } else {
                KqueueSleep::SetCloexec { kq, flag: names.fd_cloexec, change, names }
            },
            (KqueueSleep::SetCloexec { kq, change, names, .. }, KqueueEvent::CloexecSet) =>
                KqueueSleep::GetStatus { kq, change, names },
            (KqueueSleep::GetStatus { kq, change, names }, KqueueEvent::Status { status }) =>
                KqueueSleep::SetStatus { kq, status: status | names.o_nonblock, change },
            (KqueueSleep::SetStatus { kq, change, .. }, KqueueEvent::StatusSet) =>
                KqueueSleep::Arm { kq, change },
            (KqueueSleep::Arm { kq, .. }, KqueueEvent::Armed { status, os_error }) => if status
                < 0 {
                KqueueSleep::Close { kq, result: Err(os_error) }
            } else {
                KqueueSleep::Await { kq, readiness: Readiness::Register }
            },
            (KqueueSleep::Await { kq, readiness }, KqueueEvent::Awaited(answer)) =>
                match Wait::Pending(readiness).next(answer) {
                    Wait::Pending(readiness) => KqueueSleep::Await { kq, readiness },
                    Wait::Ended(result) => KqueueSleep::Close { kq, result },
                },
            (KqueueSleep::Close { result, .. }, KqueueEvent::Closed) => KqueueSleep::Finished {
                result,
            },
            _ => self,
        }
    }
}

impl<E> Owner for KqueueSleep<E> {
    open spec fn is_fresh(self) -> bool {
        self is Create
    }

    open spec fn holds(self) -> Option<int> {
        match self {
            KqueueSleep::SetCloexec { kq, .. } => Some(kq as int),
            KqueueSleep::GetStatus { kq, .. } => Some(kq as int),
            KqueueSleep::SetStatus { kq, .. } => Some(kq as int),
            KqueueSleep::Arm { kq, .. } => Some(kq as int),
            KqueueSleep::Await { kq, .. } => Some(kq as int),
            KqueueSleep::Close { kq, .. } => Some(kq as int),
            _ => None,
        }
    }

    open spec fn opens(self, event: KqueueEvent<E>) -> Option<int> {
        match (self, event) {
            (KqueueSleep::Create { .. }, KqueueEvent::Created { kq, .. }) => if kq < 0 {
                None
            } else {
                Some(kq as int)
            },
            _ => None,
        }
    }

    open spec fn closes(self, event: KqueueEvent<E>) -> Option<int> {
        match (self, event) {
            (KqueueSleep::Close { kq, .. }, KqueueEvent::Closed) => Some(kq as int),
            _ => None,
        }
    }

    proof fn owns_at_most_one(self, event: KqueueEvent<E>) {
    }
}

impl<E> KqueueSleep<E> {
    /// The state in which a sleep of `duration_ns` begins.
    pub open spec fn started(duration_ns: i64, names: KqueueNames) -> Self {
        KqueueSleep::Create { change: TimerChange::one_shot_of(duration_ns, names), names }
    }

    /// The timer has fired, and its queue is closed.
    pub open spec fn slept(self) -> bool {
        self matches KqueueSleep::Finished { result } && result is Ok
    }

    /// The error that the sleep has failed with, whether or not the queue is
    /// closed yet.
    pub open spec fn failure(self) -> Option<E> {
        match self {
            KqueueSleep::Close { result: Err(e), .. } => Some(e),
            KqueueSleep::Finished { result: Err(e) } => Some(e),
            _ => None,
        }
    }

    /// `event` says that the pending call failed, with this error.
    pub open spec fn refusal(self, event: KqueueEvent<E>) -> Option<E> {
        match (self, event) {
            (KqueueSleep::Create { .. }, KqueueEvent::Created { kq, os_error }) => if kq < 0 {
                Some(os_error)
            } else {
                None
            },
            (KqueueSleep::Arm { .. }, KqueueEvent::Armed { status, os_error }) => if status < 0 {
                Some(os_error)
            } else {
                None
            },
            (KqueueSleep::Await { readiness, .. }, KqueueEvent::Awaited(answer)) => Wait::Pending(
                readiness,
            ).refusal(answer),
            _ => None,
        }
    }

    /// The change that the timer is to be armed with.
    pub open spec fn pending_change(self) -> Option<TimerChange> {
        match self {
            KqueueSleep::Create { change, .. } => Some(change),
            KqueueSleep::SetCloexec { change, .. } => Some(change),
            KqueueSleep::GetStatus { change, .. } => Some(change),
            KqueueSleep::SetStatus { change, .. } => Some(change),
            KqueueSleep::Arm { change, .. } => Some(change),
            _ => None,
        }
    }

    /// Takes the answer to the pending call and moves on.
    pub fn step(self, event: KqueueEvent<E>) -> (next: Self)
        ensures
            next == self.next(event),
    {
        match self {
            KqueueSleep::Create { change, names } => match event {
                KqueueEvent::Created { kq, os_error } => if kq < 0 {
                    KqueueSleep::Finished { result: Err(os_error) }
                } else {
                    KqueueSleep::SetCloexec { kq, flag: names.fd_cloexec, change, names }
                },
                _ => KqueueSleep::Create { change, names },
            },
            KqueueSleep::SetCloexec { kq, flag, change, names } => match event {
                KqueueEvent::CloexecSet => KqueueSleep::GetStatus { kq, change, names },
                _ => KqueueSleep::SetCloexec { kq, flag, change, names },
            },
            KqueueSleep::GetStatus { kq, change, names } => match event {
                KqueueEvent::Status { status } => KqueueSleep::SetStatus {
                    kq,
                    status: status | names.o_nonblock,
                    change,
                },
                _ => KqueueSleep::GetStatus { kq, change, names },
            },
            KqueueSleep::SetStatus { kq, status, change } => match event {
                KqueueEvent::StatusSet => KqueueSleep::Arm { kq, change },
                _ => KqueueSleep::SetStatus { kq, status, change },
            },
            KqueueSleep::Arm { kq, change } => match event {
                KqueueEvent::Armed { status, os_error } => if status < 0 {
                    KqueueSleep::Close { kq, result: Err(os_error) }
                } else {
                    KqueueSleep::Await { kq, readiness: Readiness::Register }
                },
                _ => KqueueSleep::Arm { kq, change },
            },
            KqueueSleep::Await { kq, readiness } => match event {
                KqueueEvent::Awaited(answer) => match Wait::Pending(readiness).step(answer) {
                    Wait::Pending(readiness) => KqueueSleep::Await { kq, readiness },
                    Wait::Ended(result) => KqueueSleep::Close { kq, result },
                },
                _ => KqueueSleep::Await { kq, readiness },
            },
            KqueueSleep::Close { kq, result } => match event {
                KqueueEvent::Closed => KqueueSleep::Finished { result },
                _ => KqueueSleep::Close { kq, result },
            },
            KqueueSleep::Finished { result } => KqueueSleep::Finished { result },
        }
    }
}

/// Begins a sleep of `duration_ns` on a one-shot `kqueue` timer.
pub fn kqueue_sleep_ns<E>(duration_ns: i64, names: KqueueNames) -> (sleep: KqueueSleep<E>)
    ensures
        sleep == KqueueSleep::<E>::started(duration_ns, names),
{
    KqueueSleep::Create {
        change: TimerChange {
            ident: TIMER_IDENT,
            filter: names.evfilt_timer,
            flags: names.ev_add | names.ev_oneshot,
            fflags: names.note_nseconds | names.note_critical,
            data: duration_ns,
        },
        names,
    }
}

/// What polling the queue for its event came to.
#[derive(Clone, Copy, Debug, PartialEq, Eq, Structural)]
pub enum PollVerdict {
    /// The timer fired.
    Fired,
    /// No event was pending: the readiness was spurious.
    WouldBlock,
    /// The poll failed with the last OS error.
    LastOsError,
    /// The event reports this OS error.
    EventError { code: i32 },
}

/// Judges a poll of the queue that returned `n`, with the event's `flags` and
/// `data` where there was one. An event whose flags hold `EV_ERROR` carries the
/// code of an OS error in the low 32 bits of its data.
pub fn poll_verdict(n: i32, flags: u16, data: isize, names: KqueueNames) -> (verdict: PollVerdict)
    ensures
        verdict == PollVerdict::LastOsError <==> n < 0,
        verdict == PollVerdict::WouldBlock <==> n == 0,
        verdict == PollVerdict::Fired <==> n > 0 && flags & names.ev_error == 0,
        verdict is EventError <==> n > 0 && flags & names.ev_error != 0,
        verdict matches PollVerdict::EventError { code } ==> code == data as i32,
{
    if n < 0 {
        PollVerdict::LastOsError
    } else if n == 0 {
        PollVerdict::WouldBlock
    } else if flags & names.ev_error != 0 {
        PollVerdict::EventError {
            code: #[verifier::truncate]
            (data as i32),
        }
    } else {
        PollVerdict::Fired
    }
}

/// Both sleeps have armed their timers, and are equally far from there.
pub open spec fn are_equally_far<E>(kqueue: KqueueSleep<E>, timerfd: TimerfdSleep<E>) -> bool {
    match (kqueue, timerfd) {
        (KqueueSleep::Await { readiness: a, .. }, TimerfdSleep::Await { readiness: b, .. }) => a
            == b,
        (KqueueSleep::Close { result: a, .. }, TimerfdSleep::Close { result: b, .. }) => a == b,
        (KqueueSleep::Finished { result: a }, TimerfdSleep::Finished { result: b }) => a == b,
        _ => false,
    }
}

/// Once armed, a `kqueue` sleep takes the same course as a `timerfd` sleep: the
/// same answers keep the two equally far, to the same result.
pub proof fn kqueue_mirrors_timerfd<E>(
    kqueue: KqueueSleep<E>,
    timerfd: TimerfdSleep<E>,
    answer: ReadinessEvent<E>,
)
    requires
        are_equally_far(kqueue, timerfd),
    ensures
        are_equally_far(
            kqueue.next(KqueueEvent::Awaited(answer)),
            timerfd.next(TimerfdEvent::Awaited(answer)),
        ),
        are_equally_far(kqueue.next(KqueueEvent::Closed), timerfd.next(TimerfdEvent::Closed)),
{
}

/// The sleep fails exactly when creating, arming or awaiting fails, with that
/// call's error, and the error is not lost or changed on the way to the end;
/// setting the descriptor flags cannot make it fail.
pub proof fn kqueue_fails_iff_a_call_fails<E>(state: KqueueSleep<E>, event: KqueueEvent<E>)
    ensures
        state.failure() is None ==> state.next(event).failure() == state.refusal(event),
        state.failure() is Some ==> state.next(event).failure() == state.failure(),
        state is Finished ==> state.next(event) == state,
{
}

/// A failed call is followed by no call but closing: the sleep goes straight to
/// its end, by way of closing the queue where there is one.
pub proof fn kqueue_failure_goes_to_the_end<E>(state: KqueueSleep<E>, event: KqueueEvent<E>)
    requires
        state.refusal(event) is Some,
    ensures
        match state.holds() {
            Some(kq) => state.next(event) is Close && state.next(event).holds() == Some(kq)
                && state.next(event).next(KqueueEvent::Closed) is Finished,
            None => state.next(event) is Finished,
        },
{
}

/// The queue that a sleep created is closed exactly once by the time the sleep is
/// over, whatever its outcome, and nothing else is closed.
pub proof fn kqueue_closes_its_descriptor_once<E>(
    duration_ns: i64,
    names: KqueueNames,
    run: Run<KqueueSleep<E>>,
)
    requires
        run.follows(KqueueSleep::<E>::started(duration_ns, names)),
        run.final_state() is Finished,
    ensures
        run.closes_what_it_opens(),
{
    crate::run::owner_closes_what_it_opens(run, KqueueSleep::<E>::started(duration_ns, names));
}

/// The change arms a timer whose data counts nanoseconds.
pub open spec fn counts_nanoseconds(change: TimerChange, names: KqueueNames) -> bool {
    change.fflags == names.note_nseconds | names.note_critical
}

/// The kernel delivers the timer event only once the armed timer has run out:
/// a poll that returns it comes no sooner than the timer's nanoseconds after
/// the arming.
pub open spec fn kqueue_keeps_time<E>(run: Run<KqueueSleep<E>>, names: KqueueNames) -> bool {
    forall|j: int, i: int|
        #![trigger run.states[j], run.events[i]]
        0 <= j < i < run.events.len() && run.states[j] is Arm && counts_nanoseconds(
            run.states[j]->Arm_change,
            names,
        ) && run.states[i] is Await && run.states[i]->readiness is Drain && run.events[i] == KqueueEvent::Awaited(
            ReadinessEvent::<E>::Drained(Drain::Fired),
        ) ==> run.times[j] + run.states[j]->Arm_change.data <= run.times[i + 1]
}

/// Where the kernel keeps time, a `kqueue` sleep never returns early.
pub proof fn kqueue_never_returns_early<E>(
    duration_ns: i64,
    names: KqueueNames,
    run: Run<KqueueSleep<E>>,
)
    requires
        run.follows(KqueueSleep::<E>::started(duration_ns, names)),
        kqueue_keeps_time(run, names),
        run.final_state().slept(),
    ensures
        run.ended() - run.began() >= duration_ns,
{
    lemma_kqueue_progress(duration_ns, names, run, run.events.len() as int);
}

/// The state arms the timer of a sleep of `duration_ns`.
spec fn arms<E>(state: KqueueSleep<E>, duration_ns: i64, names: KqueueNames) -> bool {
    state is Arm && state->Arm_change == TimerChange::one_shot_of(duration_ns, names)
}

/// What holds of the `n`th state of a sleep.
proof fn lemma_kqueue_progress<E>(
    duration_ns: i64,
    names: KqueueNames,
    run: Run<KqueueSleep<E>>,
    n: int,
)
    requires
        run.follows(KqueueSleep::<E>::started(duration_ns, names)),
        kqueue_keeps_time(run, names),
        0 <= n < run.states.len(),
    ensures
        run.states[n].pending_change() matches Some(change) ==> change == TimerChange::one_shot_of(
            duration_ns,
            names,
        ),
        run.states[n] is Await ==> exists|j: int|
            0 <= j < n && arms(#[trigger] run.states[j], duration_ns, names),
        run.states[n] matches KqueueSleep::Close { result, .. } && result is Ok ==> run.times[n]
            >= run.times[0] + duration_ns,
        run.states[n].slept() ==> run.times[n] >= run.times[0] + duration_ns,
    decreases n,
{
    if n > 0 {
        lemma_kqueue_progress(duration_ns, names, run, n - 1);
        let event = run.events[n - 1];
        assert(run.states[n] == run.states[n - 1].next(event));
        if run.states[n - 1] is Arm && run.states[n] is Await {
            assert(arms(run.states[n - 1], duration_ns, names));
        }
        if run.states[n - 1] is Await && run.states[n] is Close {
            let j = choose|j: int|
                0 <= j < n - 1 && arms(#[trigger] run.states[j], duration_ns, names);
            assert(run.times[0] <= run.times[j]);
        }
    }
}

/// A sleep begins by asking for a queue. What it will be armed with is one
/// added timer that fires once, counts in nanoseconds, is exempt from
/// coalescing, and fires after the duration to the nanosecond.
pub proof fn kqueue_begins_with_the_duration<E>(duration_ns: i64, names: KqueueNames)
    ensures
        ({
            let first = KqueueSleep::<E>::started(duration_ns, names);
            &&& first is Create
            &&& first->Create_names == names
            &&& first->Create_change.data == duration_ns
            &&& first->Create_change.ident == 1
            &&& first->Create_change.filter == names.evfilt_timer
            &&& first->Create_change.flags == names.ev_add | names.ev_oneshot
            &&& first->Create_change.fflags == names.note_nseconds | names.note_critical
        }),
{
}

/// A queue that was created has its close-on-exec flag set next; a negative one
/// ends the sleep with the OS error.
pub proof fn kqueue_sets_up_what_it_created<E>(state: KqueueSleep<E>, kq: i32, os_error: E)
    requires
        state is Create,
    ensures
        ({
            let next = state.next(KqueueEvent::Created { kq, os_error });
            &&& kq >= 0 ==> next is SetCloexec && next->SetCloexec_kq == kq && next->flag
                == state->Create_names.fd_cloexec && next->SetCloexec_change
                == state->Create_change && next->SetCloexec_names == state->Create_names
            &&& kq < 0 ==> next is Finished && next->Finished_result == Err::<(), E>(os_error)
        }),
{
}

/// After the close-on-exec flag the status flags are read, and written back
/// with the non-blocking flag added to whatever they were.
pub proof fn kqueue_adds_the_nonblocking_flag<E>(state: KqueueSleep<E>, status: i32)
    ensures
        state is SetCloexec ==> ({
            let next = state.next(KqueueEvent::CloexecSet);
            next is GetStatus && next->GetStatus_kq == state->SetCloexec_kq
                && next->GetStatus_change == state->SetCloexec_change && next->GetStatus_names
                == state->SetCloexec_names
        }),
        state is GetStatus ==> ({
            let next = state.next(KqueueEvent::Status { status });
            next is SetStatus && next->SetStatus_kq == state->GetStatus_kq && next->SetStatus_status
                == status | state->GetStatus_names.o_nonblock && next->SetStatus_change
                == state->GetStatus_change
        }),
{
}

/// Once set up, the queue is armed with the change that the sleep began with.
pub proof fn kqueue_arms_what_it_set_up<E>(state: KqueueSleep<E>)
    requires
        state is SetStatus,
    ensures
        ({
            let next = state.next(KqueueEvent::StatusSet);
            next is Arm && next->Arm_kq == state->SetStatus_kq && next->Arm_change
                == state->SetStatus_change
        }),
{
}

/// The change that a sleep arms its queue with carries the duration to the
/// nanosecond, whatever happened before.
pub proof fn kqueue_arms_with_the_duration<E>(
    duration_ns: i64,
    names: KqueueNames,
    run: Run<KqueueSleep<E>>,
    n: int,
)
    requires
        run.follows(KqueueSleep::<E>::started(duration_ns, names)),
        0 <= n < run.states.len(),
    ensures
        run.states[n] matches KqueueSleep::Arm { change, .. } ==> change.data == duration_ns,
        run.states[n] matches KqueueSleep::SetStatus { change, .. } ==> change.data == duration_ns,
        run.states[n] matches KqueueSleep::GetStatus { change, .. } ==> change.data == duration_ns,
        run.states[n] matches KqueueSleep::SetCloexec { change, .. } ==> change.data == duration_ns,
        run.states[n] matches KqueueSleep::Create { change, .. } ==> change.data == duration_ns,
    decreases n,
{
    if n > 0 {
        kqueue_arms_with_the_duration(duration_ns, names, run, n - 1);
        assert(run.states[n] == run.states[n - 1].next(run.events[n - 1]));
    }
}

/// An armed queue is registered next; one that could not be armed is closed, for
/// the OS error.
pub proof fn kqueue_registers_what_it_armed<E>(state: KqueueSleep<E>, status: i32, os_error: E)
    requires
        state is Arm,
    ensures
        ({
            let next = state.next(KqueueEvent::Armed { status, os_error });
            &&& status >= 0 ==> next is Await && next->Await_kq == state->Arm_kq
                && next->readiness is Register
            &&& status < 0 ==> next is Close && next->Close_kq == state->Arm_kq
                && next->Close_result == Err::<(), E>(os_error)
        }),
{
}

/// Once registered the queue is awaited, once readable it is drained, and
/// once drained it is closed; spurious readiness is awaited again, and an error
/// closes the queue too and is the result.
pub proof fn kqueue_awaits_until_it_fires<E>(state: KqueueSleep<E>, e: E)
    requires
        state is Await,
    ensures
        ({
            let answered = |answer: ReadinessEvent<E>| state.next(KqueueEvent::Awaited(answer));
            let awaits = |next: KqueueSleep<E>, readiness: Readiness|
                next is Await && next->Await_kq == state->Await_kq && next->readiness == readiness;
            let closes = |next: KqueueSleep<E>, result: Result<(), E>|
                next is Close && next->Close_kq == state->Await_kq && next->Close_result == result;
            match state->readiness {
                Readiness::Register => awaits(
                    answered(ReadinessEvent::Registered(Ok(()))),
                    Readiness::AwaitReadable,
                ) && closes(answered(ReadinessEvent::Registered(Err(e))), Err(e)),
                Readiness::AwaitReadable => awaits(
                    answered(ReadinessEvent::Readable(Ok(()))),
                    Readiness::Drain,
                ) && closes(answered(ReadinessEvent::Readable(Err(e))), Err(e)),
                Readiness::Drain => awaits(
                    answered(ReadinessEvent::Drained(Drain::WouldBlock)),
                    Readiness::AwaitReadable,
                ) && closes(answered(ReadinessEvent::Drained(Drain::Fired)), Ok(())) && closes(
                    answered(ReadinessEvent::Drained(Drain::Failed(e))),
                    Err(e),
                ),
            }
        }),
{
}

/// Closing the queue ends the sleep with the result that led to it.
pub proof fn kqueue_ends_when_closed<E>(state: KqueueSleep<E>)
    requires
        state is Close,
    ensures
        state.next(KqueueEvent::Closed) is Finished,
        state.next(KqueueEvent::Closed)->Finished_result == state->Close_result,
{
}

/// An answer to another call than the pending one leaves the sleep as it is, and
/// so does any answer once the sleep is over.
pub proof fn kqueue_ignores_stray_answers<E>(state: KqueueSleep<E>, event: KqueueEvent<E>)
    requires
        state is Create ==> event !is Created,
        state is SetCloexec ==> event !is CloexecSet,
        state is GetStatus ==> event !is Status,
        state is SetStatus ==> event !is StatusSet,
        state is Arm ==> event !is Armed,
        state is Await && event is Awaited ==> match state->readiness {
            Readiness::Register => event->Awaited_0 !is Registered,
            Readiness::AwaitReadable => event->Awaited_0 !is Readable,
            Readiness::Drain => event->Awaited_0 !is Drained,
        },
        state is Close ==> event !is Closed,
    ensures
        state.next(event) == state,
{
}

/// The queue is waited for, and drained, only after it was registered with
/// the reactor.
pub proof fn kqueue_registers_before_it_waits<E>(
    duration_ns: i64,
    names: KqueueNames,
    run: Run<KqueueSleep<E>>,
    n: int,
)
    requires
        run.follows(KqueueSleep::<E>::started(duration_ns, names)),
        0 <= n < run.states.len(),
        run.states[n] is Await,
        run.states[n]->readiness !is Register,
    ensures
        exists|i: int|
            0 <= i < n && run.states[i] is Await && run.states[i]->readiness is Register
                && (#[trigger] run.events[i] matches KqueueEvent::Awaited(
                ReadinessEvent::Registered(answer),
            ) && answer is Ok),
    decreases n,
{
    let before = run.states[n - 1];
    assert(run.states[n] == before.next(run.events[n - 1]));
    if before is Await && before->readiness !is Register {
        kqueue_registers_before_it_waits(duration_ns, names, run, n - 1);
        let i = choose|i: int|
            0 <= i < n - 1 && run.states[i] is Await && run.states[i]->readiness is Register
                && (#[trigger] run.events[i] matches KqueueEvent::Awaited(
                ReadinessEvent::Registered(answer),
            ) && answer is Ok);
        assert(run.events[i] is Awaited);
    } else {
        assert(before is Await && before->readiness is Register);
        assert(run.events[n - 1] is Awaited);
    }
}

/// A sleep whose calls all succeed is over, well, after nine answers.
pub proof fn kqueue_success_is_reported<E>(
    duration_ns: i64,
    names: KqueueNames,
    kq: i32,
    flags: i32,
    unused: E,
)
    requires
        kq >= 0,
    ensures
        KqueueSleep::<E>::started(duration_ns, names).next(
            KqueueEvent::Created { kq, os_error: unused },
        ).next(KqueueEvent::CloexecSet).next(KqueueEvent::Status { status: flags }).next(
            KqueueEvent::StatusSet,
        ).next(KqueueEvent::Armed { status: 0, os_error: unused }).next(
            KqueueEvent::Awaited(ReadinessEvent::Registered(Ok(()))),
        ).next(KqueueEvent::Awaited(ReadinessEvent::Readable(Ok(())))).next(
            KqueueEvent::Awaited(ReadinessEvent::Drained(Drain::Fired)),
        ).next(KqueueEvent::Closed).slept(),
{
}

} // verus!
