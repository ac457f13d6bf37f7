//! Windows: a high-resolution waitable timer, waited for on a blocking thread.

use vstd::prelude::*;

use crate::run::{Machine, Owner, Run};

verus! {

/// Nanoseconds in one unit of a due time.
pub const NANOS_PER_UNIT: i64 = 100;

/// `due` is relative to now and comes no sooner than `duration_ns`, with no
/// whole unit to spare; no timer is set for less than one unit.
pub open spec fn is_due_time(duration_ns: i64, due: i64) -> bool {
    &&& due < 0
    &&& duration_ns <= -due * NANOS_PER_UNIT
    &&& due == -1 || (-due - 1) * NANOS_PER_UNIT < duration_ns
}

/// The due time of a sleep of `duration_ns`.
pub open spec fn due_time_of(duration_ns: i64) -> i64 {
    if duration_ns <= NANOS_PER_UNIT {
        -1i64
    } else {
        (-((duration_ns + NANOS_PER_UNIT - 1) / (NANOS_PER_UNIT as int))) as i64
    }
}

/// The due time that sets a waitable timer for `duration_ns`, in units of
/// 100 ns. It is negative, which means relative to now, and the duration is
/// rounded up: a timer set for less would wake the sleeper early.
pub fn due_time(duration_ns: i64) -> (due: i64)
    ensures
        is_due_time(duration_ns, due),
        due == due_time_of(duration_ns),
{
    if duration_ns <= NANOS_PER_UNIT {
        -1
    } else if duration_ns % NANOS_PER_UNIT == 0 {
        -(duration_ns / NANOS_PER_UNIT)
    } else {
        -(duration_ns / NANOS_PER_UNIT + 1)
    }
}

/// There is one due time for each duration.
pub proof fn due_time_is_unique(duration_ns: i64, due: i64)
    ensures
        is_due_time(duration_ns, due) <==> due == due_time_of(duration_ns),
{
}

/// The system constants that a waitable timer takes.
#[derive(Clone, Copy, Debug)]
pub struct WaitableNames {
    /// Creates the timer with high resolution.
    pub high_resolution: u32,
    pub all_access: u32,
    /// Waits without limit.
    pub infinite: u32,
    /// The wait status that says that the timer fired.
    pub wait_object_0: u32,
}

/// What the system does, besides waking the waiter, when a timer is signaled.
#[derive(Clone, Copy, Debug, PartialEq, Eq, Structural)]
pub enum Completion {
    /// No routine is called.
    NoRoutine,
}

/// What a waitable timer is set to.
#[derive(Clone, Copy, Debug, PartialEq, Eq, Structural)]
pub struct TimerSetting {
    /// Due time in units of 100 ns, negative for relative to now.
    pub due: i64,
    /// Milliseconds between repetitions, zero for none.
    pub period: i32,
    pub completion: Completion,
    /// Whether the system is woken from suspension, zero for no.
    pub resume: i32,
}

impl TimerSetting {
    /// The timer is signaled once, and nothing else happens on its account.
    pub open spec fn is_one_shot(self) -> bool {
        self.period == 0 && self.completion == Completion::NoRoutine && self.resume == 0
    }

    /// The one-shot setting for `duration_ns`.
    pub open spec fn one_shot_of(duration_ns: i64) -> TimerSetting {
        TimerSetting {
            due: due_time_of(duration_ns),
            period: 0,
            completion: Completion::NoRoutine,
            resume: 0,
        }
    }

    /// The one-shot setting for `duration_ns`.
    pub fn one_shot(duration_ns: i64) -> (setting: TimerSetting)
        ensures
            setting.is_one_shot(),
            is_due_time(duration_ns, setting.due),
            setting == TimerSetting::one_shot_of(duration_ns),
    {
        TimerSetting {
            due: due_time(duration_ns),
            period: 0,
            completion: Completion::NoRoutine,
            resume: 0,
        }
    }
}

/// A waitable-timer sleep. All states but `Finished` name the call to make
/// next, with its arguments.
#[derive(Clone, Copy, Debug)]
pub enum WaitableSleep {
    /// Create a timer with these flags and this access.
    Create { flags: u32, access: u32, setting: TimerSetting, names: WaitableNames },
    /// Set the timer.
    Arm { handle: usize, setting: TimerSetting, names: WaitableNames },
    /// Wait for the timer, no longer than this.
    Wait { handle: usize, timeout: u32, signaled: u32 },
    /// Close the timer's handle.
    Close { handle: usize, result: Result<(), ()> },
    /// The sleep is over, with this result.
    Finished { result: Result<(), ()> },
}

/// The answer to the call that a [`WaitableSleep`] asks for.
#[derive(Clone, Copy, Debug)]
pub enum WaitableEvent {
    /// The handle that came back, zero where it is null.
    Created { handle: usize },
    /// What setting the timer returned.
    Armed { status: i32 },
    /// What waiting returned.
    Waited { outcome: u32 },
    Closed,
}

impl Machine for WaitableSleep {
    type Event = WaitableEvent;

    /// A null handle, a zero from setting the timer, and any wait status but
    /// the signaled one are failures; a handle that exists is closed first. An
    /// event that does not answer the pending call changes nothing.
    open spec fn next(self, event: WaitableEvent) -> Self {
        match (self, event) {
            (WaitableSleep::Create { setting, names, .. }, WaitableEvent::Created { handle }) =>
                if handle == 0 {
                    WaitableSleep::Finished { result: Err(()) }
                } else {
                    WaitableSleep::Arm { handle, setting, names }
                },
            (WaitableSleep::Arm { handle, names, .. }, WaitableEvent::Armed { status }) =>
                if status == 0 {
                    WaitableSleep::Close { handle, result: Err(()) }
                } else {
                    WaitableSleep::Wait {
                        handle,
                        timeout: names.infinite,
                        signaled: names.wait_object_0,
                    }
                },
            (WaitableSleep::Wait { handle, signaled, .. }, WaitableEvent::Waited { outcome }) =>
                WaitableSleep::Close {
                    handle,
                    result: if outcome == signaled {
                        Ok(())
                    } else {
                        Err(())
                    },
                },
            (WaitableSleep::Close { result, .. }, WaitableEvent::Closed) =>
                WaitableSleep::Finished { result },
            _ => self,
        }
    }
}

impl Owner for WaitableSleep {
    open spec fn is_fresh(self) -> bool {
        self is Create
    }

    open spec fn holds(self) -> Option<int> {
        match self {
            WaitableSleep::Arm { handle, .. } => Some(handle as int),
            WaitableSleep::Wait { handle, .. } => Some(handle as int),
            WaitableSleep::Close { handle, .. } => Some(handle as int),
            _ => None,
        }
    }

    open spec fn opens(self, event: WaitableEvent) -> Option<int> {
        match (self, event) {
            (WaitableSleep::Create { .. }, WaitableEvent::Created { handle }) => if handle == 0 {
                None
            } else {
                Some(handle as int)
            },
            _ => None,
        }
    }

    open spec fn closes(self, event: WaitableEvent) -> Option<int> {
        match (self, event) {
            (WaitableSleep::Close { handle, .. }, WaitableEvent::Closed) => Some(handle as int),
            _ => None,
        }
    }

    proof fn owns_at_most_one(self, event: WaitableEvent) {
    }
}

impl WaitableSleep {
    /// The state in which a sleep of `duration_ns` begins: a high-resolution
    /// timer with full access is to be created.
    pub open spec fn started(duration_ns: i64, names: WaitableNames) -> Self {
        WaitableSleep::Create {
            flags: names.high_resolution,
            access: names.all_access,
            setting: TimerSetting::one_shot_of(duration_ns),
            names,
        }
    }

    /// The timer has fired, and its handle is closed.
    pub open spec fn slept(self) -> bool {
        self matches WaitableSleep::Finished { result } && result is Ok
    }

    /// A call has failed, whether or not the handle is closed yet.
    pub open spec fn failed(self) -> bool {
        ||| self matches WaitableSleep::Close { result, .. } && result is Err
        ||| self matches WaitableSleep::Finished { result } && result is Err
    }

    /// `event` says that the pending call failed.
    pub open spec fn refused(self, event: WaitableEvent) -> bool {
        match (self, event) {
            (WaitableSleep::Create { .. }, WaitableEvent::Created { handle }) => handle == 0,
            (WaitableSleep::Arm { .. }, WaitableEvent::Armed { status }) => status == 0,
            (WaitableSleep::Wait { signaled, .. }, WaitableEvent::Waited { outcome }) => outcome
                != signaled,
            _ => false,
        }
    }

    /// Takes the answer to the pending call and moves on.
    pub fn step(self, event: WaitableEvent) -> (next: Self)
        ensures
            next == self.next(event),
    {
        match self {
            WaitableSleep::Create { flags: _, access: _, setting, names } => match event {
                WaitableEvent::Created { handle } => if handle == 0 {
                    WaitableSleep::Finished { result: Err(()) }
                } else {
                    WaitableSleep::Arm { handle, setting, names }
                },
                _ => self,
            },
            WaitableSleep::Arm { handle, setting: _, names } => match event {
                WaitableEvent::Armed { status } => if status == 0 {
                    WaitableSleep::Close { handle, result: Err(()) }
                } else {
                    WaitableSleep::Wait {
                        handle,
                        timeout: names.infinite,
                        signaled: names.wait_object_0,
                    }
                },
                _ => self,
            },
            WaitableSleep::Wait { handle, timeout: _, signaled } => match event {
                WaitableEvent::Waited { outcome } => WaitableSleep::Close {
                    handle,
                    result: if outcome == signaled {
                        Ok(())
                    } else {
                        Err(())
                    },
                },
                _ => self,
            },
            WaitableSleep::Close { handle: _, result } => match event {
                WaitableEvent::Closed => WaitableSleep::Finished { result },
                _ => self,
            },
            WaitableSleep::Finished { result: _ } => self,
        }
    }
}

/// Begins a sleep of `duration_ns` on a one-shot high-resolution waitable timer.
pub fn high_res_sleep(duration_ns: i64, names: WaitableNames) -> (sleep: WaitableSleep)
    ensures
        sleep == WaitableSleep::started(duration_ns, names),
{
    WaitableSleep::Create {
        flags: names.high_resolution,
        access: names.all_access,
        setting: TimerSetting::one_shot(duration_ns),
        names,
    }
}

/// A sleep that gets a handle arms it one-shot for its duration, and, once that
/// is done, waits for it without limit.
pub proof fn waitable_arms_once_and_waits_without_limit(
    duration_ns: i64,
    names: WaitableNames,
    handle: usize,
    status: i32,
)
    requires
        handle != 0,
        status != 0,
    ensures
        ({
            let armed = WaitableSleep::started(duration_ns, names).next(
                WaitableEvent::Created { handle },
            );
            &&& armed is Arm
            &&& armed->Arm_handle == handle
            &&& armed->Arm_setting.is_one_shot()
            &&& is_due_time(duration_ns, armed->Arm_setting.due)
            &&& armed.next(WaitableEvent::Armed { status }) == (WaitableSleep::Wait {
                handle,
                timeout: names.infinite,
                signaled: names.wait_object_0,
            })
        }),
{
    due_time_is_unique(duration_ns, due_time_of(duration_ns));
}

/// A failed call is followed by no call but closing: the sleep goes straight to
/// its end, by way of closing the handle where there is one.
pub proof fn waitable_failure_goes_to_the_end(state: WaitableSleep, event: WaitableEvent)
    requires
        state.refused(event),
    ensures
        match state.holds() {
            Some(handle) => state.next(event) is Close && state.next(event).holds() == Some(handle)
                && state.next(event).next(WaitableEvent::Closed) is Finished,
            None => state.next(event) is Finished,
        },
{
}

/// The sleep fails exactly when a call other than closing fails, and then for
/// good.
pub proof fn waitable_fails_iff_a_call_fails(state: WaitableSleep, event: WaitableEvent)
    ensures
        !state.failed() ==> (state.next(event).failed() <==> state.refused(event)),
        state.failed() ==> state.next(event).failed(),
        state is Finished ==> state.next(event) == state,
{
}

/// The handle that a sleep created is closed exactly once by the time the sleep is
/// over, whatever its outcome, and nothing else is closed.
pub proof fn waitable_closes_its_handle_once(
    duration_ns: i64,
    names: WaitableNames,
    run: Run<WaitableSleep>,
)
    requires
        run.follows(WaitableSleep::started(duration_ns, names)),
        run.final_state() is Finished,
    ensures
        run.closes_what_it_opens(),
{
    crate::run::owner_closes_what_it_opens(run, WaitableSleep::started(duration_ns, names));
}

/// The system signals a timer set relative to now only once its due time has
/// come: a wait that reports the signal ends no sooner than the units of the
/// due time after the timer was set.
pub open spec fn waitable_keeps_time(run: Run<WaitableSleep>) -> bool {
    forall|j: int, i: int|
        #![trigger run.states[j], run.events[i]]
        0 <= j < i < run.events.len() && run.states[j] is Arm && run.states[j]->Arm_setting.due < 0
            && run.states[i] is Wait && run.events[i] == (WaitableEvent::Waited {
            outcome: run.states[i]->Wait_signaled,
        }) ==> run.times[j] + -run.states[j]->Arm_setting.due * NANOS_PER_UNIT <= run.times[i + 1]
}

/// Where the system keeps time, a waitable-timer sleep never returns early.
pub proof fn waitable_never_returns_early(
    duration_ns: i64,
    names: WaitableNames,
    run: Run<WaitableSleep>,
)
    requires
        run.follows(WaitableSleep::started(duration_ns, names)),
        waitable_keeps_time(run),
        run.final_state().slept(),
    ensures
        run.ended() - run.began() >= duration_ns,
{
    lemma_waitable_progress(duration_ns, names, run, run.events.len() as int);
}

/// The state sets the timer of a sleep of `duration_ns`.
spec fn arms(state: WaitableSleep, duration_ns: i64) -> bool {
    state is Arm && state->Arm_setting == TimerSetting::one_shot_of(duration_ns)
}

/// What holds of the `n`th state of a sleep.
proof fn lemma_waitable_progress(
    duration_ns: i64,
    names: WaitableNames,
    run: Run<WaitableSleep>,
    n: int,
)
    requires
        run.follows(WaitableSleep::started(duration_ns, names)),
        waitable_keeps_time(run),
        0 <= n < run.states.len(),
    ensures
        run.states[n] matches WaitableSleep::Create { setting, .. } ==> setting
            == TimerSetting::one_shot_of(duration_ns),
        run.states[n] is Arm ==> arms(run.states[n], duration_ns),
        run.states[n] is Wait ==> exists|j: int|
            0 <= j < n && arms(#[trigger] run.states[j], duration_ns),
        run.states[n] matches WaitableSleep::Close { result, .. } && result is Ok ==> run.times[n]
            >= run.times[0] + duration_ns,
        run.states[n].slept() ==> run.times[n] >= run.times[0] + duration_ns,
    decreases n,
{
    if n > 0 {
        lemma_waitable_progress(duration_ns, names, run, n - 1);
        let event = run.events[n - 1];
        assert(run.states[n] == run.states[n - 1].next(event));
        if run.states[n - 1] is Arm && run.states[n] is Wait {
            assert(arms(run.states[n - 1], duration_ns));
        }
        if run.states[n - 1] is Wait && run.states[n] is Close {
            let j = choose|j: int|
                0 <= j < n - 1 && arms(#[trigger] run.states[j], duration_ns);
            due_time_is_unique(duration_ns, due_time_of(duration_ns));
            assert(run.times[0] <= run.times[j]);
        }
    }
}

/// A due time is negative, covers the duration in units of 100 ns, and does so
/// with the fewest units, though with one at least.
pub proof fn due_time_is_the_least_that_covers(duration_ns: i64, fewer: int)
    ensures
        due_time_of(duration_ns) <= -1,
        -due_time_of(duration_ns) * 100 >= duration_ns,
        1 <= fewer < -due_time_of(duration_ns) ==> fewer * 100 < duration_ns,
{
}

/// A sleep begins by asking for a high-resolution timer with full access. What
/// it will be set to covers the duration with less than one unit to spare, does
/// not repeat, calls nothing and wakes no suspended system.
pub proof fn waitable_begins_with_the_duration(duration_ns: i64, names: WaitableNames)
    ensures
        ({
            let first = WaitableSleep::started(duration_ns, names);
            &&& first is Create
            &&& first->flags == names.high_resolution
            &&& first->access == names.all_access
            &&& first->Create_names == names
            &&& first->Create_setting.due <= -1
            &&& -first->Create_setting.due * 100 >= duration_ns
            &&& duration_ns > 0 ==> -first->Create_setting.due * 100 < duration_ns + 100
            &&& duration_ns <= 0 ==> first->Create_setting.due == -1
            &&& first->Create_setting.period == 0
            &&& first->Create_setting.resume == 0
            &&& first->Create_setting.completion is NoRoutine
        }),
{
}

/// A timer that was created is set next, to what the sleep began with; a null
/// handle ends the sleep in failure.
pub proof fn waitable_sets_what_it_created(state: WaitableSleep, handle: usize)
    requires
        state is Create,
    ensures
        ({
            let next = state.next(WaitableEvent::Created { handle });
            &&& handle != 0 ==> next is Arm && next->Arm_handle == handle && next->Arm_setting
                == state->Create_setting && next->Arm_names == state->Create_names
            &&& handle == 0 ==> next is Finished && next->Finished_result is Err
        }),
{
}

/// A timer that was set is waited for without limit, until it is signaled; one
/// that could not be set is closed, in failure.
pub proof fn waitable_waits_for_what_it_set(state: WaitableSleep, status: i32)
    requires
        state is Arm,
    ensures
        ({
            let next = state.next(WaitableEvent::Armed { status });
            &&& status != 0 ==> next is Wait && next->Wait_handle == state->Arm_handle
                && next->timeout == state->Arm_names.infinite && next->Wait_signaled
                == state->Arm_names.wait_object_0
            &&& status == 0 ==> next is Close && next->Close_handle == state->Arm_handle
                && next->Close_result is Err
        }),
{
}

/// One wait is enough: whatever it reports the timer is closed next, in success
/// exactly where it was signaled.
pub proof fn waitable_waits_once(state: WaitableSleep, outcome: u32)
    requires
        state is Wait,
    ensures
        ({
            let next = state.next(WaitableEvent::Waited { outcome });
            &&& next is Close
            &&& next->Close_handle == state->Wait_handle
            &&& next->Close_result is Ok <==> outcome == state->Wait_signaled
        }),
{
}

/// Closing the handle ends the sleep with the result that led to it.
pub proof fn waitable_ends_when_closed(state: WaitableSleep)
    requires
        state is Close,
    ensures
        state.next(WaitableEvent::Closed) is Finished,
        state.next(WaitableEvent::Closed)->Finished_result == state->Close_result,
{
}

/// An answer to another call than the pending one leaves the sleep as it is, and
/// so does any answer once the sleep is over.
pub proof fn waitable_ignores_stray_answers(state: WaitableSleep, event: WaitableEvent)
    requires
        state is Create ==> event !is Created,
        state is Arm ==> event !is Armed,
        state is Wait ==> event !is Waited,
        state is Close ==> event !is Closed,
    ensures
        state.next(event) == state,
{
}

/// A sleep whose timer is created, set and signaled is over, well, after four
/// answers.
pub proof fn waitable_success_is_reported(
    duration_ns: i64,
    names: WaitableNames,
    handle: usize,
    status: i32,
)
    requires
        handle != 0,
        status != 0,
    ensures
        WaitableSleep::started(duration_ns, names).next(WaitableEvent::Created { handle }).next(
            WaitableEvent::Armed { status },
        ).next(WaitableEvent::Waited { outcome: names.wait_object_0 }).next(
            WaitableEvent::Closed,
        ).slept(),
{
}

/// The setting that a sleep sets its timer to covers the duration with less than
/// one unit to spare, whatever happened before.
pub proof fn waitable_sets_the_duration(
    duration_ns: i64,
    names: WaitableNames,
    run: Run<WaitableSleep>,
    n: int,
)
    requires
        duration_ns > 0,
        run.follows(WaitableSleep::started(duration_ns, names)),
        0 <= n < run.states.len(),
    ensures
        run.states[n] matches WaitableSleep::Create { setting, .. } ==> duration_ns <= -setting.due
            * 100 < duration_ns + 100,
        run.states[n] matches WaitableSleep::Arm { setting, .. } ==> duration_ns <= -setting.due
            * 100 < duration_ns + 100,
    decreases n,
{
    if n > 0 {
        waitable_sets_the_duration(duration_ns, names, run, n - 1);
        assert(run.states[n] == run.states[n - 1].next(run.events[n - 1]));
    }
}

} // verus!
