//! The sleep itself: the platform's precise timer first, the runtime's timer
//! wheel where that fails.

use vstd::prelude::*;

use crate::platform::Platform;
use crate::run::Machine;

verus! {

/// What a sleep is waiting for.
#[derive(Clone, Copy, Debug, PartialEq, Eq, Structural)]
pub enum SleepStage {
    /// Yield to the scheduler once.
    Yield,
    /// Sleep the whole duration on the platform's precise timer.
    Timer,
    /// Sleep this long on the timer wheel.
    Wheel { nanos: u64 },
    /// The sleep is over.
    Finished,
}

/// The answer to what a sleep waits for.
#[derive(Clone, Copy, Debug, PartialEq, Eq, Structural)]
pub enum SleepEvent {
    /// The precise timer ran its course.
    TimerSlept,
    /// The precise timer failed, this long after the sleep began.
    TimerFailed { elapsed_ns: u128 },
    /// The yield or the wheel's sleep is over.
    Resumed,
}

/// A sleep of `duration_ns` on `platform`.
#[derive(Clone, Copy, Debug, PartialEq, Eq, Structural)]
pub struct Sleep {
    pub platform: Platform,
    pub duration_ns: i64,
    pub stage: SleepStage,
}

/// The nanoseconds still owed to the sleeper when the precise timer failed
/// after `elapsed_ns`: whatever remains of the duration.
pub open spec fn owed_ns(duration_ns: i64, elapsed_ns: u128) -> int {
    duration_ns - elapsed_ns
}

impl Machine for Sleep {
    type Event = SleepEvent;

    /// A failed timer degrades to the wheel for what is owed, or to a yield
    /// where nothing is; everything else ends the sleep. An event that does
    /// not answer the stage changes nothing.
    open spec fn next(self, event: SleepEvent) -> Self {
        let stage = match (self.stage, event) {
            (SleepStage::Timer, SleepEvent::TimerSlept) => SleepStage::Finished,
            (SleepStage::Timer, SleepEvent::TimerFailed { elapsed_ns }) => {
                let owed = owed_ns(self.duration_ns, elapsed_ns);
                if owed > 0 {
                    SleepStage::Wheel { nanos: owed as u64 }
                } else {
                    SleepStage::Yield
                }
            },
            (SleepStage::Yield, SleepEvent::Resumed) => SleepStage::Finished,
            (SleepStage::Wheel { .. }, SleepEvent::Resumed) => SleepStage::Finished,
            _ => self.stage,
        };
        Sleep { stage, ..self }
    }
}

impl Sleep {
    /// A sleep that begins: a non-positive duration takes a yield, any other
    /// the precise timer or, on a platform without one, the wheel.
    pub open spec fn started(platform: Platform, duration_ns: i64) -> Sleep {
        Sleep {
            platform,
            duration_ns,
            stage: if duration_ns <= 0 {
                SleepStage::Yield
            } else if platform == Platform::Other {
                SleepStage::Wheel { nanos: duration_ns as u64 }
            } else {
                SleepStage::Timer
            },
        }
    }

    /// `event` answers what the sleep is waiting for.
    pub open spec fn is_answered_by(self, event: SleepEvent) -> bool {
        match self.stage {
            SleepStage::Yield => event == SleepEvent::Resumed,
            SleepStage::Timer => event != SleepEvent::Resumed,
            SleepStage::Wheel { .. } => event == SleepEvent::Resumed,
            SleepStage::Finished => false,
        }
    }

    /// How many answers the sleep takes at most before it is over.
    pub open spec fn answers_left(self) -> nat {
        match self.stage {
            SleepStage::Timer => 2,
            SleepStage::Yield => 1,
            SleepStage::Wheel { .. } => 1,
            SleepStage::Finished => 0,
        }
    }

    /// Takes the answer to what the sleep waits for and moves on.
    pub fn step(self, event: SleepEvent) -> (next: Sleep)
        ensures
            next == self.next(event),
    {
        let stage = match self.stage {
            SleepStage::Timer => match event {
                SleepEvent::TimerSlept => SleepStage::Finished,
                SleepEvent::TimerFailed { elapsed_ns } => self.degraded(elapsed_ns),
                SleepEvent::Resumed => SleepStage::Timer,
            },
            SleepStage::Yield => match event {
                SleepEvent::Resumed => SleepStage::Finished,
                _ => SleepStage::Yield,
            },
            SleepStage::Wheel { nanos } => match event {
                SleepEvent::Resumed => SleepStage::Finished,
                _ => SleepStage::Wheel { nanos },
            },
            SleepStage::Finished => SleepStage::Finished,
        };
        Sleep { platform: self.platform, duration_ns: self.duration_ns, stage }
    }

    /// The stage that a timer failure after `elapsed_ns` leads to.
    fn degraded(&self, elapsed_ns: u128) -> (stage: SleepStage)
        ensures
            stage == (if owed_ns(self.duration_ns, elapsed_ns) > 0 {
                SleepStage::Wheel {
                    nanos: owed_ns(self.duration_ns, elapsed_ns) as u64,
                }
            } else {
                SleepStage::Yield
            }),
    {
        if self.duration_ns <= 0 {
            return SleepStage::Yield;
        }
        let owed: u128 = (self.duration_ns as u128).saturating_sub(elapsed_ns);
        if owed > 0 {
            SleepStage::Wheel { nanos: owed as u64 }
        } else {
            SleepStage::Yield
        }
    }
}

/// Begins a sleep of `duration_ns` on the most precise timer of `platform`,
/// which falls back to the timer wheel for whatever time remains when that timer
/// fails. Non-positive durations resolve after a single yield.
pub fn sleep_ns(platform: Platform, duration_ns: i64) -> (sleep: Sleep)
    ensures
        sleep == Sleep::started(platform, duration_ns),
{
    let stage = if duration_ns <= 0 {
        SleepStage::Yield
    } else {
        match platform {
            Platform::Other => SleepStage::Wheel { nanos: duration_ns as u64 },
            _ => SleepStage::Timer,
        }
    };
    Sleep { platform, duration_ns, stage }
}

/// On every platform with a precise timer, a failure of that timer degrades the
/// sleep to the wheel for exactly the time that remains, or to a yield where
/// none does.
pub proof fn timer_failure_degrades(platform: Platform, duration_ns: i64, elapsed_ns: u128)
    requires
        duration_ns > 0,
        platform != Platform::Other,
    ensures
        Sleep::started(platform, duration_ns).stage == SleepStage::Timer,
        ({
            let degraded = Sleep::started(platform, duration_ns).next(
                SleepEvent::TimerFailed { elapsed_ns },
            );
            match degraded.stage {
                SleepStage::Wheel { nanos } => elapsed_ns < duration_ns && nanos == duration_ns
                    - elapsed_ns,
                SleepStage::Yield => elapsed_ns >= duration_ns,
                _ => false,
            }
        }),
{
}

/// Every answer brings the sleep nearer to its end, so that it is over after
/// two at most, and once over it stays so.
pub proof fn answers_end_the_sleep(sleep: Sleep, event: SleepEvent)
    ensures
        sleep.is_answered_by(event) ==> sleep.next(event).answers_left() < sleep.answers_left(),
        !sleep.is_answered_by(event) ==> sleep.next(event) == sleep,
        sleep.answers_left() == 0 <==> sleep.stage == SleepStage::Finished,
{
}

/// A sleep keeps the platform and the duration that it was asked for. It begins
/// with a yield exactly where the duration is not positive, with the wheel
/// exactly where there is time to sleep and no precise timer, and then for the
/// duration to the nanosecond, and with the precise timer everywhere else.
pub proof fn sleep_begins_with_the_best_timer(platform: Platform, duration_ns: i64)
    ensures
        ({
            let sleep = Sleep::started(platform, duration_ns);
            &&& sleep.platform == platform
            &&& sleep.duration_ns == duration_ns
            &&& sleep.stage is Yield <==> duration_ns <= 0
            &&& sleep.stage is Wheel <==> duration_ns > 0 && platform is Other
            &&& sleep.stage is Timer <==> duration_ns > 0 && platform !is Other
            &&& sleep.stage matches SleepStage::Wheel { nanos } ==> nanos == duration_ns
        }),
{
}

/// No answer changes the platform or the duration of a sleep.
pub proof fn request_is_kept(sleep: Sleep, event: SleepEvent)
    ensures
        sleep.next(event).platform == sleep.platform,
        sleep.next(event).duration_ns == sleep.duration_ns,
{
}

/// A sleep whose timer has run its course asks for nothing more, then or later.
pub proof fn timer_success_ends_the_sleep(sleep: Sleep, later: SleepEvent)
    requires
        sleep.stage is Timer,
    ensures
        sleep.next(SleepEvent::TimerSlept).stage is Finished,
        sleep.next(SleepEvent::TimerSlept).next(later).stage is Finished,
{
}

/// What a failed timer leaves to the wheel makes up the duration together with
/// the time that has passed, on every platform; a yield takes its place exactly
/// where the duration has passed already.
pub proof fn timer_failure_leaves_what_remains(sleep: Sleep, elapsed_ns: u128)
    requires
        sleep.stage is Timer,
    ensures
        ({
            let degraded = sleep.next(SleepEvent::TimerFailed { elapsed_ns });
            &&& degraded.stage is Wheel <==> elapsed_ns < sleep.duration_ns
            &&& degraded.stage is Yield <==> elapsed_ns >= sleep.duration_ns
            &&& degraded.stage matches SleepStage::Wheel { nanos } ==> elapsed_ns + nanos
                == sleep.duration_ns
        }),
{
}

/// The yield and the wheel's sleep are the last that a sleep asks for.
pub proof fn resuming_ends_the_sleep(sleep: Sleep)
    requires
        sleep.stage is Yield || sleep.stage is Wheel,
    ensures
        sleep.next(SleepEvent::Resumed).stage is Finished,
{
}

/// An answer to something else than what the sleep waits for leaves it as it is,
/// and so does any answer once the sleep is over.
pub proof fn stray_answers_leave_the_sleep(sleep: Sleep, event: SleepEvent)
    requires
        sleep.stage is Timer ==> event is Resumed,
        sleep.stage is Yield || sleep.stage is Wheel ==> event !is Resumed,
    ensures
        sleep.next(event) == sleep,
{
}

} // verus!
