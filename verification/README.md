# timer_lab

Async nanosecond sleeping on the most precise timer of each operating system,
with the decisions verified by Verus.

| OS | Primitive | Machine |
|----|-----------|---------|
| Linux | `timerfd` awaited through the reactor | `linux::TimerfdSleep` |
| macOS | `kqueue` `EVFILT_TIMER` (`NOTE_NSECONDS \| NOTE_CRITICAL`) awaited through the reactor | `macos::KqueueSleep` |
| Windows | high-resolution waitable timer on a blocking thread | `windows_timer::WaitableSleep` |
| other | the runtime's timer wheel | `sleep::Sleep` alone |

`src/` is the verified library. It makes no system call: a machine's state says
which call to make next, and `step` takes the answer. `app/` makes the calls, on
tokio, libc and windows-sys.

The central theorem is `timing::sleep_never_returns_early`: on every platform,
for every duration, and whichever call fails, a sleep that is over has taken at
least the requested time. It assumes of the world that kernel timers do not
expire early, that the timer wheel does not wake early, and that the clock does
not overstate the time that has passed. Of the caller it assumes truthful
answers: each comes from making the call that was asked for, and a drain is
answered with `Fired` only where `linux::read_verdict` or `macos::poll_verdict`
judged the raw reply so.

Whatever the outcome, a sleep that is over has closed the descriptor or handle
that it opened, exactly once (`*_closes_its_descriptor_once` and
`waitable_closes_its_handle_once`). A future that is dropped while it awaits is
not over; there the caller's owning descriptor type closes it.
