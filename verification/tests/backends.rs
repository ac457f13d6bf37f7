//! The timer backends, call by call.

use timer_lab::linux::{
    read_verdict, timerfd_sleep_ns, ReadVerdict, TimerSpec, TimerfdEvent, TimerfdNames,
    TimerfdSleep,
};
use timer_lab::macos::{
    kqueue_sleep_ns, poll_verdict, KqueueEvent, KqueueNames, KqueueSleep, PollVerdict, TimerChange,
};
use timer_lab::readiness::{Drain, Readiness, ReadinessEvent, Wait};
use timer_lab::windows_timer::{
    due_time, high_res_sleep, Completion, TimerSetting, WaitableEvent, WaitableNames, WaitableSleep,
};

const TIMERFD: TimerfdNames = TimerfdNames {
    clock_monotonic: libc::CLOCK_MONOTONIC,
    tfd_nonblock: libc::TFD_NONBLOCK,
    tfd_cloexec: libc::TFD_CLOEXEC,
};

const KQUEUE: KqueueNames = KqueueNames {
    evfilt_timer: -7,
    ev_add: 0x1,
    ev_oneshot: 0x10,
    ev_error: 0x4000,
    note_nseconds: 0x4,
    note_critical: 0x20,
    fd_cloexec: 1,
    o_nonblock: 0x4,
};

const WAITABLE: WaitableNames = WaitableNames {
    high_resolution: 0x2,
    all_access: 0x1F_0003,
    infinite: 0xFFFF_FFFF,
    wait_object_0: 0,
};

const SIGNALED: u32 = WAITABLE.wait_object_0;

type Timerfd = TimerfdSleep<&'static str>;
type Kqueue = KqueueSleep<&'static str>;

fn timerfd_armed(ns: i64) -> Timerfd {
    timerfd_sleep_ns(ns, TIMERFD)
        .step(TimerfdEvent::Created { fd: 3, os_error: "create" })
        .step(TimerfdEvent::Armed { status: 0, os_error: "arm" })
}

fn timerfd_draining(ns: i64) -> Timerfd {
    timerfd_armed(ns)
        .step(TimerfdEvent::Awaited(ReadinessEvent::Registered(Ok(()))))
        .step(TimerfdEvent::Awaited(ReadinessEvent::Readable(Ok(()))))
}

#[test]
fn timer_spec_splits_seconds() {
    let split = |ns: i64| {
        let t = TimerSpec::one_shot(ns);
        assert_eq!((t.interval_sec, t.interval_nsec), (0, 0));
        (t.value_sec, t.value_nsec)
    };
    assert_eq!(split(50_000), (0, 50_000));
    assert_eq!(split(999_999_999), (0, 999_999_999));
    assert_eq!(split(1_000_000_000), (1, 0));
    assert_eq!(split(2_500_000_001), (2, 500_000_001));
    assert_eq!(split(i64::MAX), (9_223_372_036, 854_775_807));
    assert_eq!(split(0), (0, 0));
    assert_eq!(split(-1), (0, -1));
    assert_eq!(split(-1_500_000_000), (-1, -500_000_000));
    assert_eq!(split(i64::MIN), (-9_223_372_036, -854_775_808));
}

#[test]
fn timerfd_creates_then_arms() {
    let sleep: Timerfd = timerfd_sleep_ns(2_500_000_001, TIMERFD);
    match &sleep {
        TimerfdSleep::Create { clock, flags, .. } => {
            assert_eq!(*clock, libc::CLOCK_MONOTONIC);
            assert_eq!(*flags, libc::TFD_NONBLOCK | libc::TFD_CLOEXEC);
        }
        other => panic!("{other:?}"),
    }
    match sleep.step(TimerfdEvent::Created { fd: 0, os_error: "create" }) {
        TimerfdSleep::Arm { fd, flags, timer } => {
            assert_eq!((fd, flags), (0, 0));
            assert_eq!(timer, TimerSpec::one_shot(2_500_000_001));
        }
        other => panic!("{other:?}"),
    }
    assert!(matches!(
        timerfd_armed(1),
        TimerfdSleep::Await { fd: 3, readiness: Readiness::Register }
    ));
}

#[test]
fn timerfd_create_and_arm_failures() {
    let sleep: Timerfd = timerfd_sleep_ns(1, TIMERFD);
    assert!(matches!(
        sleep.step(TimerfdEvent::Created { fd: -1, os_error: "create" }),
        TimerfdSleep::Finished { result: Err("create") }
    ));
    for status in [-1, 1] {
        let sleep: Timerfd = timerfd_sleep_ns(1, TIMERFD);
        assert!(matches!(
            sleep
                .step(TimerfdEvent::Created { fd: 3, os_error: "create" })
                .step(TimerfdEvent::Armed { status, os_error: "arm" }),
            TimerfdSleep::Close { fd: 3, result: Err("arm") }
        ));
    }
}

#[test]
fn timerfd_awaits_expiry() {
    let slept =
        timerfd_draining(1).step(TimerfdEvent::Awaited(ReadinessEvent::Drained(Drain::Fired)));
    assert!(matches!(slept, TimerfdSleep::Close { fd: 3, result: Ok(()) }));
}

#[test]
fn spurious_readiness_is_awaited_again() {
    let mut sleep = timerfd_draining(1);
    for _ in 0..3 {
        sleep = sleep.step(TimerfdEvent::Awaited(ReadinessEvent::Drained(
            Drain::WouldBlock,
        )));
        assert!(matches!(
            sleep,
            TimerfdSleep::Await { fd: 3, readiness: Readiness::AwaitReadable }
        ));
        sleep = sleep.step(TimerfdEvent::Awaited(ReadinessEvent::Readable(Ok(()))));
        assert!(matches!(sleep, TimerfdSleep::Await { fd: 3, readiness: Readiness::Drain }));
    }
}

#[test]
fn awaiting_fails_with_the_reported_error() {
    let failed = timerfd_armed(1).step(TimerfdEvent::Awaited(ReadinessEvent::Registered(Err(
        "register",
    ))));
    assert!(matches!(
        failed,
        TimerfdSleep::Close { fd: 3, result: Err("register") }
    ));
    let failed = timerfd_armed(1)
        .step(TimerfdEvent::Awaited(ReadinessEvent::Registered(Ok(()))))
        .step(TimerfdEvent::Awaited(ReadinessEvent::Readable(Err(
            "readable",
        ))));
    assert!(matches!(
        failed,
        TimerfdSleep::Close { fd: 3, result: Err("readable") }
    ));
    let failed = timerfd_draining(1).step(TimerfdEvent::Awaited(ReadinessEvent::Drained(
        Drain::Failed("drain"),
    )));
    assert!(matches!(
        failed,
        TimerfdSleep::Close { fd: 3, result: Err("drain") }
    ));
    let still = failed.step(TimerfdEvent::Awaited(ReadinessEvent::Drained(Drain::Fired)));
    assert!(matches!(
        still,
        TimerfdSleep::Close { fd: 3, result: Err("drain") }
    ));
    let over = still.step(TimerfdEvent::Closed);
    assert!(matches!(
        over,
        TimerfdSleep::Finished { result: Err("drain") }
    ));
    assert!(matches!(
        over.step(TimerfdEvent::Closed),
        TimerfdSleep::Finished { result: Err("drain") }
    ));
}

#[test]
fn read_verdicts() {
    assert_eq!(read_verdict(8), ReadVerdict::Fired);
    assert_eq!(read_verdict(0), ReadVerdict::Fired);
    assert_eq!(read_verdict(-1), ReadVerdict::LastOsError);
}

#[test]
fn kqueue_sets_up_and_arms() {
    let sleep: Kqueue = kqueue_sleep_ns(250_000, KQUEUE);
    assert!(matches!(sleep, KqueueSleep::Create { .. }));
    let sleep = sleep.step(KqueueEvent::Created { kq: 5, os_error: "create" });
    assert!(matches!(
        sleep,
        KqueueSleep::SetCloexec { kq: 5, flag: 1, .. }
    ));
    let sleep = sleep.step(KqueueEvent::CloexecSet);
    assert!(matches!(sleep, KqueueSleep::GetStatus { kq: 5, .. }));
    let sleep = sleep.step(KqueueEvent::Status { status: 0x2 });
    assert!(matches!(sleep, KqueueSleep::SetStatus { kq: 5, status: 0x6, .. }));
    let sleep = sleep.step(KqueueEvent::StatusSet);
    match &sleep {
        KqueueSleep::Arm { kq: 5, change } => assert_eq!(
            *change,
            TimerChange {
                ident: 1,
                filter: -7,
                flags: 0x11,
                fflags: 0x24,
                data: 250_000,
            }
        ),
        other => panic!("{other:?}"),
    }
    let sleep = sleep
        .step(KqueueEvent::Armed { status: 0, os_error: "arm" })
        .step(KqueueEvent::Awaited(ReadinessEvent::Registered(Ok(()))))
        .step(KqueueEvent::Awaited(ReadinessEvent::Readable(Ok(()))))
        .step(KqueueEvent::Awaited(ReadinessEvent::Drained(Drain::Fired)));
    assert!(matches!(sleep, KqueueSleep::Close { kq: 5, result: Ok(()) }));
}

#[test]
fn kqueue_failures() {
    let sleep: Kqueue = kqueue_sleep_ns(1, KQUEUE);
    assert!(matches!(
        sleep.step(KqueueEvent::Created { kq: -1, os_error: "create" }),
        KqueueSleep::Finished { result: Err("create") }
    ));
    let to_arm = |status: i32| {
        let sleep: Kqueue = kqueue_sleep_ns(1, KQUEUE);
        sleep
            .step(KqueueEvent::Created { kq: 5, os_error: "create" })
            .step(KqueueEvent::CloexecSet)
            .step(KqueueEvent::Status { status })
            .step(KqueueEvent::StatusSet)
    };
    assert!(matches!(
        to_arm(0).step(KqueueEvent::Armed { status: -1, os_error: "arm" }),
        KqueueSleep::Close { kq: 5, result: Err("arm") }
    ));
    // A failed status query is not an obstacle, nor is a positive status.
    assert!(matches!(
        to_arm(-1).step(KqueueEvent::Armed { status: 1, os_error: "arm" }),
        KqueueSleep::Await { kq: 5, readiness: Readiness::Register }
    ));
}

#[test]
fn poll_verdicts() {
    let ev_error = KQUEUE.ev_error;
    assert_eq!(poll_verdict(1, 0x10, 1, KQUEUE), PollVerdict::Fired);
    assert_eq!(poll_verdict(0, 0, 0, KQUEUE), PollVerdict::WouldBlock);
    assert_eq!(
        poll_verdict(-1, ev_error, 22, KQUEUE),
        PollVerdict::LastOsError
    );
    assert_eq!(
        poll_verdict(1, 0x4010, 22, KQUEUE),
        PollVerdict::EventError { code: 22 }
    );
    assert_eq!(
        poll_verdict(1, ev_error, -1, KQUEUE),
        PollVerdict::EventError { code: -1 }
    );
    assert_eq!(
        poll_verdict(1, ev_error, 0x1_0000_0016, KQUEUE),
        PollVerdict::EventError { code: 22 }
    );
}

#[test]
fn due_times_cover_the_duration() {
    assert_eq!(due_time(50_000), -500);
    assert_eq!(due_time(100), -1);
    assert_eq!(due_time(99), -1);
    assert_eq!(due_time(1), -1);
    assert_eq!(due_time(0), -1);
    assert_eq!(due_time(-1), -1);
    assert_eq!(due_time(i64::MIN), -1);
    assert_eq!(due_time(200), -2);
    assert_eq!(due_time(101), -2);
    assert_eq!(due_time(199), -2);
    assert_eq!(due_time(i64::MAX), -92_233_720_368_547_759);
    for ns in [1i64, 150, 250_000, 999_999_999] {
        assert!(-due_time(ns) * 100 >= ns);
    }
}

/// Drives a waitable sleep and counts the handles opened and closed.
fn drive_waitable(created: usize, status: i32, outcome: u32) -> (Result<(), ()>, u32, u32) {
    let mut sleep = high_res_sleep(250_050, WAITABLE);
    let (mut opened, mut closed) = (0u32, 0u32);
    loop {
        let event = match sleep {
            WaitableSleep::Create { flags, access, .. } => {
                assert_eq!((flags, access), (0x2, 0x1F_0003));
                opened += u32::from(created != 0);
                WaitableEvent::Created { handle: created }
            }
            WaitableSleep::Arm {
                handle, setting, ..
            } => {
                assert_eq!(handle, created);
                assert_eq!(
                    setting,
                    TimerSetting {
                        due: -2_501,
                        period: 0,
                        completion: Completion::NoRoutine,
                        resume: 0,
                    }
                );
                WaitableEvent::Armed { status }
            }
            WaitableSleep::Wait {
                handle, timeout, ..
            } => {
                assert_eq!((handle, timeout), (created, 0xFFFF_FFFF));
                WaitableEvent::Waited { outcome }
            }
            WaitableSleep::Close { handle, .. } => {
                assert_eq!(handle, created);
                closed += 1;
                WaitableEvent::Closed
            }
            WaitableSleep::Finished { result } => return (result, opened, closed),
        };
        sleep = sleep.step(event);
    }
}

#[test]
fn waitable_timer_closes_its_handle_once() {
    assert_eq!(drive_waitable(0x40, 1, SIGNALED), (Ok(()), 1, 1));
    assert_eq!(drive_waitable(0x40, 1, 258), (Err(()), 1, 1));
    assert_eq!(drive_waitable(0x40, 0, SIGNALED), (Err(()), 1, 1));
    assert_eq!(drive_waitable(0, 1, SIGNALED), (Err(()), 0, 0));
}

#[test]
fn the_first_drain_that_finds_something_is_the_last() {
    let mut wait: Wait<&'static str> = Wait::Pending(Readiness::AwaitReadable);
    for _ in 0..5 {
        wait = wait.step(ReadinessEvent::Readable(Ok(())));
        wait = wait.step(ReadinessEvent::Drained(Drain::WouldBlock));
        assert!(matches!(wait, Wait::Pending(Readiness::AwaitReadable)));
    }
    wait = wait.step(ReadinessEvent::Readable(Ok(())));
    wait = wait.step(ReadinessEvent::Drained(Drain::Fired));
    assert!(matches!(wait, Wait::Ended(Ok(()))));
    wait = wait.step(ReadinessEvent::Drained(Drain::Failed("late")));
    wait = wait.step(ReadinessEvent::Readable(Ok(())));
    assert!(matches!(wait, Wait::Ended(Ok(()))));
}
