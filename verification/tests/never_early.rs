//! Whole sleeps against a simulated kernel, with spurious wakeups and with a
//! failure at each call in turn.

use timer_lab::linux::{timerfd_sleep_ns, TimerfdEvent, TimerfdNames, TimerfdSleep};
use timer_lab::macos::{kqueue_sleep_ns, KqueueEvent, KqueueNames, KqueueSleep};
use timer_lab::readiness::{Drain, Readiness, ReadinessEvent};
use timer_lab::windows_timer::{high_res_sleep, WaitableEvent, WaitableNames, WaitableSleep};
use timer_lab::{sleep_ns, Platform, SleepEvent, SleepStage};

const CALL_NS: i64 = 7;

struct Kernel {
    now: i64,
    deadline: i64,
    calls: u32,
    failing_call: u32,
    spurious: u32,
    /// The descriptors and handles opened and closed, in order.
    opened: Vec<i64>,
    closed: Vec<i64>,
}

impl Kernel {
    fn new(failing_call: u32) -> Kernel {
        Kernel {
            now: 1_000,
            deadline: i64::MAX,
            calls: 0,
            failing_call,
            spurious: 3,
            opened: Vec::new(),
            closed: Vec::new(),
        }
    }

    /// Makes a call and says whether it succeeds.
    fn call(&mut self) -> bool {
        self.calls += 1;
        self.now += CALL_NS;
        self.calls != self.failing_call
    }

    /// Opens a descriptor, or returns nothing.
    fn open(&mut self) -> Option<i32> {
        if self.call() {
            self.opened.push(3);
            Some(3)
        } else {
            None
        }
    }

    fn close(&mut self, resource: i64) {
        self.closed.push(resource);
    }

    fn arm(&mut self, ns: i64) -> bool {
        let ok = self.call();
        if ok {
            self.deadline = self.now + ns;
        }
        ok
    }

    fn answer(&mut self, readiness: Readiness) -> ReadinessEvent<u32> {
        let ok = self.call();
        let result = if ok { Ok(()) } else { Err(self.calls) };
        match readiness {
            Readiness::Register => ReadinessEvent::Registered(result),
            Readiness::AwaitReadable => {
                if self.spurious > 0 {
                    self.spurious -= 1;
                } else {
                    self.now = self.now.max(self.deadline);
                }
                ReadinessEvent::Readable(result)
            }
            _ => ReadinessEvent::Drained(if !ok {
                Drain::Failed(self.calls)
            } else if self.now < self.deadline {
                Drain::WouldBlock
            } else {
                Drain::Fired
            }),
        }
    }

    fn timerfd(&mut self, ns: i64) -> bool {
        let names = TimerfdNames {
            clock_monotonic: 1,
            tfd_nonblock: 2,
            tfd_cloexec: 4,
        };
        let mut sleep: TimerfdSleep<u32> = timerfd_sleep_ns(ns, names);
        loop {
            let event = match &sleep {
                TimerfdSleep::Create { .. } => TimerfdEvent::Created {
                    fd: self.open().unwrap_or(-1),
                    os_error: self.calls,
                },
                TimerfdSleep::Arm { timer, .. } => TimerfdEvent::Armed {
                    status: if self.arm(timer.value_sec * 1_000_000_000 + timer.value_nsec) {
                        0
                    } else {
                        -1
                    },
                    os_error: self.calls,
                },
                TimerfdSleep::Await { readiness, .. } => {
                    TimerfdEvent::Awaited(self.answer(*readiness))
                }
                TimerfdSleep::Close { fd, .. } => {
                    self.close(i64::from(*fd));
                    TimerfdEvent::Closed
                }
                TimerfdSleep::Finished { result } => {
                    // The error is that of the call that failed.
                    assert!(*result == Ok(()) || *result == Err(self.failing_call));
                    return result.is_ok();
                }
            };
            sleep = sleep.step(event);
        }
    }

    fn kqueue(&mut self, ns: i64) -> bool {
        let names = KqueueNames {
            evfilt_timer: -7,
            ev_add: 0x1,
            ev_oneshot: 0x10,
            ev_error: 0x4000,
            note_nseconds: 0x4,
            note_critical: 0x20,
            fd_cloexec: 1,
            o_nonblock: 0x4,
        };
        let mut sleep: KqueueSleep<u32> = kqueue_sleep_ns(ns, names);
        loop {
            let event = match &sleep {
                KqueueSleep::Create { .. } => KqueueEvent::Created {
                    kq: self.open().unwrap_or(-1),
                    os_error: self.calls,
                },
                KqueueSleep::SetCloexec { .. } => {
                    self.call();
                    KqueueEvent::CloexecSet
                }
                KqueueSleep::GetStatus { .. } => KqueueEvent::Status {
                    status: if self.call() { 2 } else { -1 },
                },
                KqueueSleep::SetStatus { .. } => {
                    self.call();
                    KqueueEvent::StatusSet
                }
                KqueueSleep::Arm { change, .. } => KqueueEvent::Armed {
                    status: if self.arm(change.data) { 0 } else { -1 },
                    os_error: self.calls,
                },
                KqueueSleep::Await { readiness, .. } => {
                    KqueueEvent::Awaited(self.answer(*readiness))
                }
                KqueueSleep::Close { kq, .. } => {
                    self.close(i64::from(*kq));
                    KqueueEvent::Closed
                }
                KqueueSleep::Finished { result } => {
                    // The error is that of the call that failed.
                    assert!(*result == Ok(()) || *result == Err(self.failing_call));
                    return result.is_ok();
                }
            };
            sleep = sleep.step(event);
        }
    }

    fn waitable(&mut self, ns: i64) -> bool {
        let names = WaitableNames {
            high_resolution: 0x2,
            all_access: 0x1F_0003,
            infinite: 0xFFFF_FFFF,
            wait_object_0: 0,
        };
        let mut sleep = high_res_sleep(ns, names);
        loop {
            let event = match sleep {
                WaitableSleep::Create { .. } => WaitableEvent::Created {
                    handle: self.open().unwrap_or(0) as usize,
                },
                WaitableSleep::Arm { setting, .. } => WaitableEvent::Armed {
                    status: i32::from(self.arm(-setting.due * 100)),
                },
                WaitableSleep::Wait { .. } => {
                    if self.call() {
                        self.now = self.now.max(self.deadline);
                        WaitableEvent::Waited { outcome: 0 }
                    } else {
                        WaitableEvent::Waited {
                            outcome: 0xFFFF_FFFF,
                        }
                    }
                }
                WaitableSleep::Close { handle, .. } => {
                    self.close(handle as i64);
                    WaitableEvent::Closed
                }
                WaitableSleep::Finished { result } => return result.is_ok(),
            };
            sleep = sleep.step(event);
        }
    }

    /// Sleeps `ns` on `platform` and says how long it took and whether the
    /// sleep degraded.
    fn sleep(&mut self, platform: Platform, ns: i64) -> (i64, bool) {
        let began = self.now;
        let mut degraded = false;
        let mut sleep = sleep_ns(platform, ns);
        loop {
            let event = match sleep.stage {
                SleepStage::Yield => SleepEvent::Resumed,
                SleepStage::Timer => {
                    let slept = match platform {
                        Platform::Linux => self.timerfd(ns),
                        Platform::Macos => self.kqueue(ns),
                        _ => self.waitable(ns),
                    };
                    if slept {
                        SleepEvent::TimerSlept
                    } else {
                        degraded = true;
                        SleepEvent::TimerFailed {
                            elapsed_ns: (self.now - began) as u128,
                        }
                    }
                }
                SleepStage::Wheel { nanos } => {
                    self.now += nanos as i64;
                    SleepEvent::Resumed
                }
                SleepStage::Finished => return (self.now - began, degraded),
            };
            sleep = sleep.step(event);
        }
    }
}

const PLATFORMS: [Platform; 4] = [
    Platform::Linux,
    Platform::Macos,
    Platform::Windows,
    Platform::Other,
];

const DURATIONS: [i64; 10] = [
    -5, 0, 1, 30, 99, 150, 50_000, 250_001, 5_000_000, 2_500_000_001,
];

#[test]
fn precise_timers_never_wake_early() {
    for platform in PLATFORMS {
        for ns in DURATIONS {
            let mut kernel = Kernel::new(0);
            let (elapsed, degraded) = kernel.sleep(platform, ns);
            let expected = usize::from(platform != Platform::Other && ns > 0);
            assert_eq!(kernel.opened.len(), expected);
            assert_eq!(kernel.opened, kernel.closed);
            assert!(elapsed >= ns, "{platform:?}: {elapsed} of {ns} ns");
            assert!(!degraded);
        }
    }
}

#[test]
fn failing_timers_never_wake_early() {
    for platform in PLATFORMS {
        for ns in DURATIONS {
            for failing_call in 1..16 {
                let mut kernel = Kernel::new(failing_call);
                let (elapsed, _) = kernel.sleep(platform, ns);
                assert_eq!(kernel.opened, kernel.closed);
                assert!(kernel.closed.len() <= 1);
                assert!(
                    elapsed >= ns,
                    "{platform:?}, call {failing_call}: {elapsed} of {ns} ns"
                );
            }
        }
    }
}

#[test]
fn setting_descriptor_flags_may_fail() {
    for failing_call in 2..=4 {
        let (_, degraded) = Kernel::new(failing_call).sleep(Platform::Macos, 50_000);
        assert!(!degraded);
    }
    for failing_call in [1, 5, 6, 7, 8] {
        let (_, degraded) = Kernel::new(failing_call).sleep(Platform::Macos, 50_000);
        assert!(degraded);
    }
}

#[test]
fn every_timerfd_call_may_fail() {
    for failing_call in 1..=5 {
        let (_, degraded) = Kernel::new(failing_call).sleep(Platform::Linux, 50_000);
        assert!(degraded);
    }
}
