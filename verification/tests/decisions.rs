//! The decisions of a sleep, one by one.

use timer_lab::{backend_name, sleep_ns, Platform, Sleep, SleepEvent, SleepStage};

#[test]
fn backend_names() {
    assert_eq!(backend_name(Platform::Linux), "linux-timerfd");
    assert_eq!(backend_name(Platform::Macos), "macos-kqueue-evfilt_timer");
    assert_eq!(
        backend_name(Platform::Windows),
        "windows-waitable-timer-highres"
    );
    assert_eq!(backend_name(Platform::Other), "tokio-time-fallback");
}

#[test]
fn non_positive_durations_yield_once() {
    for platform in [
        Platform::Linux,
        Platform::Macos,
        Platform::Windows,
        Platform::Other,
    ] {
        for ns in [0i64, -1, i64::MIN] {
            let sleep = sleep_ns(platform, ns);
            assert_eq!(sleep.stage, SleepStage::Yield);
            let done = sleep.step(SleepEvent::Resumed);
            assert_eq!(done.stage, SleepStage::Finished);
            assert_eq!(done.step(SleepEvent::Resumed), done);
        }
    }
}

#[test]
fn precise_timer_comes_first() {
    for platform in [Platform::Linux, Platform::Macos, Platform::Windows] {
        for ns in [1i64, 50_000, i64::MAX] {
            let sleep = sleep_ns(platform, ns);
            assert_eq!(sleep.stage, SleepStage::Timer);
            assert_eq!(
                sleep.step(SleepEvent::TimerSlept).stage,
                SleepStage::Finished
            );
        }
    }
}

#[test]
fn other_platforms_sleep_on_the_wheel() {
    let sleep = sleep_ns(Platform::Other, 50_000);
    assert_eq!(sleep.stage, SleepStage::Wheel { nanos: 50_000 });
    assert_eq!(sleep.step(SleepEvent::Resumed).stage, SleepStage::Finished);
    assert_eq!(
        sleep_ns(Platform::Other, i64::MAX).stage,
        SleepStage::Wheel {
            nanos: i64::MAX as u64
        }
    );
}

fn after_failure(platform: Platform, duration_ns: i64, elapsed_ns: u128) -> SleepStage {
    sleep_ns(platform, duration_ns)
        .step(SleepEvent::TimerFailed { elapsed_ns })
        .stage
}

#[test]
fn failed_timer_degrades_to_what_remains() {
    for platform in [Platform::Linux, Platform::Macos] {
        assert_eq!(
            after_failure(platform, 1_000, 0),
            SleepStage::Wheel { nanos: 1_000 }
        );
        assert_eq!(
            after_failure(platform, 1_000, 999),
            SleepStage::Wheel { nanos: 1 }
        );
        assert_eq!(after_failure(platform, 1_000, 1_000), SleepStage::Yield);
        assert_eq!(after_failure(platform, 1_000, u128::MAX), SleepStage::Yield);
        assert_eq!(
            after_failure(platform, i64::MAX, 1),
            SleepStage::Wheel {
                nanos: i64::MAX as u64 - 1
            }
        );
    }
}

#[test]
fn failed_waitable_timer_degrades_to_what_remains() {
    let expected = [
        (0u128, SleepStage::Wheel { nanos: 1_000 }),
        (999, SleepStage::Wheel { nanos: 1 }),
        (1_000, SleepStage::Yield),
        (u128::MAX, SleepStage::Yield),
    ];
    for (elapsed, stage) in expected {
        assert_eq!(after_failure(Platform::Windows, 1_000, elapsed), stage);
    }
}

#[test]
fn degraded_sleeps_end_when_resumed() {
    for elapsed_ns in [0u128, 1_000] {
        let degraded =
            sleep_ns(Platform::Linux, 1_000).step(SleepEvent::TimerFailed { elapsed_ns });
        assert_eq!(
            degraded.step(SleepEvent::Resumed).stage,
            SleepStage::Finished
        );
    }
}

#[test]
fn stray_events_change_nothing() {
    let timer = sleep_ns(Platform::Linux, 1_000);
    assert_eq!(timer.step(SleepEvent::Resumed), timer);
    let wheel = sleep_ns(Platform::Other, 1_000);
    assert_eq!(wheel.step(SleepEvent::TimerSlept), wheel);
    assert_eq!(wheel.step(SleepEvent::TimerFailed { elapsed_ns: 7 }), wheel);
    let done = Sleep {
        stage: SleepStage::Finished,
        ..timer
    };
    assert_eq!(done.step(SleepEvent::TimerSlept), done);
}
