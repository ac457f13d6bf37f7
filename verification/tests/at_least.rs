//! A sleep never returns early. Coalescing and jitter may delay a wake but must
//! never shorten it.

use std::time::{Duration, Instant};

use timer_lab::{backend_name, sleep_ns, Platform, Sleep, SleepEvent, SleepStage};

const PLATFORMS: [Platform; 4] = [
    Platform::Linux,
    Platform::Macos,
    Platform::Windows,
    Platform::Other,
];

/// Drives a sleep on the real runtime, on a machine whose precise timer always
/// fails, after having taken `timer_takes`.
async fn drive(mut sleep: Sleep, timer_takes: Duration) {
    let started = Instant::now();
    loop {
        let event = match sleep.stage {
            SleepStage::Yield => {
                tokio::task::yield_now().await;
                SleepEvent::Resumed
            }
            SleepStage::Timer => {
                while started.elapsed() < timer_takes {}
                SleepEvent::TimerFailed {
                    elapsed_ns: started.elapsed().as_nanos(),
                }
            }
            SleepStage::Wheel { nanos } => {
                tokio::time::sleep(Duration::from_nanos(nanos)).await;
                SleepEvent::Resumed
            }
            SleepStage::Finished => return,
        };
        sleep = sleep.step(event);
    }
}

fn runtime() -> tokio::runtime::Runtime {
    tokio::runtime::Builder::new_current_thread()
        .enable_time()
        .build()
        .unwrap()
}

#[test]
fn sleeps_at_least_requested() {
    runtime().block_on(async {
        for platform in PLATFORMS {
            for &ns in &[50_000i64, 250_000, 1_000_000, 5_000_000] {
                let start = Instant::now();
                drive(sleep_ns(platform, ns), Duration::ZERO).await;
                let elapsed = start.elapsed().as_nanos() as i64;
                assert!(
                    elapsed >= ns,
                    "backend {}: requested {ns} ns but slept only {elapsed} ns",
                    backend_name(platform)
                );
            }
        }
    });
}

#[test]
fn sleeps_at_least_requested_when_the_timer_fails_late() {
    runtime().block_on(async {
        for platform in PLATFORMS {
            for &ns in &[50_000i64, 250_000, 1_000_000, 5_000_000] {
                let start = Instant::now();
                drive(sleep_ns(platform, ns), Duration::from_nanos(400_000)).await;
                let elapsed = start.elapsed().as_nanos() as i64;
                assert!(
                    elapsed >= ns,
                    "backend {}: requested {ns} ns but slept only {elapsed} ns",
                    backend_name(platform)
                );
            }
        }
    });
}

#[test]
fn zero_and_negative_return_fast() {
    runtime().block_on(async {
        for platform in PLATFORMS {
            let start = Instant::now();
            drive(sleep_ns(platform, 0), Duration::ZERO).await;
            drive(sleep_ns(platform, -1), Duration::ZERO).await;
            assert!(
                start.elapsed().as_millis() < 50,
                "non-positive durations must resolve promptly"
            );
        }
    });
}
