//! The supported platforms and the names of their timer backends.

use vstd::prelude::*;

verus! {

/// An operating system, as far as timers are concerned.
#[derive(Clone, Copy, Debug, PartialEq, Eq, Structural)]
pub enum Platform {
    Linux,
    Macos,
    Windows,
    /// Any system without a precise timer backend.
    Other,
}

impl Platform {
    /// The name of this platform's timer backend.
    pub open spec fn backend(self) -> Seq<char> {
        match self {
            Platform::Linux => "linux-timerfd"@,
            Platform::Macos => "macos-kqueue-evfilt_timer"@,
            Platform::Windows => "windows-waitable-timer-highres"@,
            Platform::Other => "tokio-time-fallback"@,
        }
    }
}

/// Human-readable name of the timer backend used on `platform`.
pub fn backend_name(platform: Platform) -> (name: &'static str)
    ensures
        name@ == platform.backend(),
{
    match platform {
        Platform::Linux => "linux-timerfd",
        Platform::Macos => "macos-kqueue-evfilt_timer",
        Platform::Windows => "windows-waitable-timer-highres",
        Platform::Other => "tokio-time-fallback",
    }
}

/// A backend name identifies its platform.
pub proof fn backend_identifies_platform(p: Platform, q: Platform)
    ensures
        p.backend() == q.backend() <==> p == q,
{
    reveal_strlit("linux-timerfd");
    reveal_strlit("macos-kqueue-evfilt_timer");
    reveal_strlit("windows-waitable-timer-highres");
    reveal_strlit("tokio-time-fallback");
    assert(Platform::Linux.backend().len() == 13);
    assert(Platform::Macos.backend().len() == 25);
    assert(Platform::Windows.backend().len() == 30);
    assert(Platform::Other.backend().len() == 19);
}

/// Each backend is named after its system and the timer that it uses, the
/// fallback after the runtime's own timer.
pub proof fn backend_is_named_after_its_timer()
    ensures
        Platform::Linux.backend() == "linux"@ + "-timerfd"@,
        Platform::Macos.backend() == "macos"@ + "-kqueue-evfilt_timer"@,
        Platform::Windows.backend() == "windows"@ + "-waitable-timer-highres"@,
        Platform::Other.backend() == "tokio"@ + "-time-fallback"@,
{
    reveal_strlit("linux-timerfd");
    reveal_strlit("linux");
    reveal_strlit("-timerfd");
    reveal_strlit("macos-kqueue-evfilt_timer");
    reveal_strlit("macos");
    reveal_strlit("-kqueue-evfilt_timer");
    reveal_strlit("windows-waitable-timer-highres");
    reveal_strlit("windows");
    reveal_strlit("-waitable-timer-highres");
    reveal_strlit("tokio-time-fallback");
    reveal_strlit("tokio");
    reveal_strlit("-time-fallback");
}

} // verus!
