//! Awaiting the expiry of a timer descriptor through an I/O reactor.

use vstd::prelude::*;

use crate::run::{Machine, Run};

verus! {

/// What draining a readable timer descriptor came to.
#[derive(Debug)]
pub enum Drain<E> {
    /// The expiration was consumed.
    Fired,
    /// Nothing was pending: the readiness was spurious.
    WouldBlock,
    Failed(E),
}

/// The call to make next on an armed timer descriptor.
#[derive(Clone, Copy, Debug, PartialEq, Eq, Structural)]
pub enum Readiness {
    /// Register the descriptor with the reactor.
    Register,
    /// Wait until the reactor reports the descriptor readable.
    AwaitReadable,
    /// Consume the expiration.
    Drain,
}

/// The answer to the call that a [`Readiness`] asks for.
#[derive(Debug)]
pub enum ReadinessEvent<E> {
    Registered(Result<(), E>),
    Readable(Result<(), E>),
    Drained(Drain<E>),
}

/// An armed timer descriptor on its way to expiry.
#[derive(Debug)]
pub enum Wait<E> {
    Pending(Readiness),
    /// The timer expired, or a call failed with this error.
    Ended(Result<(), E>),
}

impl<E> Machine for Wait<E> {
    type Event = ReadinessEvent<E>;

    /// Success moves on, an error ends the wait, and spurious readiness waits
    /// again. An event that does not answer the pending call changes nothing.
    open spec fn next(self, event: ReadinessEvent<E>) -> Self {
        match (self, event) {
            (Wait::Pending(Readiness::Register), ReadinessEvent::Registered(Ok(_))) =>
                Wait::Pending(Readiness::AwaitReadable),
            (Wait::Pending(Readiness::Register), ReadinessEvent::Registered(Err(e))) =>
                Wait::Ended(Err(e)),
            (Wait::Pending(Readiness::AwaitReadable), ReadinessEvent::Readable(Ok(_))) =>
                Wait::Pending(Readiness::Drain),
            (Wait::Pending(Readiness::AwaitReadable), ReadinessEvent::Readable(Err(e))) =>
                Wait::Ended(Err(e)),
            (Wait::Pending(Readiness::Drain), ReadinessEvent::Drained(Drain::Fired)) =>
                Wait::Ended(Ok(())),
            (Wait::Pending(Readiness::Drain), ReadinessEvent::Drained(Drain::WouldBlock)) =>
                Wait::Pending(Readiness::AwaitReadable),
            (Wait::Pending(Readiness::Drain), ReadinessEvent::Drained(Drain::Failed(e))) =>
                Wait::Ended(Err(e)),
            _ => self,
        }
    }
}

impl<E> Wait<E> {
    /// The descriptor is to be drained.
    pub open spec fn drains(self) -> bool {
        self matches Wait::Pending(readiness) && readiness is Drain
    }

    /// `event` says that the pending call failed, with this error.
    pub open spec fn refusal(self, event: ReadinessEvent<E>) -> Option<E> {
        match (self, event) {
            (Wait::Pending(Readiness::Register), ReadinessEvent::Registered(Err(e))) => Some(e),
            (Wait::Pending(Readiness::AwaitReadable), ReadinessEvent::Readable(Err(e))) => Some(e),
            (Wait::Pending(Readiness::Drain), ReadinessEvent::Drained(Drain::Failed(e))) => Some(e),
            _ => None,
        }
    }

    /// Takes the answer to the pending call and moves on.
    pub fn step(self, event: ReadinessEvent<E>) -> (next: Self)
        ensures
            next == self.next(event),
    {
        match self {
            Wait::Pending(Readiness::Register) => match event {
                ReadinessEvent::Registered(Ok(_)) => Wait::Pending(Readiness::AwaitReadable),
                ReadinessEvent::Registered(Err(e)) => Wait::Ended(Err(e)),
                _ => Wait::Pending(Readiness::Register),
            },
            Wait::Pending(Readiness::AwaitReadable) => match event {
                ReadinessEvent::Readable(Ok(_)) => Wait::Pending(Readiness::Drain),
                ReadinessEvent::Readable(Err(e)) => Wait::Ended(Err(e)),
                _ => Wait::Pending(Readiness::AwaitReadable),
            },
            Wait::Pending(Readiness::Drain) => match event {
                ReadinessEvent::Drained(Drain::Fired) => Wait::Ended(Ok(())),
                ReadinessEvent::Drained(Drain::WouldBlock) => Wait::Pending(
                    Readiness::AwaitReadable,
                ),
                ReadinessEvent::Drained(Drain::Failed(e)) => Wait::Ended(Err(e)),
                _ => Wait::Pending(Readiness::Drain),
            },
            Wait::Ended(result) => Wait::Ended(result),
        }
    }
}

/// A pending wait ends well exactly by consuming an expiration.
pub proof fn only_firing_ends_the_wait<E>(readiness: Readiness, event: ReadinessEvent<E>)
    ensures
        Wait::Pending(readiness).next(event) == Wait::<E>::Ended(Ok(())) <==> readiness is Drain
            && event == ReadinessEvent::<E>::Drained(Drain::Fired),
{
}

/// A pending wait fails exactly when a call fails, with that call's error, and
/// a wait that has ended stays so.
pub proof fn wait_fails_with_the_first_refusal<E>(wait: Wait<E>, event: ReadinessEvent<E>)
    ensures
        wait is Pending ==> match wait.refusal(event) {
            Some(e) => wait.next(event) == Wait::<E>::Ended(Err(e)),
            None => wait.next(event) is Pending || wait.next(event) == Wait::<E>::Ended(Ok(())),
        },
        wait is Ended ==> wait.next(event) == wait,
{
}

/// Among the first `n` events of the run every wait succeeded and every drain
/// found nothing.
pub open spec fn only_spurious<E>(run: Run<Wait<E>>, n: int) -> bool {
    forall|i: int|
        0 <= i < n ==> match (run.states[i], #[trigger] run.events[i]) {
            (
                Wait::Pending(Readiness::AwaitReadable),
                ReadinessEvent::Readable(answer),
            ) => answer is Ok,
            (Wait::Pending(Readiness::Drain), ReadinessEvent::Drained(drain)) => drain
                is WouldBlock,
            _ => true,
        }
}

/// Spurious readiness goes back to waiting, any number of times: as long as
/// every drain finds nothing, the wait is back at its start after each, and the
/// first drain that does not is the last.
pub proof fn spurious_readiness_waits_again<E>(run: Run<Wait<E>>, n: int)
    requires
        run.follows(Wait::<E>::Pending(Readiness::AwaitReadable)),
        0 <= n < run.events.len(),
        only_spurious(run, n),
    ensures
        run.states[n] == Wait::<E>::Pending(Readiness::AwaitReadable) || run.states[n].drains(),
        run.states[n].drains() ==> match run.events[n] {
            ReadinessEvent::Drained(Drain::WouldBlock) => run.states[n + 1] == Wait::<E>::Pending(
                Readiness::AwaitReadable,
            ),
            ReadinessEvent::Drained(Drain::Fired) => forall|m: int|
                n < m < run.states.len() ==> #[trigger] run.states[m] == Wait::<E>::Ended(Ok(())),
            ReadinessEvent::Drained(Drain::Failed(e)) => forall|m: int|
                n < m < run.states.len() ==> #[trigger] run.states[m] == Wait::<E>::Ended(Err(e)),
            _ => run.states[n + 1].drains(),
        },
{
    lemma_still_waiting(run, n);
    assert(run.states[n + 1] == run.states[n].next(run.events[n]));
    if run.states[n + 1] is Ended {
        assert forall|m: int| n < m < run.states.len() implies #[trigger] run.states[m]
            == run.states[n + 1] by {
            lemma_end_is_final(run, n + 1, m);
        }
    }
}

proof fn lemma_still_waiting<E>(run: Run<Wait<E>>, n: int)
    requires
        run.follows(Wait::<E>::Pending(Readiness::AwaitReadable)),
        0 <= n < run.states.len(),
        only_spurious(run, n),
    ensures
        run.states[n] == Wait::<E>::Pending(Readiness::AwaitReadable) || run.states[n].drains(),
    decreases n,
{
    if n > 0 {
        lemma_still_waiting(run, n - 1);
        assert(run.states[n] == run.states[n - 1].next(run.events[n - 1]));
    }
}

proof fn lemma_end_is_final<E>(run: Run<Wait<E>>, n: int, m: int)
    requires
        run.follows(Wait::<E>::Pending(Readiness::AwaitReadable)),
        0 <= n <= m < run.states.len(),
        run.states[n] is Ended,
    ensures
        run.states[m] == run.states[n],
    decreases m,
{
    if n < m {
        lemma_end_is_final(run, n, m - 1);
        assert(run.states[m] == run.states[m - 1].next(run.events[m - 1]));
    }
}

/// Each call that succeeds leads to the next: a registered descriptor is
/// awaited, a readable one is drained, and an expiration that was consumed is
/// the end.
pub proof fn success_leads_on<E>()
    ensures
        Wait::<E>::Pending(Readiness::Register).next(ReadinessEvent::Registered(Ok(())))
            == Wait::<E>::Pending(Readiness::AwaitReadable),
        Wait::<E>::Pending(Readiness::AwaitReadable).next(ReadinessEvent::Readable(Ok(())))
            == Wait::<E>::Pending(Readiness::Drain),
        Wait::<E>::Pending(Readiness::Drain).next(ReadinessEvent::Drained(Drain::Fired))
            == Wait::<E>::Ended(Ok(())),
        Wait::<E>::Pending(Readiness::Drain).next(ReadinessEvent::Drained(Drain::WouldBlock))
            == Wait::<E>::Pending(Readiness::AwaitReadable),
{
}

/// Whichever call fails, the wait ends with its error.
pub proof fn failure_ends_the_wait<E>(e: E)
    ensures
        Wait::<E>::Pending(Readiness::Register).next(ReadinessEvent::Registered(Err(e)))
            == Wait::<E>::Ended(Err(e)),
        Wait::<E>::Pending(Readiness::AwaitReadable).next(ReadinessEvent::Readable(Err(e)))
            == Wait::<E>::Ended(Err(e)),
        Wait::<E>::Pending(Readiness::Drain).next(ReadinessEvent::Drained(Drain::Failed(e)))
            == Wait::<E>::Ended(Err(e)),
{
}

/// An answer to another call than the pending one leaves the wait as it is, and
/// so does any answer once the wait has ended.
pub proof fn stray_answers_leave_the_wait<E>(wait: Wait<E>, event: ReadinessEvent<E>)
    requires
        wait == Wait::<E>::Pending(Readiness::Register) ==> event !is Registered,
        wait == Wait::<E>::Pending(Readiness::AwaitReadable) ==> event !is Readable,
        wait == Wait::<E>::Pending(Readiness::Drain) ==> event !is Drained,
    ensures
        wait.next(event) == wait,
{
}

} // verus!
