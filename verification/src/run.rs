//! Timed histories of state machines.

use vstd::prelude::*;

verus! {

/// A deterministic state machine: an event takes a state to the next one.
pub trait Machine: Sized {
    type Event;

    spec fn next(self, event: Self::Event) -> Self;
}

/// A machine that opens at most one system resource, a descriptor or a handle,
/// and has to close it.
pub trait Owner: Machine {
    /// The machine has not opened a resource yet.
    spec fn is_fresh(self) -> bool;

    /// The resource that is open in this state.
    spec fn holds(self) -> Option<int>;

    /// `event` hands the machine this resource, newly opened.
    spec fn opens(self, event: Self::Event) -> Option<int>;

    /// `event` says that this resource was closed.
    spec fn closes(self, event: Self::Event) -> Option<int>;

    /// Only a fresh machine opens a resource, only the one that is held is
    /// closed, and nothing else changes what is held.
    proof fn owns_at_most_one(self, event: Self::Event)
        ensures
            self.is_fresh() ==> self.holds() is None,
            self.opens(event) is Some ==> self.is_fresh() && !self.next(event).is_fresh(),
            !self.is_fresh() ==> !self.next(event).is_fresh(),
            self.closes(event) is Some ==> self.closes(event) == self.holds(),
            self.next(event).holds() == if self.opens(event) is Some {
                self.opens(event)
            } else if self.closes(event) is Some {
                None
            } else {
                self.holds()
            },
    ;
}

/// A history of a machine. `events[i]` takes it from `states[i]` to
/// `states[i + 1]`, and `times[i]` is the instant, in nanoseconds, at which
/// `states[i]` was entered.
pub struct Run<M: Machine> {
    pub states: Seq<M>,
    pub events: Seq<M::Event>,
    pub times: Seq<int>,
}

impl<M: Machine> Run<M> {
    /// The history begins in `first`, follows the machine, and time does not
    /// run backwards in it.
    pub open spec fn follows(self, first: M) -> bool {
        &&& self.states.len() == self.events.len() + 1
        &&& self.times.len() == self.states.len()
        &&& self.states[0] == first
        &&& forall|i: int|
            0 <= i < self.events.len() ==> self.states[i + 1] == self.states[i].next(
                #[trigger] self.events[i],
            )
        &&& forall|i: int, j: int|
            0 <= i <= j < self.times.len() ==> self.times[i] <= self.times[j]
    }

    pub open spec fn began(self) -> int {
        self.times[0]
    }

    pub open spec fn ended(self) -> int {
        self.times.last()
    }

    pub open spec fn final_state(self) -> M {
        self.states.last()
    }
}

impl<M: Owner> Run<M> {
    /// How many of the first `n` events opened a resource.
    pub open spec fn opened(self, n: int) -> int
        decreases n,
    {
        if n <= 0 {
            0
        } else {
            self.opened(n - 1) + if self.states[n - 1].opens(self.events[n - 1]) is Some {
                1int
            } else {
                0int
            }
        }
    }

    /// How many of the first `n` events closed one.
    pub open spec fn closed(self, n: int) -> int
        decreases n,
    {
        if n <= 0 {
            0
        } else {
            self.closed(n - 1) + if self.states[n - 1].closes(self.events[n - 1]) is Some {
                1int
            } else {
                0int
            }
        }
    }

    /// At most one resource is opened, it is closed exactly once, and nothing
    /// else is closed.
    pub open spec fn closes_what_it_opens(self) -> bool {
        let n = self.events.len() as int;
        &&& self.opened(n) <= 1
        &&& self.closed(n) == self.opened(n)
        &&& forall|i: int, k: int|
            #![trigger self.events[i], self.events[k]]
            0 <= i < n && 0 <= k < n && self.states[i].opens(self.events[i]) is Some
                && self.states[k].closes(self.events[k]) is Some ==> i < k
                && self.states[i].opens(self.events[i]) == self.states[k].closes(self.events[k])
    }
}

/// A machine that ends holding nothing has closed what it opened, exactly once.
pub proof fn owner_closes_what_it_opens<M: Owner>(run: Run<M>, first: M)
    requires
        run.follows(first),
        first.is_fresh(),
        run.final_state().holds() is None,
    ensures
        run.closes_what_it_opens(),
{
    let n = run.events.len() as int;
    lemma_held(run, first, n);
    assert forall|i: int, k: int|
        #![trigger run.events[i], run.events[k]]
        0 <= i < n && 0 <= k < n && run.states[i].opens(run.events[i]) is Some
            && run.states[k].closes(run.events[k]) is Some implies i < k && run.states[i].opens(
        run.events[i],
    ) == run.states[k].closes(run.events[k]) by {
        lemma_held(run, first, k);
        run.states[i].owns_at_most_one(run.events[i]);
        run.states[k].owns_at_most_one(run.events[k]);
        if k <= i {
            lemma_stays_used(run, first, k, i);
        }
    }
}

/// A resource is held exactly while it has been opened and not been closed, and
/// it is the one that was opened.
proof fn lemma_held<M: Owner>(run: Run<M>, first: M, n: int)
    requires
        run.follows(first),
        first.is_fresh(),
        0 <= n < run.states.len(),
    ensures
        run.opened(n) - run.closed(n) == if run.states[n].holds() is Some {
            1int
        } else {
            0int
        },
        run.opened(n) <= 1,
        run.states[n].is_fresh() ==> run.opened(n) == 0,
        forall|i: int|
            0 <= i < n && run.states[i].opens(#[trigger] run.events[i]) is Some
                && run.states[n].holds() is Some ==> run.states[n].holds() == run.states[i].opens(
                run.events[i],
            ),
    decreases n,
{
    if n == 0 {
        first.owns_at_most_one(vstd::pervasive::arbitrary());
    } else {
        lemma_held(run, first, n - 1);
        let state = run.states[n - 1];
        let event = run.events[n - 1];
        assert(run.states[n] == state.next(event));
        state.owns_at_most_one(event);
        if state.is_fresh() {
            assert forall|i: int| 0 <= i < n - 1 implies run.states[i].opens(
                #[trigger] run.events[i],
            ) is None by {
                run.states[i].owns_at_most_one(run.events[i]);
                if run.states[i].opens(run.events[i]) is Some {
                    lemma_stays_used(run, first, i + 1, n - 1);
                }
            }
        }
    }
}

/// A machine that has opened its resource is not fresh again.
proof fn lemma_stays_used<M: Owner>(run: Run<M>, first: M, i: int, n: int)
    requires
        run.follows(first),
        0 <= i <= n < run.states.len(),
        !run.states[i].is_fresh(),
    ensures
        !run.states[n].is_fresh(),
    decreases n,
{
    if i < n {
        lemma_stays_used(run, first, i, n - 1);
        run.states[n - 1].owns_at_most_one(run.events[n - 1]);
        assert(run.states[n] == run.states[n - 1].next(run.events[n - 1]));
    }
}

} // verus!
