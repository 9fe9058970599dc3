//! The dispatch engine: walks a registry from highest to lowest priority,
//! builds a reception context per step, invokes the handler, and halts early
//! once the cancellation state reports cancelled.
//!
//! Three request shapes share the one algorithm: dispatch by value, by
//! immutable reference (the kind must be `Immutable`) and by mutable
//! reference (the kind must be `Mutable`).  Each returns the dispatch's
//! cancellation value, paired with a ghost [`DispatchTrace`] that records,
//! for every invoked handler, what its reception context showed.

use vstd::prelude::*;

use crate::event::{Cancellation, Event, EventView, Immutable, Mutability, Mutable};
use crate::input::Receive;
use crate::registry::HandlerRegistry;
use crate::system::HandlerSystem;

verus! {

/// What a dispatch did, for specification purposes.  `entries` and
/// `audiences` have one entry per invoked handler, in invocation order:
/// handlers `0 .. len` of the registry's dispatch order ran, and the rest
/// were never invoked.  `states` threads the event through the chain: its
/// first element is the event the dispatch started from, `states[t]` is the
/// event value handler `t` observed at entry, and `states[t + 1]` the value
/// it left behind, so the last element is the event as the dispatch ended.
pub struct DispatchTrace<E: Event> {
    /// The cancellation state each invoked handler observed at entry.
    pub entries: Seq<E::Cancellation>,
    /// The audience each invoked handler's reception context reported.
    pub audiences: Seq<E::Audience>,
    /// The event values between invocations, one more than the handlers
    /// invoked.
    pub states: Seq<E>,
}

impl<E: Event> DispatchTrace<E> {
    /// The number of handlers the dispatch invoked.
    pub open spec fn invoked(self) -> int {
        self.entries.len() as int
    }
}

impl<H> HandlerRegistry<H> {
    /// Posts an [`Event`] to this registry's handlers, with no audience.
    ///
    /// See [`HandlerRegistry::post_to`] for the algorithm and the contract.
    pub fn post<E: Event<Audience = ()>, S>(&mut self, event: E, state: &mut S) -> (r: (
        E::Cancellation,
        Ghost<DispatchTrace<E>>,
    )) where H: HandlerSystem<E, S>
        requires
            old(self).wf(),
        ensures
            final(self).wf(),
            final(self)@.len() == old(self)@.len(),
            final(self).prios() == old(self).prios(),
            r.1@.invoked() <= old(self)@.len(),
            r.1@.audiences.len() == r.1@.invoked(),
            forall|t: int|
                0 <= t < r.1@.invoked() ==> !(#[trigger] r.1@.entries[t]).spec_cancelled(),
            forall|t: int|
                r.1@.invoked() <= t < old(self)@.len() ==> final(self)@[t] == old(self)@[t],
            !r.0.spec_cancelled() ==> r.1@.invoked() == old(self)@.len(),
            r.1@.invoked() < old(self)@.len() ==> r.0.spec_cancelled(),
            r.1@.invoked() == 0 ==> !r.0.spec_cancelled(),
            r.1@.states.len() == r.1@.invoked() + 1,
            r.1@.states[0] == event,
    {
        self.post_to(event, (), state)
    }

    /// Posts an [`Event`] to this registry's handlers with a specific
    /// [`Audience`](Event::Audience).
    ///
    /// If no handler is registered this returns the default, not-cancelled
    /// cancellation value at once: that is not an error, it models "no one
    /// is listening."  Otherwise handlers run one at a time, highest
    /// priority first and in registration order within one priority, each
    /// against a fresh reception context sharing the live event, the live
    /// cancellation state and the audience; the walk stops early exactly
    /// when a handler leaves the cancellation state cancelled.
    ///
    /// The contract pins, besides the cancellation result, the ghost trace:
    /// how many handlers ran, that each of them observed a not-cancelled
    /// state at entry, that each reception context reported exactly the
    /// caller's audience, that the handlers past the stopping point were
    /// left untouched, and the chain of event values between invocations —
    /// for the by-reference variants, down to the value the caller is left
    /// holding.
    pub fn post_to<E: Event, S>(&mut self, event: E, audience: E::Audience, state: &mut S) -> (r:
        (E::Cancellation, Ghost<DispatchTrace<E>>)) where H: HandlerSystem<E, S>
        requires
            old(self).wf(),
        ensures
            final(self).wf(),
            final(self)@.len() == old(self)@.len(),
            final(self).prios() == old(self).prios(),
            r.1@.invoked() <= old(self)@.len(),
            r.1@.audiences.len() == r.1@.invoked(),
            forall|t: int|
                0 <= t < r.1@.invoked() ==> !(#[trigger] r.1@.entries[t]).spec_cancelled(),
            forall|t: int| 0 <= t < r.1@.invoked() ==> (#[trigger] r.1@.audiences[t]) == audience,
            forall|t: int|
                r.1@.invoked() <= t < old(self)@.len() ==> final(self)@[t] == old(self)@[t],
            !r.0.spec_cancelled() ==> r.1@.invoked() == old(self)@.len(),
            r.1@.invoked() < old(self)@.len() ==> r.0.spec_cancelled(),
            r.1@.invoked() == 0 ==> !r.0.spec_cancelled(),
            r.1@.states.len() == r.1@.invoked() + 1,
            r.1@.states[0] == event,
    {
        let mut live = event;
        let ghost e0: E = live;
        let mut cancellation = <E::Cancellation as Cancellation>::fresh();
        let ghost mut trace: DispatchTrace<E> = DispatchTrace {
            entries: Seq::empty(),
            audiences: Seq::empty(),
            states: seq![live],
        };
        let n = self.handlers().len();
        let mut i: usize = 0;
        while i < n
            invariant
                i <= n,
                n == self@.len(),
                n == old(self)@.len(),
                self.wf(),
                self.prios() == old(self).prios(),
                forall|t: int| i <= t < n ==> self@[t] == old(self)@[t],
                trace.entries.len() == i,
                trace.audiences.len() == i,
                forall|t: int| 0 <= t < i ==> !(#[trigger] trace.entries[t]).spec_cancelled(),
                forall|t: int| 0 <= t < i ==> (#[trigger] trace.audiences[t]) == audience,
                !cancellation.spec_cancelled(),
                trace.states.len() == i + 1,
                e0 == event,
                trace.states[0] == e0,
                trace.states.last() == live,
            decreases n - i,
        {
            proof {
                trace.entries = trace.entries.push(cancellation);
            }
            let handler = self.handler_mut(i);
            let input = Receive::new(
                <E::Mutability as Mutability>::to_ref(&mut live),
                &mut cancellation,
                &audience,
            );
            proof {
                trace.audiences = trace.audiences.push(input.spec_audience());
            }
            handler.run(input, state);
            proof {
                trace.states = trace.states.push(live);
            }
            if cancellation.cancelled() {
                return (cancellation, Ghost(trace));
            }
            i += 1;
        }
        (cancellation, Ghost(trace))
    }

    /// Posts an immutable reference to an [`Event`] to this registry's
    /// handlers, with no audience.
    ///
    /// See [`HandlerRegistry::post_to`] for the algorithm and the contract.
    pub fn post_ref<E: Event<Audience = (), Mutability = Immutable>, S>(
        &mut self,
        event: &E,
        state: &mut S,
    ) -> (r: (E::Cancellation, Ghost<DispatchTrace<E>>)) where H: HandlerSystem<E, S>
        requires
            old(self).wf(),
        ensures
            final(self).wf(),
            final(self)@.len() == old(self)@.len(),
            final(self).prios() == old(self).prios(),
            r.1@.invoked() <= old(self)@.len(),
            r.1@.audiences.len() == r.1@.invoked(),
            forall|t: int|
                0 <= t < r.1@.invoked() ==> !(#[trigger] r.1@.entries[t]).spec_cancelled(),
            forall|t: int|
                r.1@.invoked() <= t < old(self)@.len() ==> final(self)@[t] == old(self)@[t],
            !r.0.spec_cancelled() ==> r.1@.invoked() == old(self)@.len(),
            r.1@.invoked() < old(self)@.len() ==> r.0.spec_cancelled(),
            r.1@.invoked() == 0 ==> !r.0.spec_cancelled(),
            r.1@.states.len() == r.1@.invoked() + 1,
            forall|t: int| 0 <= t < r.1@.states.len() ==> (#[trigger] r.1@.states[t]) == *event,
    {
        self.post_ref_to(event, (), state)
    }

    /// Posts an immutable reference to an [`Event`] to this registry's
    /// handlers with a specific [`Audience`](Event::Audience).  The kind
    /// must be [`Immutable`]; the caller retains ownership and its value is
    /// never written.
    ///
    /// See [`HandlerRegistry::post_to`] for the algorithm and the contract.
    pub fn post_ref_to<E: Event<Mutability = Immutable>, S>(
        &mut self,
        event: &E,
        audience: E::Audience,
        state: &mut S,
    ) -> (r: (E::Cancellation, Ghost<DispatchTrace<E>>)) where H: HandlerSystem<E, S>
        requires
            old(self).wf(),
        ensures
            final(self).wf(),
            final(self)@.len() == old(self)@.len(),
            final(self).prios() == old(self).prios(),
            r.1@.invoked() <= old(self)@.len(),
            r.1@.audiences.len() == r.1@.invoked(),
            forall|t: int|
                0 <= t < r.1@.invoked() ==> !(#[trigger] r.1@.entries[t]).spec_cancelled(),
            forall|t: int| 0 <= t < r.1@.invoked() ==> (#[trigger] r.1@.audiences[t]) == audience,
            forall|t: int|
                r.1@.invoked() <= t < old(self)@.len() ==> final(self)@[t] == old(self)@[t],
            !r.0.spec_cancelled() ==> r.1@.invoked() == old(self)@.len(),
            r.1@.invoked() < old(self)@.len() ==> r.0.spec_cancelled(),
            r.1@.invoked() == 0 ==> !r.0.spec_cancelled(),
            r.1@.states.len() == r.1@.invoked() + 1,
            forall|t: int| 0 <= t < r.1@.states.len() ==> (#[trigger] r.1@.states[t]) == *event,
    {
        let mut cancellation = <E::Cancellation as Cancellation>::fresh();
        let ghost mut trace: DispatchTrace<E> = DispatchTrace {
            entries: Seq::empty(),
            audiences: Seq::empty(),
            states: seq![*event],
        };
        let n = self.handlers().len();
        let mut i: usize = 0;
        while i < n
            invariant
                i <= n,
                n == self@.len(),
                n == old(self)@.len(),
                self.wf(),
                self.prios() == old(self).prios(),
                forall|t: int| i <= t < n ==> self@[t] == old(self)@[t],
                trace.entries.len() == i,
                trace.audiences.len() == i,
                forall|t: int| 0 <= t < i ==> !(#[trigger] trace.entries[t]).spec_cancelled(),
                forall|t: int| 0 <= t < i ==> (#[trigger] trace.audiences[t]) == audience,
                !cancellation.spec_cancelled(),
                trace.states.len() == i + 1,
                forall|t: int| 0 <= t < trace.states.len() ==> (#[trigger] trace.states[t]) == *event,
            decreases n - i,
        {
            proof {
                trace.entries = trace.entries.push(cancellation);
            }
            let handler = self.handler_mut(i);
            let input = Receive::new(EventView::Shared(event), &mut cancellation, &audience);
            proof {
                trace.audiences = trace.audiences.push(input.spec_audience());
            }
            handler.run(input, state);
            proof {
                trace.states = trace.states.push(*event);
            }
            if cancellation.cancelled() {
                return (cancellation, Ghost(trace));
            }
            i += 1;
        }
        (cancellation, Ghost(trace))
    }

    /// Posts a mutable reference to an [`Event`] to this registry's
    /// handlers, with no audience.
    ///
    /// See [`HandlerRegistry::post_to`] for the algorithm and the contract.
    pub fn post_mut<E: Event<Audience = (), Mutability = Mutable>, S>(
        &mut self,
        event: &mut E,
        state: &mut S,
    ) -> (r: (E::Cancellation, Ghost<DispatchTrace<E>>)) where H: HandlerSystem<E, S>
        requires
            old(self).wf(),
        ensures
            final(self).wf(),
            final(self)@.len() == old(self)@.len(),
            final(self).prios() == old(self).prios(),
            r.1@.invoked() <= old(self)@.len(),
            r.1@.audiences.len() == r.1@.invoked(),
            forall|t: int|
                0 <= t < r.1@.invoked() ==> !(#[trigger] r.1@.entries[t]).spec_cancelled(),
            forall|t: int|
                r.1@.invoked() <= t < old(self)@.len() ==> final(self)@[t] == old(self)@[t],
            !r.0.spec_cancelled() ==> r.1@.invoked() == old(self)@.len(),
            r.1@.invoked() < old(self)@.len() ==> r.0.spec_cancelled(),
            r.1@.invoked() == 0 ==> !r.0.spec_cancelled(),
            old(self)@.len() == 0 ==> *final(event) == *old(event),
            r.1@.states.len() == r.1@.invoked() + 1,
            r.1@.states[0] == *old(event),
            *final(event) == r.1@.states[r.1@.invoked()],
    {
        self.post_mut_to(event, (), state)
    }

    /// Posts a mutable reference to an [`Event`] to this registry's
    /// handlers with a specific [`Audience`](Event::Audience).  The kind
    /// must be [`Mutable`]; the caller retains ownership and observes the
    /// handlers' in-place edits after dispatch.
    ///
    /// See [`HandlerRegistry::post_to`] for the algorithm and the contract.
    pub fn post_mut_to<E: Event<Mutability = Mutable>, S>(
        &mut self,
        event: &mut E,
        audience: E::Audience,
        state: &mut S,
    ) -> (r: (E::Cancellation, Ghost<DispatchTrace<E>>)) where H: HandlerSystem<E, S>
        requires
            old(self).wf(),
        ensures
            final(self).wf(),
            final(self)@.len() == old(self)@.len(),
            final(self).prios() == old(self).prios(),
            r.1@.invoked() <= old(self)@.len(),
            r.1@.audiences.len() == r.1@.invoked(),
            forall|t: int|
                0 <= t < r.1@.invoked() ==> !(#[trigger] r.1@.entries[t]).spec_cancelled(),
            forall|t: int| 0 <= t < r.1@.invoked() ==> (#[trigger] r.1@.audiences[t]) == audience,
            forall|t: int|
                r.1@.invoked() <= t < old(self)@.len() ==> final(self)@[t] == old(self)@[t],
            !r.0.spec_cancelled() ==> r.1@.invoked() == old(self)@.len(),
            r.1@.invoked() < old(self)@.len() ==> r.0.spec_cancelled(),
            r.1@.invoked() == 0 ==> !r.0.spec_cancelled(),
            old(self)@.len() == 0 ==> *final(event) == *old(event),
            r.1@.states.len() == r.1@.invoked() + 1,
            r.1@.states[0] == *old(event),
            *final(event) == r.1@.states[r.1@.invoked()],
    {
        let mut cancellation = <E::Cancellation as Cancellation>::fresh();
        let ghost mut trace: DispatchTrace<E> = DispatchTrace {
            entries: Seq::empty(),
            audiences: Seq::empty(),
            states: seq![*event],
        };
        let n = self.handlers().len();
        let mut i: usize = 0;
        while i < n
            invariant
                i <= n,
                n == self@.len(),
                n == old(self)@.len(),
                self.wf(),
                self.prios() == old(self).prios(),
                forall|t: int| i <= t < n ==> self@[t] == old(self)@[t],
                trace.entries.len() == i,
                trace.audiences.len() == i,
                forall|t: int| 0 <= t < i ==> !(#[trigger] trace.entries[t]).spec_cancelled(),
                forall|t: int| 0 <= t < i ==> (#[trigger] trace.audiences[t]) == audience,
                !cancellation.spec_cancelled(),
                n == 0 ==> *event == *old(event),
                trace.states.len() == i + 1,
                trace.states[0] == *old(event),
                trace.states.last() == *event,
            decreases n - i,
        {
            proof {
                trace.entries = trace.entries.push(cancellation);
            }
            let handler = self.handler_mut(i);
            let input = Receive::new(
                <E::Mutability as Mutability>::to_ref(&mut *event),
                &mut cancellation,
                &audience,
            );
            proof {
                trace.audiences = trace.audiences.push(input.spec_audience());
            }
            handler.run(input, state);
            proof {
                trace.states = trace.states.push(*event);
            }
            if cancellation.cancelled() {
                return (cancellation, Ghost(trace));
            }
            i += 1;
        }
        (cancellation, Ghost(trace))
    }
}

} // verus!
