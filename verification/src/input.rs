//! The reception context: the value handed to a handler at invocation time.

use vstd::prelude::*;

use crate::event::{
    Cancellable, CancellableWith, Cancellation, Event, EventView, Multicast, Mutable, Unicast,
};

verus! {

/// The input handed to a handler each time it is invoked.
///
/// A `Receive` holds a view of the event honoring the kind's mutability, an
/// exclusive borrow of the dispatch's cancellation state, and a read-only
/// borrow of the audience.  Mutating the event view mutates the event
/// instance shared with the dispatch loop; cancelling mutates the shared
/// cancellation value the dispatch loop checks after each invocation.
pub struct Receive<'event, E: Event> {
    /// The event being received.
    event: EventView<'event, E>,
    /// The cancellation state of the event.
    cancellation: &'event mut E::Cancellation,
    /// The intended audience of the event.
    audience: &'event E::Audience,
}

impl<'event, E: Event> Receive<'event, E> {
    /// The event value this context currently shows.
    pub closed spec fn spec_event(&self) -> E {
        self.event.spec_current()
    }

    /// Whether the event view grants write access.
    ///
    /// The dispatch engine builds a write-granting view exactly when the
    /// event kind's mutability is [`Mutable`].
    pub closed spec fn spec_exclusive(&self) -> bool {
        self.event.spec_exclusive()
    }

    /// The cancellation state this context currently shows.
    pub closed spec fn spec_cancellation(&self) -> E::Cancellation {
        *self.cancellation
    }

    /// The audience this context reports.
    pub closed spec fn spec_audience(&self) -> E::Audience {
        *self.audience
    }

    /// Creates a new [`Receive`] instance.
    pub fn new(
        event: EventView<'event, E>,
        cancellation: &'event mut E::Cancellation,
        audience: &'event E::Audience,
    ) -> (r: Self)
        ensures
            r.spec_event() == event.spec_current(),
            r.spec_exclusive() == event.spec_exclusive(),
            r.spec_cancellation() == *old(cancellation),
            r.spec_audience() == *audience,
    {
        Self { event, cancellation, audience }
    }

    /// Returns a read-only reference to the event.
    pub fn event(&self) -> (r: &E)
        ensures
            *r == self.spec_event(),
    {
        match &self.event {
            EventView::Shared(r) => r,
            EventView::Exclusive(r) => r,
        }
    }

    /// Returns a mutable reference to the event.
    /// Requires the [`Event`] `E` to be [`Mutable`]; the dispatch engine
    /// hands every handler of a `Mutable` kind a write-granting view.
    pub fn event_mut(&mut self) -> (r: &mut E) where E: Event<Mutability = Mutable>
        requires
            old(self).spec_exclusive(),
        ensures
            *r == old(self).spec_event(),
            final(self).spec_event() == *final(r),
            final(self).spec_exclusive(),
            final(self).spec_cancellation() == old(self).spec_cancellation(),
            final(self).spec_audience() == old(self).spec_audience(),
    {
        match &mut self.event {
            EventView::Exclusive(r) => r,
            EventView::Shared(_) => unreached(),
        }
    }

    /// Returns `true` if the event was cancelled.
    /// This will always return `false` if the [`Event`] `E` is not
    /// [`Cancellable`] or [`CancellableWith`].
    ///
    /// To cancel an event, use [`Receive::cancel`].
    pub fn cancelled(&self) -> (r: bool)
        ensures
            r == self.spec_cancellation().spec_cancelled(),
    {
        let c: &E::Cancellation = &*self.cancellation;
        c.cancelled()
    }

    /// Cancels the event from being processed further.
    /// Requires the [`Event`] `E`'s cancellation state to be [`Cancellable`].
    ///
    /// To check if an event is cancelled, use [`Receive::cancelled`].
    pub fn cancel(&mut self) where E::Cancellation: Cancellable
        ensures
            final(self).spec_cancellation().spec_cancelled(),
            final(self).spec_event() == old(self).spec_event(),
            final(self).spec_exclusive() == old(self).spec_exclusive(),
            final(self).spec_audience() == old(self).spec_audience(),
    {
        self.cancellation.cancel();
    }

    /// Cancels the event from being processed further, with a value.
    /// Requires the [`Event`] `E`'s cancellation state to be
    /// [`CancellableWith`] `T`.
    ///
    /// To check if an event is cancelled, use [`Receive::cancelled`].
    pub fn cancel_with<T>(&mut self, value: T) where E::Cancellation: CancellableWith<T>
        ensures
            final(self).spec_cancellation() == old(self).spec_cancellation().spec_cancel_with(
                value,
            ),
            old(self).spec_cancellation().spec_cancelled()
                ==> final(self).spec_cancellation().spec_cancelled(),
            final(self).spec_event() == old(self).spec_event(),
            final(self).spec_exclusive() == old(self).spec_exclusive(),
            final(self).spec_audience() == old(self).spec_audience(),
    {
        self.cancellation.cancel_with(value);
    }

    /// Returns the target addressee of the event.
    /// Requires the [`Event`] `E`'s audience to be [`Unicast`].
    pub fn target(&self) -> (r: <E::Audience as Unicast>::Target) where E::Audience: Unicast
        ensures
            r == self.spec_audience().spec_target(),
    {
        self.audience.target()
    }

    /// Returns the target addressees of the event, in order.
    /// Requires the [`Event`] `E`'s audience to be [`Multicast`].
    pub fn targets(&self) -> (r: Vec<<E::Audience as Multicast>::Target>) where
        E::Audience: Multicast,

        ensures
            r@ == self.spec_audience().spec_targets(),
    {
        self.audience.targets()
    }
}

} // verus!
