//! The event contract: each event kind fixes, at definition time, its
//! mutability mode, its cancellation-state type and its audience type.

use vstd::prelude::*;

pub mod tick;

verus! {

/// Messages sent between event handlers.
///
/// An event kind is a type-level key.  It associates exactly one
/// [`Mutability`] mode, one [`Cancellation`] state type and one [`Audience`]
/// type with itself; the three choices are part of the kind's identity and
/// cannot vary per dispatch.
pub trait Event: Sized {
    /// Whether the event can be modified by handlers.
    ///
    /// This is either [`Immutable`] or [`Mutable`].
    type Mutability: Mutability;
    /// The type of cancellation state for this event.
    type Cancellation: Cancellation;
    /// Who the event is intended for.
    type Audience: Audience;
}

/// The view of an event that a handler receives: read-only for event kinds
/// whose mutability mode is [`Immutable`], read-write for [`Mutable`] kinds.
pub enum EventView<'event, E> {
    /// A read-only borrow of the event.
    Shared(&'event E),
    /// A read-write borrow of the event.
    Exclusive(&'event mut E),
}

impl<'event, E> EventView<'event, E> {
    /// The event value currently behind the view.
    pub open spec fn spec_current(&self) -> E {
        match *self {
            EventView::Shared(r) => *r,
            EventView::Exclusive(r) => *r,
        }
    }

    /// Whether the view grants write access.
    pub open spec fn spec_exclusive(&self) -> bool {
        *self is Exclusive
    }
}

/// [`Event`] configuration that determines if an event can be modified or not.
pub trait Mutability: Sized {
    /// Whether this mode grants handlers write access to the event.
    spec fn is_mutable() -> bool;

    /// Converts a mutable borrow of the event into the view this mode allows:
    /// a read-only view for [`Immutable`], a read-write view for [`Mutable`].
    fn to_ref<'event, E>(event: &'event mut E) -> (r: EventView<'event, E>)
        ensures
            r.spec_current() == *old(event),
            r.spec_exclusive() == Self::is_mutable(),
    ;
}

/// [`Event`] [`Mutability`] that only allows read-only access.
pub struct Immutable;

impl Mutability for Immutable {
    open spec fn is_mutable() -> bool {
        false
    }

    fn to_ref<'event, E>(event: &'event mut E) -> (r: EventView<'event, E>) {
        EventView::Shared(event)
    }
}

/// [`Event`] [`Mutability`] that allows read-write access.
pub struct Mutable;

impl Mutability for Mutable {
    open spec fn is_mutable() -> bool {
        true
    }

    fn to_ref<'event, E>(event: &'event mut E) -> (r: EventView<'event, E>) {
        EventView::Exclusive(event)
    }
}

/// [`Event`] cancellation state.  For the actual act of checking and
/// cancelling an event, see [`Cancellable`] and [`CancellableWith`].
///
/// Provided implementations:
/// - `()`: an uncancellable event,
/// - `bool`: a simple boolean flag,
/// - `Option<T>`: cancellation with a reason.
pub trait Cancellation: Sized {
    /// Whether this state reports the event as cancelled.
    spec fn spec_cancelled(&self) -> bool;

    /// The initial, not-cancelled state created at the start of each dispatch.
    fn fresh() -> (r: Self)
        ensures
            !r.spec_cancelled(),
    ;

    /// Returns `true` if the event is cancelled.
    /// To cancel an event, use [`Cancellable::cancel`].
    fn cancelled(&self) -> (r: bool)
        ensures
            r == self.spec_cancelled(),
    ;
}

/// [`Event`] configuration to allow them to be cancelled.
///
/// For checking the cancellation state, see [`Cancellation::cancelled`].
/// For cancelling an event with a value, see [`CancellableWith::cancel_with`].
pub trait Cancellable: Cancellation {
    /// Cancels the event from being processed further.
    /// To check if an event is cancelled, use [`Cancellation::cancelled`].
    fn cancel(&mut self)
        ensures
            final(self).spec_cancelled(),
    ;
}

/// [`Event`] configuration to allow them to be cancelled with a value.
///
/// For checking the cancellation state, see [`Cancellation::cancelled`].
/// For cancelling an event without a value, see [`Cancellable::cancel`].
pub trait CancellableWith<T>: Cancellation {
    /// The state that cancelling with `value` leaves behind.
    spec fn spec_cancel_with(self, value: T) -> Self;

    /// Cancels the event from being processed further, with a value: the
    /// state becomes exactly [`CancellableWith::spec_cancel_with`] of the
    /// old state and the value.  A cancelled state never reverts to
    /// not-cancelled.
    fn cancel_with(&mut self, value: T)
        ensures
            *final(self) == old(self).spec_cancel_with(value),
            old(self).spec_cancelled() ==> final(self).spec_cancelled(),
    ;
}

impl Cancellation for bool {
    open spec fn spec_cancelled(&self) -> bool {
        *self
    }

    fn fresh() -> (r: bool)
        ensures
            r == false,
    {
        false
    }

    fn cancelled(&self) -> bool {
        *self
    }
}

impl Cancellable for bool {
    fn cancel(&mut self)
        ensures
            *final(self) == true,
    {
        *self = true;
    }
}

impl CancellableWith<bool> for bool {
    open spec fn spec_cancel_with(self, value: bool) -> bool {
        value || self
    }

    fn cancel_with(&mut self, value: bool) {
        *self = value || self.cancelled();
    }
}

impl Cancellation for () {
    open spec fn spec_cancelled(&self) -> bool {
        false
    }

    fn fresh() -> (r: ()) {
    }

    fn cancelled(&self) -> bool {
        false
    }
}

impl<T> Cancellation for Option<T> {
    open spec fn spec_cancelled(&self) -> bool {
        *self is Some
    }

    fn fresh() -> (r: Option<T>)
        ensures
            r is None,
    {
        None
    }

    fn cancelled(&self) -> bool {
        self.is_some()
    }
}

impl<T: Default> Cancellable for Option<T> {
    fn cancel(&mut self) {
        *self = Some(T::default());
    }
}

impl<T> CancellableWith<T> for Option<T> {
    open spec fn spec_cancel_with(self, value: T) -> Option<T> {
        Some(value)
    }

    fn cancel_with(&mut self, value: T) {
        *self = Some(value);
    }
}

/// A plain addressee identity: the value an [`Audience`] names its targets by.
#[derive(Clone, Copy, Debug, Hash, PartialEq, Eq, Structural)]
pub struct EntityId(pub u64);

/// Who the [`Event`] is intended for.
///
/// Provided implementations:
/// - `()`: no target,
/// - [`EntityId`]: a single target,
/// - `Vec<EntityId>` and `[EntityId; N]`: a collection of targets.
pub trait Audience {}

impl Audience for () {
}

impl Audience for EntityId {
}

impl Audience for Vec<EntityId> {
}

/// [`Audience`] that denotes an [`Event`] is intended for a specific addressee.
///
/// Provided implementations: [`EntityId`] and `[EntityId; 1]`.
pub trait Unicast: Audience {
    /// The kind of addressee this audience names.
    type Target;

    /// The addressee of the event.
    spec fn spec_target(&self) -> Self::Target;

    /// Returns the target of the event.
    fn target(&self) -> (r: Self::Target)
        ensures
            r == self.spec_target(),
    ;
}

impl Unicast for EntityId {
    type Target = EntityId;

    open spec fn spec_target(&self) -> EntityId {
        *self
    }

    fn target(&self) -> EntityId {
        *self
    }
}

/// [`Audience`] that denotes an [`Event`] is intended for multiple addressees.
///
/// Provided implementations: `Vec<EntityId>` and `[EntityId; N]`.
pub trait Multicast: Audience {
    /// The kind of addressee this audience names.
    type Target;

    /// The addressees of the event, in order.
    spec fn spec_targets(&self) -> Seq<Self::Target>;

    /// Returns the targets of the event, in order.
    fn targets(&self) -> (r: Vec<Self::Target>)
        ensures
            r@ == self.spec_targets(),
    ;
}

impl<const N: usize> Audience for [EntityId; N] {
}

impl Unicast for [EntityId; 1] {
    type Target = EntityId;

    open spec fn spec_target(&self) -> EntityId {
        self@[0]
    }

    fn target(&self) -> EntityId {
        self[0]
    }
}

impl<const N: usize> Multicast for [EntityId; N] {
    type Target = EntityId;

    open spec fn spec_targets(&self) -> Seq<EntityId> {
        self@
    }

    fn targets(&self) -> (r: Vec<EntityId>)
        ensures
            r@ == self@,
    {
        let mut out: Vec<EntityId> = Vec::new();
        let mut i: usize = 0;
        while i < N
            invariant
                i <= N,
                out@ == self@.take(i as int),
            decreases N - i,
        {
            out.push(self[i]);
            proof {
                assert(out@ == self@.take(i + 1 as int));
            }
            i += 1;
        }
        proof {
            assert(self@.take(N as int) == self@);
        }
        out
    }
}

impl Multicast for Vec<EntityId> {
    type Target = EntityId;

    open spec fn spec_targets(&self) -> Seq<EntityId> {
        self@
    }

    fn targets(&self) -> (r: Vec<EntityId>)
        ensures
            r@ == self@,
    {
        let mut out: Vec<EntityId> = Vec::new();
        let mut i: usize = 0;
        while i < self.len()
            invariant
                i <= self.len(),
                out@ == self@.take(i as int),
            decreases self.len() - i,
        {
            out.push(self[i]);
            proof {
                assert(out@ == self@.take(i + 1 as int));
            }
            i += 1;
        }
        proof {
            assert(self@.take(self.len() as int) == self@);
        }
        out
    }
}

} // verus!
