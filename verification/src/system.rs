//! The handler contract: an opaque, once-initialized, repeatedly-invokable
//! unit that reacts to one event kind.

use vstd::prelude::*;

use crate::event::Event;
use crate::input::Receive;

verus! {

/// A unit that handles [`Event`]s of kind `E` against shared state `S`.
///
/// The bus does not need to understand what a handler reads or writes, only
/// that it can be initialized once — synchronously, at registration, before
/// it is reachable by dispatch — and invoked many times.  Neither method
/// carries a contract: a handler's effects are its own business, and the
/// dispatch engine promises nothing about them.
pub trait HandlerSystem<E: Event, S> {
    /// One-time setup, run exactly once when the handler is registered.
    fn initialize(&mut self, state: &mut S);

    /// Handles one invocation for the event dispatch described by `input`.
    fn run<'event>(&mut self, input: Receive<'event, E>, state: &mut S);
}

/// Trait for types that can be converted into [`HandlerSystem`]s.
pub trait IntoHandlerSystem<E: Event, S, Marker>: Sized {
    /// The type of [`HandlerSystem`] that this instance converts into.
    type System: HandlerSystem<E, S>;

    /// The handler this value converts into.
    spec fn spec_system(self) -> Self::System;

    /// Turns this value into its corresponding [`HandlerSystem`].
    fn into_system(self) -> (r: Self::System)
        ensures
            r == self.spec_system(),
    ;
}

/// Every [`HandlerSystem`] trivially converts into itself.
impl<E: Event, S, H: HandlerSystem<E, S>> IntoHandlerSystem<E, S, ()> for H {
    type System = H;

    open spec fn spec_system(self) -> H {
        self
    }

    fn into_system(self) -> H {
        self
    }
}

} // verus!
