//! Configuration for registering an event handler: its priority on the bus,
//! and the conversions that turn a bare handler into a registration.

use vstd::prelude::*;

use crate::event::Event;
use crate::system::{HandlerSystem, IntoHandlerSystem};

verus! {

/// Configuration for an event handler.
///
/// # Priority
///
/// Handlers are ran in order of priority, with higher priority handlers
/// being ran first.  Individual handlers can be assigned a priority using
/// the [`HandlerConfig::priority`] method.
///
/// Handlers with the same priority are ran in the order they were added.
pub struct HandlerConfig<H> {
    pub(crate) priority: i32,
    pub(crate) handler: H,
}

impl<H> HandlerConfig<H> {
    /// The priority this configuration registers its handler at.
    pub closed spec fn spec_priority(&self) -> i32 {
        self.priority
    }

    /// The handler this configuration registers.
    pub closed spec fn spec_handler(self) -> H {
        self.handler
    }

    /// Creates a new handler configuration, at the default ([`Normal`])
    /// priority.
    pub fn new(handler: H) -> (r: Self)
        ensures
            r.spec_priority() == 0i32,
            r.spec_handler() == handler,
    {
        Self { priority: 0, handler }
    }

    /// Sets the priority of the handler.
    pub fn priority<P: HandlerPriority>(self, priority: P) -> (r: Self)
        ensures
            r.spec_priority() == priority.spec_priority(),
            r.spec_handler() == self.spec_handler(),
    {
        let p = priority.priority();
        Self { priority: p, handler: self.handler }
    }
}

/// Trait for types that can be converted into a [`HandlerConfig`].
pub trait IntoHandlerConfig<E: Event, S, Marker>: Sized {
    /// The handler type the resulting configuration registers.
    type Handler: HandlerSystem<E, S>;

    /// The configuration this value converts into.
    spec fn spec_config(self) -> HandlerConfig<Self::Handler>;

    /// Converts the type into a [`HandlerConfig`].
    fn into_config(self) -> (r: HandlerConfig<Self::Handler>)
        ensures
            r == self.spec_config(),
    ;

    /// Sets the priority of the handler.
    fn priority<P: HandlerPriority>(self, priority: P) -> (r: HandlerConfig<Self::Handler>)
        ensures
            r.spec_priority() == priority.spec_priority(),
            r.spec_handler() == self.spec_config().spec_handler(),
    {
        self.into_config().priority(priority)
    }
}

/// [`HandlerConfig`]s can be converted into themselves.
impl<E: Event, S, H: HandlerSystem<E, S>> IntoHandlerConfig<E, S, ()> for HandlerConfig<H> {
    type Handler = H;

    open spec fn spec_config(self) -> HandlerConfig<H> {
        self
    }

    fn into_config(self) -> HandlerConfig<H> {
        self
    }
}

pub struct SystemMarker;

/// Anything that can be converted into a [`HandlerSystem`] can be converted
/// into a [`HandlerConfig`], at the default priority.
impl<E: Event, S, Marker, T: IntoHandlerSystem<E, S, Marker>>
    IntoHandlerConfig<E, S, (SystemMarker, Marker)> for T
{
    type Handler = T::System;

    closed spec fn spec_config(self) -> HandlerConfig<T::System> {
        HandlerConfig { priority: 0, handler: self.spec_system() }
    }

    fn into_config(self) -> (r: HandlerConfig<T::System>)
        ensures
            r.spec_priority() == 0i32,
    {
        HandlerConfig::new(self.into_system())
    }
}

/// A bare handler converts into a configuration at the default
/// ([`Normal`]) priority: what [`HandlerRegistry::add_handler`] then says
/// of `spec_config` can be read with the priority zero.
///
/// [`HandlerRegistry::add_handler`]: crate::registry::HandlerRegistry::add_handler
pub proof fn lemma_bare_config_priority<E: Event, S, Marker, T: IntoHandlerSystem<E, S, Marker>>(
    handler: T,
)
    ensures
        <T as IntoHandlerConfig<E, S, (SystemMarker, Marker)>>::spec_config(
            handler,
        ).spec_priority() == 0i32,
{
}

/// Crate-internal bridge from a configuration's opaque model to its
/// priority field.
pub(crate) broadcast proof fn lemma_config_priority<H>(c: HandlerConfig<H>)
    ensures
        #[trigger] c.spec_priority() == c.priority,
{
}

/// Crate-internal bridge from a configuration's opaque model to its
/// handler field.
pub(crate) broadcast proof fn lemma_config_handler<H>(c: HandlerConfig<H>)
    ensures
        #[trigger] c.spec_handler() == c.handler,
{
}

/// Trait for types that can be converted into a priority value.
pub trait HandlerPriority {
    /// The priority value this type stands for.
    spec fn spec_priority(&self) -> i32;

    /// Higher priority handlers are ran first.
    fn priority(&self) -> (r: i32)
        ensures
            r == self.spec_priority(),
    ;
}

/// [`i32`] can be converted into a priority value.
impl HandlerPriority for i32 {
    open spec fn spec_priority(&self) -> i32 {
        *self
    }

    fn priority(&self) -> i32 {
        *self
    }
}

/// [`HandlerPriority`] that runs with first priority: the top of the scale.
pub struct First;

impl HandlerPriority for First {
    open spec fn spec_priority(&self) -> i32 {
        i32::MAX
    }

    fn priority(&self) -> i32 {
        i32::MAX
    }
}

/// [`HandlerPriority`] that runs with early priority: half way up the scale.
pub struct Early;

impl HandlerPriority for Early {
    open spec fn spec_priority(&self) -> i32 {
        0x3fffffff
    }

    fn priority(&self) -> i32 {
        0x3fffffff
    }
}

/// [`HandlerPriority`] that runs with pre priority: a quarter way up the
/// scale.
pub struct Pre;

impl HandlerPriority for Pre {
    open spec fn spec_priority(&self) -> i32 {
        0x1fffffff
    }

    fn priority(&self) -> i32 {
        0x1fffffff
    }
}

/// [`HandlerPriority`] that runs with normal priority: the default, zero.
pub struct Normal;

impl HandlerPriority for Normal {
    open spec fn spec_priority(&self) -> i32 {
        0
    }

    fn priority(&self) -> i32 {
        0
    }
}

/// [`HandlerPriority`] that runs with post priority: a quarter way down the
/// scale.
pub struct Post;

impl HandlerPriority for Post {
    open spec fn spec_priority(&self) -> i32 {
        -0x20000000i32
    }

    fn priority(&self) -> i32 {
        -0x20000000
    }
}

/// [`HandlerPriority`] that runs with late priority: half way down the scale.
pub struct Late;

impl HandlerPriority for Late {
    open spec fn spec_priority(&self) -> i32 {
        -0x40000000i32
    }

    fn priority(&self) -> i32 {
        -0x40000000
    }
}

/// [`HandlerPriority`] that runs with last priority: the bottom of the scale.
pub struct Last;

impl HandlerPriority for Last {
    open spec fn spec_priority(&self) -> i32 {
        i32::MIN
    }

    fn priority(&self) -> i32 {
        i32::MIN
    }
}

} // verus!
