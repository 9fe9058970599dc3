//! A typed, in-process event bus.
//!
//! Handlers subscribe to strongly-typed event kinds, run in a deterministic
//! priority order, may mutate or cancel the event they are handling, and may
//! be told which addressees the event is meant for.  Each event kind fixes
//! three orthogonal configuration axes — mutability, cancellation state and
//! audience — and a single generic dispatch algorithm serves every
//! combination.

pub mod command;
pub mod config;
pub mod dispatch;
pub mod event;
pub mod input;
pub mod registry;
pub mod system;

pub use command::{AddHandler, Command, CommandQueue, PostEvent};
pub use config::{
    Early, First, HandlerConfig, HandlerPriority, IntoHandlerConfig, Last, Late, Normal, Post,
    Pre, SystemMarker,
};
pub use dispatch::DispatchTrace;
pub use event::tick::Tick;
pub use event::{
    Audience, Cancellable, CancellableWith, Cancellation, EntityId, Event, EventView, Immutable,
    Multicast, Mutability, Mutable, Unicast,
};
pub use input::Receive;
pub use registry::HandlerRegistry;
pub use system::{HandlerSystem, IntoHandlerSystem};
