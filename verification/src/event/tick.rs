//! A built-in event kind marking one pass of the hosting loop.

use vstd::prelude::*;

use crate::event::{Event, Immutable};

verus! {

/// An [`Event`] that represents a tick of the hosting update loop.
///
/// A tick carries no payload, cannot be cancelled and addresses nobody: it is
/// one ordinary instantiation of the event contract.
pub struct Tick;

impl Event for Tick {
    type Mutability = Immutable;

    type Cancellation = ();

    type Audience = ();
}

} // verus!
