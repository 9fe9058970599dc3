//! Deferred commands: registrations and dispatches packaged as values and
//! applied later, at a safe synchronization point.
//!
//! A handler that is itself running inside a dispatch must not mutate or
//! re-enter the registry it is being iterated from.  Instead it pushes a
//! [`Command`] onto a [`CommandQueue`]; the host drains the queue at a
//! well-defined boundary, applying each queued operation against the
//! authoritative registry and state, in FIFO order, exactly once each.

use vstd::prelude::*;

use crate::config::{HandlerConfig, IntoHandlerConfig};
use crate::event::Event;
use crate::registry::{insertion_point, HandlerRegistry};
use crate::system::HandlerSystem;

verus! {

/// [`Command`] that adds a handler to a [`HandlerRegistry`].
pub struct AddHandler<H> {
    system: HandlerConfig<H>,
}

impl<H> AddHandler<H> {
    /// The configuration this command registers.
    pub closed spec fn spec_config(self) -> HandlerConfig<H> {
        self.system
    }

    /// Packages a registration as a deferred command.
    pub fn new(system: HandlerConfig<H>) -> (r: Self)
        ensures
            r.spec_config() == system,
    {
        AddHandler { system }
    }

    /// Applies the deferred registration against `registry`: the handler's
    /// one-time initialization hook runs now, then the handler is inserted
    /// at its priority.  The registry afterwards holds exactly the old
    /// entries, in their order, plus one new entry at the priority's
    /// insertion point.
    pub fn apply<E: Event, S>(self, registry: &mut HandlerRegistry<H>, state: &mut S) where
        H: HandlerSystem<E, S>,

        requires
            old(registry).wf(),
        ensures
            final(registry).wf(),
            final(registry).prios() == old(registry).prios().insert(
                insertion_point(old(registry).prios(), self.spec_config().spec_priority()),
                self.spec_config().spec_priority(),
            ),
            final(registry)@.len() == old(registry)@.len() + 1,
            forall|k: int|
                0 <= k < insertion_point(old(registry).prios(), self.spec_config().spec_priority())
                    ==> final(registry)@[k] == old(registry)@[k],
            forall|k: int|
                insertion_point(old(registry).prios(), self.spec_config().spec_priority()) <= k
                    < old(registry)@.len() ==> final(registry)@[k + 1] == old(registry)@[k],
            final(registry)@[insertion_point(
                old(registry).prios(),
                self.spec_config().spec_priority(),
            )].spec_priority() == self.spec_config().spec_priority(),
    {
        registry.add_handler(self.system, state);
    }
}

/// [`Command`] that posts an [`Event`] to a [`HandlerRegistry`].
pub struct PostEvent<E: Event> {
    event: E,
    audience: E::Audience,
}

impl<E: Event> PostEvent<E> {
    /// The event this command dispatches.
    pub closed spec fn spec_event(self) -> E {
        self.event
    }

    /// The audience this command dispatches to.
    pub closed spec fn spec_audience(self) -> E::Audience {
        self.audience
    }

    /// Packages a dispatch as a deferred command.
    pub fn new(event: E, audience: E::Audience) -> (r: Self)
        ensures
            r.spec_event() == event,
            r.spec_audience() == audience,
    {
        PostEvent { event, audience }
    }

    /// Applies the deferred dispatch against `registry`, discarding the
    /// cancellation value: the caller that queued this command is no longer
    /// on the stack to receive it.
    pub fn apply<S, H>(self, registry: &mut HandlerRegistry<H>, state: &mut S) where
        H: HandlerSystem<E, S>,

        requires
            old(registry).wf(),
        ensures
            final(registry).wf(),
            final(registry).prios() == old(registry).prios(),
    {
        let _ = registry.post_to(self.event, self.audience, state);
    }
}

/// One deferred operation: a registration or a dispatch.
pub enum Command<E: Event, H> {
    /// Add a handler to the registry.
    AddHandler(AddHandler<H>),
    /// Post an event through the registry.
    PostEvent(PostEvent<E>),
}

/// What applying one command does to the registry's priority sequence:
/// a registration inserts its priority at the insertion point, a dispatch
/// leaves the sequence unchanged.
pub open spec fn apply_one_prios<E: Event, H>(cmd: Command<E, H>, prios: Seq<i32>) -> Seq<i32> {
    match cmd {
        Command::AddHandler(a) => prios.insert(
            insertion_point(prios, a.spec_config().spec_priority()),
            a.spec_config().spec_priority(),
        ),
        Command::PostEvent(_) => prios,
    }
}

/// What applying a whole queue does to the registry's priority sequence:
/// the commands take effect first to last, each exactly once.
pub open spec fn apply_all_prios<E: Event, H>(
    cmds: Seq<Command<E, H>>,
    prios: Seq<i32>,
) -> Seq<i32>
    decreases cmds.len(),
{
    if cmds.len() == 0 {
        prios
    } else {
        apply_all_prios(cmds.drop_first(), apply_one_prios(cmds[0], prios))
    }
}

impl<E: Event, H> Command<E, H> {
    /// Applies this command against `registry`.  A registration leaves the
    /// registry holding exactly the old entries plus the new one at its
    /// insertion point; a dispatch keeps the entry count and every priority.
    pub fn apply<S>(self, registry: &mut HandlerRegistry<H>, state: &mut S) where
        H: HandlerSystem<E, S>,

        requires
            old(registry).wf(),
        ensures
            final(registry).wf(),
            final(registry).prios() == apply_one_prios(self, old(registry).prios()),
            self matches Command::AddHandler(add) ==> {
                let ip = insertion_point(
                    old(registry).prios(),
                    add.spec_config().spec_priority(),
                );
                &&& final(registry)@.len() == old(registry)@.len() + 1
                &&& forall|k: int| 0 <= k < ip ==> final(registry)@[k] == old(registry)@[k]
                &&& forall|k: int|
                    ip <= k < old(registry)@.len() ==> final(registry)@[k + 1] == old(registry)@[k]
                &&& final(registry)@[ip].spec_priority() == add.spec_config().spec_priority()
            },
    {
        let ghost cmd = self;
        match self {
            Command::AddHandler(add) => {
                let ghost ga = add;
                add.apply(registry, state);
                proof {
                    assert(cmd == Command::<E, H>::AddHandler(ga));
                }
            }
            Command::PostEvent(post) => {
                let ghost gp = post;
                post.apply(registry, state);
                proof {
                    assert(cmd == Command::<E, H>::PostEvent(gp));
                }
            }
        }
    }
}

/// A FIFO of deferred [`Command`]s for one [`Event`] kind.
///
/// Its view `self@` is the queued commands, oldest first.
pub struct CommandQueue<E: Event, H> {
    commands: Vec<Command<E, H>>,
}

impl<E: Event, H> View for CommandQueue<E, H> {
    type V = Seq<Command<E, H>>;

    closed spec fn view(&self) -> Seq<Command<E, H>> {
        self.commands@
    }
}

impl<E: Event, H> CommandQueue<E, H> {
    /// Creates an empty queue.
    pub fn new() -> (r: Self)
        ensures
            r@ =~= Seq::<Command<E, H>>::empty(),
    {
        CommandQueue { commands: Vec::new() }
    }

    /// Queues a [`Command`] that adds an event handler to the registry.
    /// The conversion into a configuration happens now; the initialization
    /// hook and the insertion happen when the queue is applied.
    pub fn add_handler<S, Marker, C>(&mut self, system: C) where
        C: IntoHandlerConfig<E, S, Marker, Handler = H>,
        H: HandlerSystem<E, S>,

        ensures
            exists|a: AddHandler<H>|
                a.spec_config() == system.spec_config() && final(self)@ == old(self)@.push(
                    Command::AddHandler(a),
                ),
    {
        let add = AddHandler::new(system.into_config());
        self.commands.push(Command::AddHandler(add));
    }

    /// Queues a [`Command`] that posts an [`Event`] with no audience.
    pub fn post(&mut self, event: E) where E: Event<Audience = ()>
        ensures
            exists|p: PostEvent<E>|
                p.spec_event() == event && final(self)@ == old(self)@.push(Command::PostEvent(p)),
    {
        self.post_to(event, ());
    }

    /// Queues a [`Command`] that posts an [`Event`] to a specific
    /// [`Audience`](Event::Audience).
    pub fn post_to(&mut self, event: E, audience: E::Audience)
        ensures
            exists|p: PostEvent<E>|
                p.spec_event() == event && p.spec_audience() == audience && final(self)@ == old(
                    self,
                )@.push(Command::PostEvent(p)),
    {
        let post = PostEvent::new(event, audience);
        self.commands.push(Command::PostEvent(post));
    }

    /// Drains the queue against `registry` and `state`: every queued
    /// command is applied, oldest first, exactly once, and the queue is
    /// left empty.
    pub fn apply_all<S>(&mut self, registry: &mut HandlerRegistry<H>, state: &mut S) where
        H: HandlerSystem<E, S>,

        requires
            old(registry).wf(),
        ensures
            final(self)@.len() == 0,
            final(registry).wf(),
            final(registry).prios() == apply_all_prios(old(self)@, old(registry).prios()),
    {
        while self.commands.len() > 0
            invariant
                registry.wf(),
                apply_all_prios(self@, registry.prios()) == apply_all_prios(
                    old(self)@,
                    old(registry).prios(),
                ),
            decreases self.commands@.len(),
        {
            let ghost before = self.commands@;
            let cmd = self.commands.remove(0);
            proof {
                assert(before.remove(0) =~= before.drop_first());
            }
            cmd.apply(registry, state);
        }
    }
}

/// The default queue is empty.
impl<E: Event, H> Default for CommandQueue<E, H> {
    fn default() -> (r: Self)
        ensures
            r@ =~= Seq::<Command<E, H>>::empty(),
    {
        CommandQueue::new()
    }
}

} // verus!
