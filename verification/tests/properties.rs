//! Scenario tests for the bus's stated properties: priority ordering,
//! insertion-order tie-breaks, cancellation short-circuits, no-listener
//! dispatch, mutability, audience passthrough and deferred commands.

use event_bus::{
    CommandQueue, EntityId, Event, EventView, HandlerRegistry, Immutable, IntoHandlerConfig,
    Mutable, Receive, Tick,
};
use event_bus::{Early, First, HandlerPriority, Last, Late, Normal, Post, Pre};
use event_bus::HandlerSystem;
use event_bus::{AddHandler, HandlerConfig, PostEvent};

struct Note;

impl Event for Note {
    type Cancellation = bool;
    type Audience = ();
    type Mutability = Immutable;
}

enum LogAbc {
    A,
    B,
    C,
}

impl HandlerSystem<Note, Vec<char>> for LogAbc {
    fn initialize(&mut self, _state: &mut Vec<char>) {}

    fn run<'event>(&mut self, _event: Receive<'event, Note>, log: &mut Vec<char>) {
        match self {
            LogAbc::A => log.push('a'),
            LogAbc::B => log.push('b'),
            LogAbc::C => log.push('c'),
        }
    }
}

#[test]
fn priority_order_beats_registration_order() {
    let mut log: Vec<char> = Vec::new();
    let mut world: HandlerRegistry<LogAbc> = HandlerRegistry::new();
    world.add_handler(LogAbc::B.priority(Normal), &mut log);
    world.add_handler(LogAbc::C.priority(Last), &mut log);
    world.add_handler(LogAbc::A.priority(First), &mut log);

    let (cancelled, _) = world.post(Note, &mut log);
    assert!(!cancelled);
    assert_eq!(log, vec!['a', 'b', 'c']);
}

#[test]
fn insertion_order_breaks_priority_ties() {
    let mut log: Vec<char> = Vec::new();
    let mut world: HandlerRegistry<LogAbc> = HandlerRegistry::new();
    world.add_handler(LogAbc::A, &mut log);
    world.add_handler(LogAbc::B, &mut log);
    world.add_handler(LogAbc::C, &mut log);

    let (cancelled, _) = world.post(Note, &mut log);
    assert!(!cancelled);
    assert_eq!(log, vec!['a', 'b', 'c']);
}

enum CancelAt {
    A,
    B,
    C,
}

impl HandlerSystem<Note, Vec<char>> for CancelAt {
    fn initialize(&mut self, _state: &mut Vec<char>) {}

    fn run<'event>(&mut self, mut event: Receive<'event, Note>, log: &mut Vec<char>) {
        match self {
            CancelAt::A => {
                assert!(!event.cancelled());
                log.push('a');
            }
            CancelAt::B => {
                assert!(!event.cancelled());
                log.push('b');
                event.cancel();
            }
            CancelAt::C => log.push('c'),
        }
    }
}

#[test]
fn cancellation_short_circuits_later_handlers() {
    let mut log: Vec<char> = Vec::new();
    let mut world: HandlerRegistry<CancelAt> = HandlerRegistry::new();
    world.add_handler(CancelAt::A.priority(First), &mut log);
    world.add_handler(CancelAt::B.priority(Normal), &mut log);
    world.add_handler(CancelAt::C.priority(Last), &mut log);

    let (cancelled, _) = world.post(Note, &mut log);
    assert!(cancelled);
    assert_eq!(log, vec!['a', 'b']);
}

#[test]
fn no_listener_dispatch_is_not_cancelled() {
    let mut log: Vec<char> = Vec::new();
    let mut world: HandlerRegistry<LogAbc> = HandlerRegistry::new();

    let (cancelled, _) = world.post(Note, &mut log);
    assert!(!cancelled);
    assert_eq!(log, vec![]);
}

struct Gauge(i32);

impl Event for Gauge {
    type Cancellation = bool;
    type Audience = ();
    type Mutability = Mutable;
}

enum Editor {
    SetFive,
    SetSevenThenCancel,
    SetNine,
}

impl HandlerSystem<Gauge, ()> for Editor {
    fn initialize(&mut self, _state: &mut ()) {}

    fn run<'event>(&mut self, mut event: Receive<'event, Gauge>, _state: &mut ()) {
        match self {
            Editor::SetFive => {
                event.event_mut().0 = 5;
            }
            Editor::SetSevenThenCancel => {
                assert_eq!(event.event().0, 5);
                event.event_mut().0 = 7;
                event.cancel();
            }
            Editor::SetNine => {
                event.event_mut().0 = 9;
            }
        }
    }
}

#[test]
fn mutable_dispatch_keeps_last_edit_before_cancellation() {
    let mut world: HandlerRegistry<Editor> = HandlerRegistry::new();
    let mut state = ();
    world.add_handler(Editor::SetFive.priority(First), &mut state);
    world.add_handler(Editor::SetSevenThenCancel.priority(Normal), &mut state);
    world.add_handler(Editor::SetNine.priority(Last), &mut state);

    let mut gauge = Gauge(0);
    let (cancelled, _) = world.post_mut(&mut gauge, &mut state);
    assert!(cancelled);
    assert_eq!(gauge.0, 7);
}

struct Plain(i32);

impl Event for Plain {
    type Cancellation = bool;
    type Audience = ();
    type Mutability = Immutable;
}

struct ReadPlain;

impl HandlerSystem<Plain, u32> for ReadPlain {
    fn initialize(&mut self, _state: &mut u32) {}

    fn run<'event>(&mut self, event: Receive<'event, Plain>, ran: &mut u32) {
        assert_eq!(event.event().0, 41);
        *ran += 1;
    }
}

#[test]
fn immutable_dispatch_never_edits() {
    let mut world: HandlerRegistry<ReadPlain> = HandlerRegistry::new();
    let mut ran: u32 = 0;
    world.add_handler(ReadPlain, &mut ran);

    let plain = Plain(41);
    let (cancelled, _) = world.post_ref(&plain, &mut ran);
    assert!(!cancelled);
    assert_eq!(ran, 1);
    assert_eq!(plain.0, 41);
}

struct Hail;

impl Event for Hail {
    type Cancellation = ();
    type Audience = EntityId;
    type Mutability = Immutable;
}

struct SeesTarget;

impl HandlerSystem<Hail, u32> for SeesTarget {
    fn initialize(&mut self, _state: &mut u32) {}

    fn run<'event>(&mut self, event: Receive<'event, Hail>, ran: &mut u32) {
        assert_eq!(event.target(), EntityId(7));
        *ran += 1;
    }
}

#[test]
fn unicast_audience_passes_through() {
    let mut world: HandlerRegistry<SeesTarget> = HandlerRegistry::new();
    let mut ran: u32 = 0;
    world.add_handler(SeesTarget, &mut ran);
    world.add_handler(SeesTarget, &mut ran);

    world.post_to(Hail, EntityId(7), &mut ran);
    assert_eq!(ran, 2);
}

struct Broadcasted;

impl Event for Broadcasted {
    type Cancellation = ();
    type Audience = Vec<EntityId>;
    type Mutability = Immutable;
}

struct SeesTargets;

impl HandlerSystem<Broadcasted, u32> for SeesTargets {
    fn initialize(&mut self, _state: &mut u32) {}

    fn run<'event>(&mut self, event: Receive<'event, Broadcasted>, ran: &mut u32) {
        assert_eq!(event.targets(), vec![EntityId(1), EntityId(2)]);
        *ran += 1;
    }
}

#[test]
fn multicast_audience_keeps_order() {
    let mut world: HandlerRegistry<SeesTargets> = HandlerRegistry::new();
    let mut ran: u32 = 0;
    world.add_handler(SeesTargets, &mut ran);

    world.post_to(Broadcasted, vec![EntityId(1), EntityId(2)], &mut ran);
    assert_eq!(ran, 1);
}

struct Quit;

impl Event for Quit {
    type Cancellation = Option<i32>;
    type Audience = ();
    type Mutability = Immutable;
}

enum Quitter {
    WithReason,
    Unreachable,
}

impl HandlerSystem<Quit, ()> for Quitter {
    fn initialize(&mut self, _state: &mut ()) {}

    fn run<'event>(&mut self, mut event: Receive<'event, Quit>, _state: &mut ()) {
        match self {
            Quitter::WithReason => event.cancel_with(42),
            Quitter::Unreachable => unreachable!(),
        }
    }
}

#[test]
fn cancel_with_stores_the_reason() {
    let mut world: HandlerRegistry<Quitter> = HandlerRegistry::new();
    let mut state = ();
    world.add_handler(Quitter::WithReason, &mut state);
    world.add_handler(Quitter::Unreachable, &mut state);

    let (reason, _) = world.post(Quit, &mut state);
    assert_eq!(reason, Some(42));
}

enum SoftCancel {
    TriesFalse,
    StillRuns,
}

impl HandlerSystem<Note, Vec<char>> for SoftCancel {
    fn initialize(&mut self, _state: &mut Vec<char>) {}

    fn run<'event>(&mut self, mut event: Receive<'event, Note>, log: &mut Vec<char>) {
        match self {
            SoftCancel::TriesFalse => {
                log.push('f');
                event.cancel_with(false);
            }
            SoftCancel::StillRuns => log.push('s'),
        }
    }
}

#[test]
fn cancel_with_false_does_not_cancel() {
    let mut log: Vec<char> = Vec::new();
    let mut world: HandlerRegistry<SoftCancel> = HandlerRegistry::new();
    world.add_handler(SoftCancel::TriesFalse.priority(First), &mut log);
    world.add_handler(SoftCancel::StillRuns.priority(Last), &mut log);

    let (cancelled, _) = world.post(Note, &mut log);
    assert!(!cancelled);
    assert_eq!(log, vec!['f', 's']);
}

struct TickCounter;

impl HandlerSystem<Tick, u32> for TickCounter {
    fn initialize(&mut self, _state: &mut u32) {}

    fn run<'event>(&mut self, event: Receive<'event, Tick>, ticks: &mut u32) {
        assert!(!event.cancelled());
        *ticks += 1;
    }
}

#[test]
fn uncancellable_kind_runs_every_handler() {
    let mut world: HandlerRegistry<TickCounter> = HandlerRegistry::new();
    let mut ticks: u32 = 0;
    world.add_handler(TickCounter, &mut ticks);
    world.add_handler(TickCounter, &mut ticks);
    world.add_handler(TickCounter, &mut ticks);

    world.post(Tick, &mut ticks);
    assert_eq!(ticks, 3);
}

#[test]
fn deferred_commands_apply_in_fifo_order_exactly_once() {
    let mut log: Vec<char> = Vec::new();
    let mut world: HandlerRegistry<LogAbc> = HandlerRegistry::new();
    let mut queue: CommandQueue<Note, LogAbc> = CommandQueue::new();

    // The registration is queued before the dispatch: applying in FIFO
    // order means the handler is in place when the dispatch runs.
    queue.add_handler(LogAbc::A);
    queue.post(Note);
    queue.apply_all(&mut world, &mut log);
    assert_eq!(log, vec!['a']);

    // The queue was drained: applying again does nothing.
    queue.apply_all(&mut world, &mut log);
    assert_eq!(log, vec!['a']);
}

#[test]
fn named_priorities_span_the_scale() {
    assert_eq!(First.priority(), i32::MAX);
    assert_eq!(Early.priority(), i32::MAX / 2);
    assert_eq!(Pre.priority(), i32::MAX / 4);
    assert_eq!(Normal.priority(), 0);
    assert_eq!(Post.priority(), i32::MIN / 4);
    assert_eq!(Late.priority(), i32::MIN / 2);
    assert_eq!(Last.priority(), i32::MIN);
    assert_eq!(17i32.priority(), 17);
}

#[test]
fn receive_exposes_event_cancellation_and_writes_back() {
    let mut gauge = Gauge(1);
    let mut cancellation = false;
    let audience = ();
    {
        let mut input: Receive<'_, Gauge> =
            Receive::new(EventView::Exclusive(&mut gauge), &mut cancellation, &audience);
        assert_eq!(input.event().0, 1);
        input.event_mut().0 = 9;
        assert_eq!(input.event().0, 9);
        assert!(!input.cancelled());
        input.cancel();
        assert!(input.cancelled());
    }
    assert_eq!(gauge.0, 9);
    assert!(cancellation);
}

#[test]
fn commands_apply_individually() {
    let mut log: Vec<char> = Vec::new();
    let mut world: HandlerRegistry<LogAbc> = HandlerRegistry::new();

    let add = AddHandler::new(HandlerConfig::new(LogAbc::B));
    add.apply(&mut world, &mut log);
    assert_eq!(world.handlers().len(), 1);
    assert_eq!(log, vec![]);

    let post = PostEvent::new(Note, ());
    post.apply(&mut world, &mut log);
    assert_eq!(log, vec!['b']);
}

#[test]
fn intermediate_priorities_order_correctly() {
    let mut log: Vec<char> = Vec::new();
    let mut world: HandlerRegistry<LogAbc> = HandlerRegistry::new();
    world.add_handler(LogAbc::C.priority(Late), &mut log);
    world.add_handler(LogAbc::A.priority(Pre), &mut log);
    world.add_handler(LogAbc::B.priority(Post), &mut log);
    assert_eq!(world.handlers().len(), 3);

    let (cancelled, _) = world.post(Note, &mut log);
    assert!(!cancelled);
    assert_eq!(log, vec!['a', 'b', 'c']);
}

#[test]
fn mutable_no_listener_leaves_event_unchanged() {
    let mut world: HandlerRegistry<Editor> = HandlerRegistry::new();
    let mut state = ();

    let mut gauge = Gauge(13);
    let (cancelled, _) = world.post_mut(&mut gauge, &mut state);
    assert!(!cancelled);
    assert_eq!(gauge.0, 13);
}

#[test]
fn cancel_with_reason_overwrites_an_earlier_reason() {
    let mut reason: Option<i32> = Some(3);
    let mut quit = Quit;
    let audience = ();
    {
        let mut input: Receive<'_, Quit> =
            Receive::new(EventView::Shared(&quit), &mut reason, &audience);
        assert!(input.cancelled());
        input.cancel_with(9);
        assert!(input.cancelled());
    }
    assert_eq!(reason, Some(9));
    let _ = &mut quit;
}
