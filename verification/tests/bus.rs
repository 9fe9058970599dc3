//! End-to-end exercises of registration, dispatch, cancellation and
//! deferred commands.

use event_bus::{
    CommandQueue, Event, HandlerRegistry, Immutable, IntoHandlerConfig, Mutable, Receive, Tick,
};
use event_bus::{Early, First, Last};
use event_bus::HandlerSystem;

struct Bar;

impl Event for Bar {
    type Cancellation = bool;
    type Audience = ();
    type Mutability = Mutable;
}

struct Baz;

impl Event for Baz {
    type Cancellation = bool;
    type Audience = ();
    type Mutability = Immutable;
}

struct Counter(i32);

impl Counter {
    fn assert_order(&mut self, expected: i32) {
        assert_eq!(self.0, expected);
        self.0 += 1;
    }
}

struct CancelSystem;

impl HandlerSystem<Bar, ()> for CancelSystem {
    fn initialize(&mut self, _state: &mut ()) {}

    fn run<'event>(&mut self, mut event: Receive<'event, Bar>, _state: &mut ()) {
        event.cancel();
    }
}

#[test]
fn event_cancellation_simple() {
    let mut world: HandlerRegistry<CancelSystem> = HandlerRegistry::new();
    let mut state = ();
    world.add_handler(CancelSystem, &mut state);

    let (cancelled, _) = world.post(Bar, &mut state);
    assert!(cancelled);
}

enum StepSystem {
    Step1,
    Step2,
    Step3,
}

impl HandlerSystem<Bar, ()> for StepSystem {
    fn initialize(&mut self, _state: &mut ()) {}

    fn run<'event>(&mut self, mut event: Receive<'event, Bar>, _state: &mut ()) {
        match self {
            StepSystem::Step1 => {
                assert!(!event.cancelled());
            }
            StepSystem::Step2 => {
                assert!(!event.cancelled());
                event.cancel();
                assert!(event.cancelled());
            }
            StepSystem::Step3 => {
                unreachable!();
            }
        }
    }
}

#[test]
fn event_cancellation_multistep() {
    let mut world: HandlerRegistry<StepSystem> = HandlerRegistry::new();
    let mut state = ();
    world.add_handler(StepSystem::Step1, &mut state);
    world.add_handler(StepSystem::Step2, &mut state);
    world.add_handler(StepSystem::Step3, &mut state);

    let (cancelled, _) = world.post(Bar, &mut state);
    assert!(cancelled);
}

enum OrderedSystem {
    System1,
    System2,
    System3,
}

impl HandlerSystem<Bar, Counter> for OrderedSystem {
    fn initialize(&mut self, _state: &mut Counter) {}

    fn run<'event>(&mut self, _event: Receive<'event, Bar>, counter: &mut Counter) {
        match self {
            OrderedSystem::System1 => counter.assert_order(0),
            OrderedSystem::System2 => counter.assert_order(1),
            OrderedSystem::System3 => counter.assert_order(2),
        }
    }
}

#[test]
fn event_priority() {
    let mut world: HandlerRegistry<OrderedSystem> = HandlerRegistry::new();
    let mut counter = Counter(0);
    world.add_handler(OrderedSystem::System2.priority(Early), &mut counter);
    world.add_handler(OrderedSystem::System3.priority(Last), &mut counter);
    world.add_handler(OrderedSystem::System1.priority(First), &mut counter);

    world.post(Bar, &mut counter);
    assert_eq!(counter.0, 3);
}

struct BazSystem;

impl HandlerSystem<Baz, Counter> for BazSystem {
    fn initialize(&mut self, _state: &mut Counter) {}

    fn run<'event>(&mut self, _event: Receive<'event, Baz>, counter: &mut Counter) {
        counter.assert_order(1);
    }
}

struct ChainState {
    counter: Counter,
    baz_registry: HandlerRegistry<BazSystem>,
    baz_queue: CommandQueue<Baz, BazSystem>,
}

enum ChainSystem {
    System1,
    System3,
}

impl HandlerSystem<Bar, ChainState> for ChainSystem {
    fn initialize(&mut self, _state: &mut ChainState) {}

    fn run<'event>(&mut self, _event: Receive<'event, Bar>, state: &mut ChainState) {
        match self {
            ChainSystem::System1 => {
                state.counter.assert_order(0);
                // Posting from inside a running handler goes through the
                // deferred queue; the host drains it at this handler's end,
                // its synchronization boundary.
                state.baz_queue.post(Baz);
                state.baz_queue.apply_all(&mut state.baz_registry, &mut state.counter);
            }
            ChainSystem::System3 => {
                state.counter.assert_order(2);
            }
        }
    }
}

#[test]
fn event_ordering() {
    let mut counter = Counter(0);
    let mut baz_registry: HandlerRegistry<BazSystem> = HandlerRegistry::new();
    baz_registry.add_handler(BazSystem, &mut counter);

    let mut world: HandlerRegistry<ChainSystem> = HandlerRegistry::new();
    let mut state = ChainState {
        counter,
        baz_registry,
        baz_queue: CommandQueue::new(),
    };
    world.add_handler(ChainSystem::System1, &mut state);
    world.add_handler(ChainSystem::System3, &mut state);

    world.post(Bar, &mut state);
    assert_eq!(state.counter.0, 3);
}

struct TickState {
    bar_queue: CommandQueue<Bar, CancelSystem>,
}

struct NormalSystem;

impl HandlerSystem<Tick, TickState> for NormalSystem {
    fn initialize(&mut self, _state: &mut TickState) {}

    fn run<'event>(&mut self, _event: Receive<'event, Tick>, state: &mut TickState) {
        state.bar_queue.post(Bar);
    }
}

#[test]
fn normal_system() {
    let mut world: HandlerRegistry<NormalSystem> = HandlerRegistry::new();
    let mut state = TickState { bar_queue: CommandQueue::new() };
    world.add_handler(NormalSystem, &mut state);
}
