//! The per-event-kind handler registry: a priority-ordered collection of
//! handler configurations.
//!
//! The registry keeps its entries as one sequence sorted by priority, highest
//! first; the entries sharing a priority form a contiguous run — the bucket
//! for that priority — in which insertion order is preserved.  New entries go
//! in after every entry of equal or higher priority, so the sequence itself
//! is the dispatch order: highest priority bucket to lowest, and within a
//! bucket, registration order.

use vstd::prelude::*;
use vstd::seq_lib::*;

use crate::config::{HandlerConfig, IntoHandlerConfig};
use crate::event::Event;
use crate::system::HandlerSystem;

verus! {

broadcast use crate::config::lemma_config_priority, crate::config::lemma_config_handler;

/// Whether `s` is sorted from highest value to lowest.
pub open spec fn sorted_desc(s: Seq<i32>) -> bool {
    forall|i: int, j: int| 0 <= i <= j < s.len() ==> s[i] >= s[j]
}

/// The position a new entry of priority `p` takes in the priority sequence
/// `s`: after every entry of priority at least `p`, before the rest.
pub open spec fn insertion_point(s: Seq<i32>, p: i32) -> int
    decreases s.len(),
{
    if s.len() == 0 {
        0
    } else if s[0] >= p {
        1 + insertion_point(s.drop_first(), p)
    } else {
        0
    }
}

/// The insertion point lies within the sequence, and its prefix holds
/// exactly the entries whose priority is at least `p`.
///
/// The suffix claim needs `s` sorted; the prefix claim holds regardless.
pub proof fn lemma_insertion_point_splits(s: Seq<i32>, p: i32)
    requires
        sorted_desc(s),
    ensures
        0 <= insertion_point(s, p) <= s.len(),
        forall|j: int| 0 <= j < insertion_point(s, p) ==> s[j] >= p,
        forall|j: int| insertion_point(s, p) <= j < s.len() ==> s[j] < p,
    decreases s.len(),
{
    if s.len() == 0 {
    } else if s[0] >= p {
        assert(forall|i: int, j: int|
            0 <= i <= j < s.drop_first().len() ==> s.drop_first()[i] >= s.drop_first()[j]);
        lemma_insertion_point_splits(s.drop_first(), p);
        assert forall|j: int| 0 <= j < insertion_point(s, p) implies s[j] >= p by {
            if j > 0 {
                assert(s.drop_first()[j - 1] >= p);
            }
        }
        assert forall|j: int| insertion_point(s, p) <= j < s.len() implies s[j] < p by {
            assert(s.drop_first()[j - 1] < p);
        }
    } else {
        assert forall|j: int| 0 <= j < s.len() implies s[j] < p by {
            assert(s[0] >= s[j] || j == 0);
        }
    }
}

/// A linear scan that stops at the first entry of priority below `p` stops
/// exactly at the insertion point.
proof fn lemma_scan_finds_insertion_point(s: Seq<i32>, p: i32, i: int)
    requires
        0 <= i <= s.len(),
        forall|j: int| 0 <= j < i ==> s[j] >= p,
        i < s.len() ==> s[i] < p,
    ensures
        insertion_point(s, p) == i,
    decreases s.len(),
{
    if i == 0 {
    } else {
        assert(s[0] >= p);
        lemma_scan_finds_insertion_point(s.drop_first(), p, i - 1);
    }
}

/// Inserting an entry at its insertion point keeps the sequence sorted.
pub proof fn lemma_insert_keeps_sorted(s: Seq<i32>, p: i32)
    requires
        sorted_desc(s),
    ensures
        sorted_desc(s.insert(insertion_point(s, p), p)),
{
    let ip = insertion_point(s, p);
    lemma_insertion_point_splits(s, p);
    s.insert_ensures(ip, p);
    let t = s.insert(ip, p);
    assert forall|i: int, j: int| 0 <= i <= j < t.len() implies t[i] >= t[j] by {
        if i < ip {
            assert(t[i] == s[i]);
        }
        if j < ip {
            assert(t[j] == s[j]);
        }
        if i > ip {
            assert(t[i] == s[i - 1]);
        }
        if j > ip {
            assert(t[j] == s[j - 1]);
        }
    }
}

/// The priority-ordering law: in a well-formed registry the dispatch-order
/// sequence never places a lower-priority handler before a higher-priority
/// one, whatever order the handlers were registered in.
pub proof fn lemma_priority_ordering<H>(r: HandlerRegistry<H>, i: int, j: int)
    requires
        r.wf(),
        0 <= i <= j < r@.len(),
    ensures
        r@[i].spec_priority() >= r@[j].spec_priority(),
{
    assert(r.prios()[i] == r@[i].spec_priority());
    assert(r.prios()[j] == r@[j].spec_priority());
    assert(r.prios()[i] >= r.prios()[j]);
}

/// The insertion-order tie-break law: a newly registered handler stands
/// after every already-registered handler of the same (or higher) priority,
/// and the relative order of the already-registered handlers is unchanged.
/// Registration order therefore decides the order within one priority.
pub proof fn lemma_insertion_order_tie_break(s: Seq<i32>, p: i32)
    requires
        sorted_desc(s),
    ensures
        forall|j: int| 0 <= j < s.len() && s[j] >= p ==> j < insertion_point(s, p),
        forall|j: int|
            0 <= j < insertion_point(s, p) ==> s.insert(insertion_point(s, p), p)[j] == #[trigger] s[j],
        forall|j: int|
            insertion_point(s, p) <= j < s.len() ==> s.insert(insertion_point(s, p), p)[j + 1]
                == #[trigger] s[j],
{
    lemma_insertion_point_splits(s, p);
    s.insert_ensures(insertion_point(s, p), p);
}

/// The registry of handlers for one [`Event`] kind, ordered by priority.
///
/// Its view `self@` is the dispatch-order sequence of handler
/// configurations; [`HandlerRegistry::wf`] says that sequence is sorted by
/// priority, highest first.  Insertion is the only mutation: the registry
/// grows monotonically and never drops an entry.
pub struct HandlerRegistry<H> {
    handlers: Vec<HandlerConfig<H>>,
}

impl<H> View for HandlerRegistry<H> {
    type V = Seq<HandlerConfig<H>>;

    closed spec fn view(&self) -> Seq<HandlerConfig<H>> {
        self.handlers@
    }
}

impl<H> HandlerRegistry<H> {
    /// The priorities of the registered handlers, in dispatch order.
    pub open spec fn prios(self) -> Seq<i32> {
        self@.map_values(|c: HandlerConfig<H>| c.spec_priority())
    }

    /// Well-formedness: the registry is sorted by priority, highest first.
    pub open spec fn wf(self) -> bool {
        sorted_desc(self.prios())
    }

    /// Creates an empty registry.
    pub fn new() -> (r: Self)
        ensures
            r@ =~= Seq::<HandlerConfig<H>>::empty(),
            r.wf(),
    {
        HandlerRegistry { handlers: Vec::new() }
    }

    /// Inserts a handler into the registry, after every handler of equal or
    /// higher priority and before every handler of lower priority.
    pub fn insert(&mut self, config: HandlerConfig<H>)
        requires
            old(self).wf(),
        ensures
            final(self).wf(),
            final(self)@ == old(self)@.insert(
                insertion_point(old(self).prios(), config.spec_priority()),
                config,
            ),
            final(self).prios() == old(self).prios().insert(
                insertion_point(old(self).prios(), config.spec_priority()),
                config.spec_priority(),
            ),
    {
        let n = self.handlers.len();
        let mut i: usize = 0;
        while i < n && self.handlers[i].priority >= config.priority
            invariant
                0 <= i <= n,
                n == self.handlers.len(),
                *self == *old(self),
                forall|j: int| 0 <= j < i ==> old(self).prios()[j] >= config.spec_priority(),
            decreases n - i,
        {
            proof {
                assert(old(self).prios()[i as int] == old(self)@[i as int].spec_priority());
            }
            i += 1;
        }
        proof {
            assert(self.prios().len() == self@.len());
            if (i as int) < self@.len() {
                assert(self.prios()[i as int] == self@[i as int].spec_priority());
            }
            lemma_scan_finds_insertion_point(
                self.prios(),
                config.spec_priority(),
                i as int,
            );
            lemma_insert_keeps_sorted(self.prios(), config.spec_priority());
        }
        let ghost ip = insertion_point(self.prios(), config.spec_priority());
        let ghost before = self.handlers@;
        self.handlers.insert(i, config);
        proof {
            before.insert_ensures(ip, config);
            before.map_values(|c: HandlerConfig<H>| c.spec_priority()).insert_ensures(
                ip,
                config.spec_priority(),
            );
            assert(self.prios() =~= before.map_values(
                |c: HandlerConfig<H>| c.spec_priority(),
            ).insert(ip, config.spec_priority()));
        }
    }

    /// Returns the registered handler configurations, from highest to lowest
    /// priority and in registration order within one priority.  This
    /// ordering is the dispatch order and is a user-visible contract.
    pub fn handlers(&self) -> (r: &Vec<HandlerConfig<H>>)
        ensures
            r@ == self@,
    {
        &self.handlers
    }

    /// Exclusive access to one registered handler, for the dispatch engine:
    /// everything else about the registry — its length, every priority, and
    /// every other entry — stays as it was.
    pub(crate) fn handler_mut(&mut self, i: usize) -> (r: &mut H)
        requires
            i < old(self)@.len(),
        ensures
            *r == old(self)@[i as int].spec_handler(),
            final(self)@.len() == old(self)@.len(),
            final(self)@[i as int].spec_handler() == *final(r),
            final(self)@[i as int].spec_priority() == old(self)@[i as int].spec_priority(),
            forall|k: int|
                0 <= k < old(self)@.len() && k != i ==> final(self)@[k] == old(self)@[k],
            final(self).prios() == old(self).prios(),
            final(self).wf() == old(self).wf(),
    {
        &mut self.handlers[i].handler
    }

    /// Registers a handler: converts it into its configuration, runs its
    /// one-time initialization hook, and inserts it.  Registration cannot
    /// fail, and the initialization hook runs before the handler is
    /// reachable by dispatch.
    pub fn add_handler<E: Event, S, Marker, C>(&mut self, handler: C, state: &mut S) where
        E: Event,
        C: IntoHandlerConfig<E, S, Marker, Handler = H>,
        H: HandlerSystem<E, S>,

        requires
            old(self).wf(),
        ensures
            final(self).wf(),
            final(self).prios() == old(self).prios().insert(
                insertion_point(old(self).prios(), handler.spec_config().spec_priority()),
                handler.spec_config().spec_priority(),
            ),
            final(self)@.len() == old(self)@.len() + 1,
            forall|k: int|
                0 <= k < insertion_point(old(self).prios(), handler.spec_config().spec_priority())
                    ==> final(self)@[k] == old(self)@[k],
            forall|k: int|
                insertion_point(old(self).prios(), handler.spec_config().spec_priority()) <= k
                    < old(self)@.len() ==> final(self)@[k + 1] == old(self)@[k],
            final(self)@[insertion_point(
                old(self).prios(),
                handler.spec_config().spec_priority(),
            )].spec_priority() == handler.spec_config().spec_priority(),
    {
        let mut config = handler.into_config();
        config.handler.initialize(state);
        let ghost before = self@;
        let ghost cfg = config;
        proof {
            lemma_insertion_point_splits(self.prios(), cfg.spec_priority());
        }
        self.insert(config);
        proof {
            before.insert_ensures(
                insertion_point(
                    before.map_values(|c: HandlerConfig<H>| c.spec_priority()),
                    cfg.spec_priority(),
                ),
                cfg,
            );
        }
    }
}

/// The default registry is empty.
impl<H> Default for HandlerRegistry<H> {
    fn default() -> (r: Self)
        ensures
            r@ =~= Seq::<HandlerConfig<H>>::empty(),
            r.wf(),
    {
        HandlerRegistry::new()
    }
}

} // verus!
