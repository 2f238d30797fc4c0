//! The table of who waits for which event, and the choice of what runs when events
//! are ready.
//!
//! Waiting for events is left to the caller. It hands over the events that are ready,
//! and gets back those that a subscriber has asked for, in the order in which they
//! are to be handled; what no subscriber has asked for is not handled.
use vstd::prelude::*;

verus! {

/// Where an event comes from.
#[derive(Copy, Clone, Debug, PartialEq, Eq, Structural)]
pub enum EventSource {
    /// The driver has started the device.
    Activate,
    /// The guest has notified the queue with this index.
    Queue(u32),
    /// The timer of the rate limiter with this index has fired.
    RateLimiter(u32),
    /// The host interface has a frame to read.
    Tap,
    /// The timer of the statistics has fired.
    StatsTimer,
    /// The storage backend has completed requests.
    AsyncCompletion,
    /// The input of the serial port has data.
    SerialInput,
}

/// An event of a subscriber.
#[derive(Copy, Clone, Debug, PartialEq, Eq, Structural)]
pub struct Event {
    /// Who the event is for.
    pub subscriber: u32,
    /// Where the event comes from.
    pub source: EventSource,
}

/// The events of `ready` among the first `n` that are in `wanted`, in order.
pub open spec fn spec_dispatch(wanted: Seq<Event>, ready: Seq<Event>, n: nat) -> Seq<Event>
    decreases n,
{
    if n == 0 {
        Seq::<Event>::empty()
    } else if wanted.contains(ready[n - 1]) {
        spec_dispatch(wanted, ready, (n - 1) as nat).push(ready[n - 1])
    } else {
        spec_dispatch(wanted, ready, (n - 1) as nat)
    }
}

/// Every event that is dispatched is one that was asked for and that was ready.
pub proof fn lemma_dispatch_sound(wanted: Seq<Event>, ready: Seq<Event>, n: nat)
    requires
        n <= ready.len(),
    ensures
        spec_dispatch(wanted, ready, n).len() <= n,
        forall|k: int|
            0 <= k < spec_dispatch(wanted, ready, n).len() ==> wanted.contains(
                #[trigger] spec_dispatch(wanted, ready, n)[k],
            ) && ready.contains(spec_dispatch(wanted, ready, n)[k]),
    decreases n,
{
    if n > 0 {
        lemma_dispatch_sound(wanted, ready, (n - 1) as nat);
        let before = spec_dispatch(wanted, ready, (n - 1) as nat);
        let now = spec_dispatch(wanted, ready, n);
        assert forall|k: int| 0 <= k < now.len() implies wanted.contains(#[trigger] now[k])
            && ready.contains(now[k]) by {
            if k < before.len() {
                assert(now[k] == before[k]);
            } else {
                assert(now[k] == ready[n - 1]);
            }
        }
    }
}

/// The subscriptions after `event` was asked for: an event that is asked for already
/// is not asked for twice.
pub open spec fn spec_add(events: Seq<Event>, event: Event) -> Seq<Event> {
    if events.contains(event) {
        events
    } else {
        events.push(event)
    }
}

/// The subscriptions after `subscriber` has asked for the first `n` of `sources`, one
/// after the other.
pub open spec fn spec_add_all(events: Seq<Event>, subscriber: u32, sources: Seq<EventSource>, n: nat) -> Seq<
    Event,
>
    decreases n,
{
    if n == 0 {
        events
    } else {
        spec_add(
            spec_add_all(events, subscriber, sources, (n - 1) as nat),
            Event { subscriber, source: sources[n - 1] },
        )
    }
}

/// The table of subscriptions.
#[derive(Clone, Debug)]
pub struct EventManager {
    subscriptions: Vec<Event>,
}

impl View for EventManager {
    type V = Seq<Event>;

    closed spec fn view(&self) -> Seq<Event> {
        self.subscriptions@
    }
}

impl EventManager {
    /// A table without subscriptions.
    pub fn new() -> (m: Self)
        ensures
            m@ == Seq::<Event>::empty(),
    {
        EventManager { subscriptions: Vec::new() }
    }

    /// Says whether the event was asked for.
    pub fn is_registered(&self, event: Event) -> (b: bool)
        ensures
            b == self@.contains(event),
    {
        let mut i: usize = 0;
        while i < self.subscriptions.len()
            invariant
                i <= self.subscriptions@.len(),
                forall|k: int| 0 <= k < i ==> self.subscriptions@[k] != event,
            decreases self.subscriptions@.len() - i,
        {
            if self.subscriptions[i] == event {
                return true;
            }
            i = i + 1;
        }
        false
    }

    /// Takes note that `subscriber` waits for events from `source`. An event that is
    /// asked for already is not asked for twice.
    pub fn add(&mut self, subscriber: u32, source: EventSource)
        ensures
            final(self)@ == spec_add(old(self)@, Event { subscriber, source }),
    {
        let event = Event { subscriber, source };
        if !self.is_registered(event) {
            self.subscriptions.push(event);
        }
    }

    /// Takes note that `subscriber` waits for events from each of `sources`, in their
    /// order. Afterwards the table holds what it held before and what was asked for
    /// now, and nothing else.
    pub fn add_all(&mut self, subscriber: u32, sources: &Vec<EventSource>)
        ensures
            final(self)@ == spec_add_all(old(self)@, subscriber, sources@, sources@.len()),
            forall|e: Event| old(self)@.contains(e) ==> final(self)@.contains(e),
            forall|k: int|
                0 <= k < sources@.len() ==> final(self)@.contains(
                    Event { subscriber, source: #[trigger] sources@[k] },
                ),
            forall|e: Event|
                final(self)@.contains(e) ==> old(self)@.contains(e) || (e.subscriber == subscriber
                    && sources@.contains(e.source)),
    {
        let mut i: usize = 0;
        while i < sources.len()
            invariant
                i <= sources@.len(),
                self@ == spec_add_all(old(self)@, subscriber, sources@, i as nat),
                forall|e: Event| old(self)@.contains(e) ==> self@.contains(e),
                forall|k: int|
                    0 <= k < i ==> self@.contains(Event { subscriber, source: #[trigger] sources@[k] }),
                forall|e: Event|
                    self@.contains(e) ==> old(self)@.contains(e) || (e.subscriber == subscriber
                        && sources@.contains(e.source)),
            decreases sources@.len() - i,
        {
            let ghost before = self@;
            self.add(subscriber, sources[i]);
            proof {
                let added = Event { subscriber, source: sources@[i as int] };
                assert forall|e: Event| before.contains(e) implies self@.contains(e) by {
                    let k = choose|k: int| 0 <= k < before.len() && before[k] == e;
                    assert(self@[k] == e);
                }
                assert(self@.contains(added)) by {
                    if before.contains(added) {
                    } else {
                        assert(self@[before.len() as int] == added);
                    }
                }
                assert forall|e: Event| self@.contains(e) implies old(self)@.contains(e) || (
                e.subscriber == subscriber && sources@.contains(e.source)) by {
                    let k = choose|k: int| 0 <= k < self@.len() && self@[k] == e;
                    if k < before.len() {
                        assert(before[k] == e);
                        assert(before.contains(e));
                    } else {
                        assert(e == added);
                        assert(sources@[i as int] == e.source);
                    }
                }
            }
            i = i + 1;
        }
    }

    /// Forgets all that `subscriber` waits for.
    pub fn remove_subscriber(&mut self, subscriber: u32)
        ensures
            final(self)@ == old(self)@.filter(|e: Event| e.subscriber != subscriber),
    {
        let mut kept: Vec<Event> = Vec::new();
        let mut i: usize = 0;
        let ghost keep = |e: Event| e.subscriber != subscriber;
        proof {
            assert(self.subscriptions@.take(0) =~= Seq::<Event>::empty());
            reveal(Seq::filter);
        }
        while i < self.subscriptions.len()
            invariant
                i <= self.subscriptions@.len(),
                keep == (|e: Event| e.subscriber != subscriber),
                kept@ == self.subscriptions@.take(i as int).filter(keep),
                self.subscriptions == old(self).subscriptions,
            decreases self.subscriptions@.len() - i,
        {
            let e = self.subscriptions[i];
            proof {
                assert(self.subscriptions@.take(i as int + 1).drop_last()
                    == self.subscriptions@.take(i as int));
                assert(self.subscriptions@.take(i as int + 1).last() == e);
                reveal(Seq::filter);
            }
            if e.subscriber != subscriber {
                kept.push(e);
            }
            i = i + 1;
        }
        proof {
            assert(self.subscriptions@.take(self.subscriptions@.len() as int)
                == self.subscriptions@);
        }
        self.subscriptions = kept;
    }

    /// Chooses what runs for the events that are ready: those that were asked for, in
    /// the order in which they are ready. If nothing is ready, as after a wait that
    /// has timed out, nothing runs.
    pub fn run_with_timeout(&self, ready: &Vec<Event>) -> (to_run: Vec<Event>)
        ensures
            to_run@ == spec_dispatch(self@, ready@, ready@.len()),
            to_run@.len() <= ready@.len(),
            ready@.len() == 0 ==> to_run@.len() == 0,
    {
        let mut to_run: Vec<Event> = Vec::new();
        let mut i: usize = 0;
        while i < ready.len()
            invariant
                i <= ready@.len(),
                to_run@ == spec_dispatch(self@, ready@, i as nat),
            decreases ready@.len() - i,
        {
            if self.is_registered(ready[i]) {
                to_run.push(ready[i]);
            }
            i = i + 1;
        }
        proof {
            lemma_dispatch_sound(self@, ready@, ready@.len());
        }
        to_run
    }
}

} // verus!
