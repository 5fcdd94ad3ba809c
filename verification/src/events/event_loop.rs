use vstd::prelude::*;
use rustc_hash::FxHashMap;
use crate::events::event::{DispatchKey, Event};
use crate::events::event_provider::EventProvider;
use crate::renders::base::render::Render;
use crate::table::{table_get, table_insert, table_new};

verus! {

broadcast use vstd::std_specs::hash::group_hash_axioms;

/// One thing that the loop did, as its history records it.
pub enum Step {
    /// The provider number `provider` was polled and appended `provided`.
    Poll { provider: int, provided: Seq<Event> },
    /// The listener number `listener` of the event's key was called with
    /// `event`. `index` is the place of the event among the events of its
    /// frame; the tick of the frame has the place after the last of them.
    Call { event: Event, index: int, listener: int },
    /// The frame was rendered.
    Render,
}

/// How many listeners are registered under the key with the number `code`.
pub open spec fn count_of(counts: Map<u64, nat>, code: u64) -> nat {
    if counts.contains_key(code) {
        counts[code]
    } else {
        0
    }
}

/// The polls of the providers in the order of their registration, where the
/// provider number `i` appended `batches[i]`.
pub open spec fn polls(batches: Seq<Seq<Event>>) -> Seq<Step> {
    Seq::new(batches.len(), |i: int| Step::Poll { provider: i, provided: batches[i] })
}

/// What the first `n` providers appended, one provider's events after those of
/// the providers before it.
pub open spec fn gathered(batches: Seq<Seq<Event>>, n: nat) -> Seq<Event>
    decreases n,
{
    if n == 0 || n > batches.len() {
        Seq::empty()
    } else {
        gathered(batches, (n - 1) as nat) + batches[n - 1]
    }
}

/// The events of a frame: what the providers appended, in the order of the
/// providers, and after it what listeners raised during the frame before.
pub open spec fn frame_events(batches: Seq<Seq<Event>>, pending: Seq<Event>) -> Seq<Event> {
    gathered(batches, batches.len()) + pending
}

/// What the first `n` providers appended does not depend on the later ones.
proof fn lemma_gathered_prefix(batches: Seq<Seq<Event>>, more: Seq<Event>, n: nat)
    requires
        n <= batches.len(),
    ensures
        gathered(batches.push(more), n) == gathered(batches, n),
    decreases n,
{
    if n > 0 {
        lemma_gathered_prefix(batches, more, (n - 1) as nat);
    }
}

/// The calls of the listeners `0..count` with `event`, in the order in which the
/// listeners were registered.
pub open spec fn calls(event: Event, index: int, count: nat) -> Seq<Step> {
    Seq::new(count, |j: int| Step::Call { event, index, listener: j })
}

/// One of the events before place `n` asks the loop to stop.
pub open spec fn exits_before(events: Seq<Event>, n: int) -> bool {
    exists|i: int| 0 <= i < n && i < events.len() && (#[trigger] events[i]).spec_key() == DispatchKey::Exit
}

/// What draining the events before place `n` does: each event is handed to the
/// listeners of its key, in the order of the events, up to and including the
/// first that asks the loop to stop. The events after that one are dropped.
pub open spec fn drained(events: Seq<Event>, counts: Map<u64, nat>, n: nat) -> Seq<Step>
    decreases n,
{
    if n == 0 || n > events.len() {
        Seq::empty()
    } else if exits_before(events, n - 1) {
        drained(events, counts, (n - 1) as nat)
    } else {
        drained(events, counts, (n - 1) as nat) + calls(
            events[n - 1],
            n - 1,
            count_of(counts, events[n - 1].spec_hash_code()),
        )
    }
}

/// What the end of a frame does when no event asked the loop to stop: the tick
/// number `tick` is handed to its listeners, then the frame is rendered.
pub open spec fn tick_and_render(len: int, counts: Map<u64, nat>, tick: u64) -> Seq<Step> {
    calls(
        Event::Loop { tick },
        len,
        count_of(counts, DispatchKey::Loop.spec_code()),
    ).push(Step::Render)
}

/// What one frame does with the events that were gathered for it: they are
/// drained; then, unless one of them asked the loop to stop, the tick is handed
/// out and the frame is rendered.
pub open spec fn frame_steps(events: Seq<Event>, counts: Map<u64, nat>, tick: u64) -> Seq<Step> {
    if exits_before(events, events.len() as int) {
        drained(events, counts, events.len())
    } else {
        drained(events, counts, events.len()) + tick_and_render(events.len() as int, counts, tick)
    }
}

/// How long the loop rests after a frame that took `elapsed` milliseconds, so
/// that frames start at least `interval` milliseconds apart.
pub open spec fn rest(interval: u64, elapsed: u64) -> u64 {
    if interval > elapsed {
        (interval - elapsed) as u64
    } else {
        0
    }
}

/// The steps are calls of events before place `n`, each with a listener below
/// the count of its event's key.
pub open spec fn calls_before(steps: Seq<Step>, n: int) -> bool {
    forall|p: int| 0 <= p < steps.len() ==> (#[trigger] steps[p]) is Call && 0 <= steps[p]->index < n
}

/// The step `a` comes before the step `b` in the order of a frame: an earlier
/// event first, and for one event the listener registered earlier first.
pub open spec fn step_precedes(a: Step, b: Step) -> bool {
    a is Call && b is Call ==> a->index < b->index || (a->index == b->index && a->listener
        < b->listener)
}

/// Any two steps stand in the order of a frame.
pub open spec fn in_frame_order(steps: Seq<Step>) -> bool {
    forall|p: int, q: int| 0 <= p < q < steps.len() ==> step_precedes(#[trigger] steps[p], #[trigger] steps[q])
}

/// Draining calls only listeners of events before place `n`, in the order of a
/// frame, and none for an event that comes after one that asks to stop.
pub proof fn lemma_drained(events: Seq<Event>, counts: Map<u64, nat>, n: nat)
    requires
        n <= events.len(),
    ensures
        calls_before(drained(events, counts, n), n as int),
        in_frame_order(drained(events, counts, n)),
        forall|p: int, i: int|
            #![trigger drained(events, counts, n)[p], exits_before(events, i)]
            0 <= p < drained(events, counts, n).len() && exits_before(events, i) ==> drained(
                events,
                counts,
                n,
            )[p]->index < i,
    decreases n,
{
    if n > 0 {
        lemma_drained(events, counts, (n - 1) as nat);
        let earlier = drained(events, counts, (n - 1) as nat);
        let all = drained(events, counts, n);
        if !exits_before(events, n - 1) {
            let last = calls(
                events[n - 1],
                n - 1,
                count_of(counts, events[n - 1].spec_hash_code()),
            );
            assert(all == earlier + last);
            assert forall|p: int| 0 <= p < all.len() implies (#[trigger] all[p]) is Call && 0
                <= all[p]->index < n by {
                if p < earlier.len() {
                    assert(all[p] == earlier[p]);
                } else {
                    assert(all[p] == last[p - earlier.len()]);
                }
            }
            assert forall|p: int, q: int| 0 <= p < q < all.len() implies step_precedes(
                #[trigger] all[p],
                #[trigger] all[q],
            ) by {
                if q < earlier.len() {
                    assert(all[p] == earlier[p]);
                    assert(all[q] == earlier[q]);
                } else if p < earlier.len() {
                    assert(all[p] == earlier[p]);
                    assert(all[q] == last[q - earlier.len()]);
                } else {
                    assert(all[p] == last[p - earlier.len()]);
                    assert(all[q] == last[q - earlier.len()]);
                }
            }
            assert forall|p: int, i: int|
                #![trigger all[p], exits_before(events, i)]
                0 <= p < all.len() && exits_before(events, i) implies all[p]->index < i by {
                if p < earlier.len() {
                    assert(all[p] == earlier[p]);
                } else {
                    assert(all[p] == last[p - earlier.len()]);
                    if i <= n - 1 {
                        let w = choose|w: int|
                            0 <= w < i && w < events.len() && (#[trigger] events[w]).spec_key()
                                == DispatchKey::Exit;
                        assert(exits_before(events, n - 1));
                    }
                }
            }
        }
    }
}

/// Once an event that asks to stop was drained, draining more adds nothing.
pub proof fn lemma_drained_stops(events: Seq<Event>, counts: Map<u64, nat>, stop: nat, n: nat)
    requires
        stop <= n <= events.len(),
        exits_before(events, stop as int),
    ensures
        drained(events, counts, n) == drained(events, counts, stop),
    decreases n,
{
    if n > stop {
        let w = choose|w: int|
            0 <= w < stop && w < events.len() && (#[trigger] events[w]).spec_key()
                == DispatchKey::Exit;
        assert(exits_before(events, n - 1));
        lemma_drained_stops(events, counts, stop, (n - 1) as nat);
    }
}

/// Within a frame the listeners are called in the order of the events, and for
/// one event in the order in which they were registered; the listeners of the
/// tick come after those of every event.
pub proof fn lemma_frame_order(events: Seq<Event>, counts: Map<u64, nat>, tick: u64)
    ensures
        in_frame_order(frame_steps(events, counts, tick)),
{
    lemma_drained(events, counts, events.len());
    let steps = frame_steps(events, counts, tick);
    let first = drained(events, counts, events.len());
    if !exits_before(events, events.len() as int) {
        let last = tick_and_render(events.len() as int, counts, tick);
        assert(steps == first + last);
        assert forall|p: int, q: int| 0 <= p < q < steps.len() implies step_precedes(
            #[trigger] steps[p],
            #[trigger] steps[q],
        ) by {
            if q < first.len() {
                assert(steps[p] == first[p]);
                assert(steps[q] == first[q]);
            } else if p < first.len() {
                assert(steps[p] == first[p]);
                assert(steps[q] == last[q - first.len()]);
            } else {
                assert(steps[p] == last[p - first.len()]);
                assert(steps[q] == last[q - first.len()]);
            }
        }
    }
}

/// An event that does not come after one that asks to stop is handed to every
/// listener registered under its key.
pub proof fn lemma_every_listener_called(
    events: Seq<Event>,
    counts: Map<u64, nat>,
    tick: u64,
    i: int,
    j: int,
)
    requires
        0 <= i < events.len(),
        !exits_before(events, i),
        0 <= j < count_of(counts, events[i].spec_hash_code()),
    ensures
        frame_steps(events, counts, tick).contains(
            Step::Call { event: events[i], index: i, listener: j },
        ),
{
    lemma_call_in_drained(events, counts, events.len(), i, j);
    let first = drained(events, counts, events.len());
    let step = Step::Call { event: events[i], index: i, listener: j };
    let p = choose|p: int| 0 <= p < first.len() && first[p] == step;
    let steps = frame_steps(events, counts, tick);
    assert(steps[p] == step);
}

/// The same, of the events before place `n`.
proof fn lemma_call_in_drained(events: Seq<Event>, counts: Map<u64, nat>, n: nat, i: int, j: int)
    requires
        0 <= i < n <= events.len(),
        !exits_before(events, i),
        0 <= j < count_of(counts, events[i].spec_hash_code()),
    ensures
        drained(events, counts, n).contains(Step::Call { event: events[i], index: i, listener: j }),
    decreases n,
{
    let step = Step::Call { event: events[i], index: i, listener: j };
    let all = drained(events, counts, n);
    if i == n - 1 {
        let earlier = drained(events, counts, (n - 1) as nat);
        assert(all[earlier.len() + j] == step);
    } else {
        lemma_call_in_drained(events, counts, (n - 1) as nat, i, j);
        let earlier = drained(events, counts, (n - 1) as nat);
        let p = choose|p: int| 0 <= p < earlier.len() && earlier[p] == step;
        assert(all[p] == step);
    }
}

/// Events with the same dispatch key reach the same listeners: as many, under
/// the same number.
pub proof fn lemma_same_key_same_listeners(counts: Map<u64, nat>, e1: Event, e2: Event)
    requires
        e1.spec_key() == e2.spec_key(),
    ensures
        e1.spec_hash_code() == e2.spec_hash_code(),
        count_of(counts, e1.spec_hash_code()) == count_of(counts, e2.spec_hash_code()),
{
}

/// Once an event that asks to stop is among the events of a frame, the frame
/// hands out no tick and is not rendered, and no event after that one reaches a
/// listener.
pub proof fn lemma_exit_ends_frame(events: Seq<Event>, counts: Map<u64, nat>, tick: u64, i: int)
    requires
        exits_before(events, i),
    ensures
        !frame_steps(events, counts, tick).contains(Step::Render),
        forall|p: int|
            0 <= p < frame_steps(events, counts, tick).len() ==> {
                &&& (#[trigger] frame_steps(events, counts, tick)[p]) is Call
                &&& frame_steps(events, counts, tick)[p]->index < i
                &&& frame_steps(events, counts, tick)[p]->index < events.len()
            },
{
    lemma_drained(events, counts, events.len());
    let w = choose|w: int|
        0 <= w < i && w < events.len() && (#[trigger] events[w]).spec_key() == DispatchKey::Exit;
    assert(exits_before(events, events.len() as int));
}

/// A frame and the rest after it together take at least the frame interval.
pub proof fn lemma_frame_pacing(interval: u64, elapsed: u64)
    ensures
        elapsed + rest(interval, elapsed) >= interval,
        elapsed >= interval ==> rest(interval, elapsed) == 0,
{
}

/// The loop: the scene handle, the renderer, the providers in the order of their
/// registration, the listeners by dispatch key, the buffer for events that
/// listeners raise, the frame interval and the tick counter.
///
/// The listener table maps the number of a dispatch key to the slot of the key's
/// listener list. The history is the record of what the loop has done; it is
/// there for the contracts and takes no room in the running program.
pub struct EventLoop<S, R, P, L> {
    scene: S,
    render: R,
    slots: FxHashMap<u64, usize>,
    listeners: Vec<Vec<L>>,
    event_providers: Vec<P>,
    millis_per_frame: u64,
    in_loop: Vec<Event>,
    tick: u64,
    history: Ghost<Seq<Step>>,
}

impl<S, R: Render<S>, P: EventProvider, L: FnMut(&Event, &mut Vec<Event>)> EventLoop<S, R, P, L> {
    /// How many listeners are registered, by the number of their dispatch key.
    pub closed spec fn listener_counts(&self) -> Map<u64, nat> {
        Self::counts_in(self.slots@, self.listeners)
    }

    /// The number of listeners by key, for a table and its listener lists.
    spec fn counts_in(slots: Map<u64, usize>, listeners: Vec<Vec<L>>) -> Map<u64, nat> {
        Map::new(
            |code: u64| slots.contains_key(code),
            |code: u64| listeners[slots[code] as int].len() as nat,
        )
    }

    /// Every key of the table has a listener list of its own, and every listener
    /// can be called with every event.
    spec fn table_wf(slots: Map<u64, usize>, listeners: Vec<Vec<L>>) -> bool {
        &&& forall|code: u64| #[trigger] slots.contains_key(code) ==> slots[code] < listeners.len()
        &&& forall|c1: u64, c2: u64|
            #![trigger slots[c1], slots[c2]]
            slots.contains_key(c1) && slots.contains_key(c2) && slots[c1] == slots[c2] ==> c1
                == c2
        &&& forall|s: int, j: int, e: &Event, b: &mut Vec<Event>|
            0 <= s < listeners.len() && 0 <= j < listeners[s].len() ==> #[trigger] call_requires(
                listeners[s][j],
                (e, b),
            )
    }

    /// The scene handle that the renderer is given.
    pub closed spec fn scene(&self) -> S {
        self.scene
    }

    /// The renderer.
    pub closed spec fn renderer(&self) -> R {
        self.render
    }

    /// How many providers are registered.
    pub closed spec fn provider_count(&self) -> nat {
        self.event_providers.len() as nat
    }

    /// The least time between the starts of two frames, in milliseconds.
    pub closed spec fn interval(&self) -> u64 {
        self.millis_per_frame
    }

    /// The number of the next tick: how many frames were completed.
    pub closed spec fn ticks(&self) -> u64 {
        self.tick
    }

    /// The events that listeners raised and that the next frame will drain.
    pub closed spec fn pending(&self) -> Seq<Event> {
        self.in_loop@
    }

    /// What the loop has done so far.
    pub closed spec fn history(&self) -> Seq<Step> {
        self.history@
    }

    /// The loop is valid: every key of the table has a listener list of its own,
    /// and every listener can be called with every event.
    pub closed spec fn wf(&self) -> bool {
        Self::table_wf(self.slots@, self.listeners)
    }

    /// A loop without providers and listeners that starts a frame at most
    /// `max_fps` times per second.
    pub fn new(scene: S, render: R, max_fps: u64) -> (l: Self)
        requires
            max_fps > 0,
        ensures
            l.wf(),
            l.scene() == scene,
            l.renderer() == render,
            l.listener_counts() == Map::<u64, nat>::empty(),
            l.provider_count() == 0,
            l.interval() == 1000u64 / max_fps,
            l.ticks() == 0,
            l.pending() == Seq::<Event>::empty(),
            l.history() == Seq::<Step>::empty(),
    {
        let l = EventLoop {
            scene,
            render,
            slots: table_new(),
            listeners: Vec::new(),
            event_providers: Vec::new(),
            millis_per_frame: 1000 / max_fps,
            in_loop: Vec::new(),
            tick: 0,
            history: Ghost(Seq::empty()),
        };
        assert(l.listener_counts() =~= Map::<u64, nat>::empty());
        l
    }

    /// The renderer, to read or to change.
    pub fn get_render(&mut self) -> (render: &mut R)
        ensures
            *render == old(self).renderer(),
            final(self).renderer() == *final(render),
            final(self).scene() == old(self).scene(),
            final(self).wf() == old(self).wf(),
            final(self).listener_counts() == old(self).listener_counts(),
            final(self).provider_count() == old(self).provider_count(),
            final(self).interval() == old(self).interval(),
            final(self).ticks() == old(self).ticks(),
            final(self).pending() == old(self).pending(),
            final(self).history() == old(self).history(),
    {
        &mut self.render
    }

    /// The scene handle.
    pub fn get_scene(&self) -> (scene: &S)
        ensures
            *scene == self.scene(),
    {
        &self.scene
    }

    /// The number of the next tick.
    pub fn get_tick(&self) -> (tick: u64)
        ensures
            tick == self.ticks(),
    {
        self.tick
    }

    /// Registers `f` for the events that have the dispatch key of `event`, after
    /// the listeners that are registered for them already.
    pub fn add_event_listener(&mut self, event: Event, f: L)
        requires
            old(self).wf(),
            forall|e: &Event, b: &mut Vec<Event>| call_requires(f, (e, b)),
        ensures
            final(self).wf(),
            final(self).listener_counts() == old(self).listener_counts().insert(
                event.spec_hash_code(),
                count_of(old(self).listener_counts(), event.spec_hash_code()) + 1,
            ),
            final(self).provider_count() == old(self).provider_count(),
            final(self).interval() == old(self).interval(),
            final(self).ticks() == old(self).ticks(),
            final(self).pending() == old(self).pending(),
            final(self).history() == old(self).history(),
            final(self).scene() == old(self).scene(),
            final(self).renderer() == old(self).renderer(),
    {
        let code = event.hash_code();
        let known = match table_get(&self.slots, &code) {
            Some(slot) => Some(*slot),
            None => None,
        };
        match known {
            Some(slot) => {
                self.listeners[slot].push(f);
            },
            None => {
                let slot = self.listeners.len();
                let mut list: Vec<L> = Vec::new();
                list.push(f);
                self.listeners.push(list);
                table_insert(&mut self.slots, code, slot);
            },
        }
        assert(self.listener_counts() =~= old(self).listener_counts().insert(
            code,
            count_of(old(self).listener_counts(), code) + 1,
        ));
    }

    /// Registers `provider`, to be polled after the providers that are
    /// registered already.
    pub fn add_event_provider(&mut self, provider: P)
        ensures
            final(self).wf() == old(self).wf(),
            final(self).provider_count() == old(self).provider_count() + 1,
            final(self).listener_counts() == old(self).listener_counts(),
            final(self).interval() == old(self).interval(),
            final(self).ticks() == old(self).ticks(),
            final(self).pending() == old(self).pending(),
            final(self).history() == old(self).history(),
            final(self).scene() == old(self).scene(),
            final(self).renderer() == old(self).renderer(),
    {
        self.event_providers.push(provider);
    }

    /// Sets the frame interval so that at most `max_fps` frames start per second.
    pub fn set_max_fps(&mut self, max_fps: u64)
        requires
            max_fps > 0,
        ensures
            final(self).wf() == old(self).wf(),
            final(self).interval() == 1000u64 / max_fps,
            final(self).provider_count() == old(self).provider_count(),
            final(self).listener_counts() == old(self).listener_counts(),
            final(self).ticks() == old(self).ticks(),
            final(self).pending() == old(self).pending(),
            final(self).history() == old(self).history(),
            final(self).scene() == old(self).scene(),
            final(self).renderer() == old(self).renderer(),
    {
        self.millis_per_frame = 1000 / max_fps;
    }

    /// Raises `event` from outside a listener: the next frame drains it after what
    /// the providers bring.
    pub fn throw_event(&mut self, event: Event)
        ensures
            final(self).wf() == old(self).wf(),
            final(self).pending() == old(self).pending().push(event),
            final(self).provider_count() == old(self).provider_count(),
            final(self).listener_counts() == old(self).listener_counts(),
            final(self).interval() == old(self).interval(),
            final(self).ticks() == old(self).ticks(),
            final(self).history() == old(self).history(),
            final(self).scene() == old(self).scene(),
            final(self).renderer() == old(self).renderer(),
    {
        self.in_loop.push(event);
    }

    /// Gathers the events of a frame: polls every provider, in the order of
    /// registration, and then takes the events that listeners raised during the
    /// frame before, which leaves their buffer empty.
    pub fn poll(&mut self) -> (events: Vec<Event>)
        requires
            old(self).wf(),
        ensures
            final(self).wf(),
            exists|batches: Seq<Seq<Event>>|
                {
                    &&& batches.len() == old(self).provider_count()
                    &&& final(self).history() == old(self).history() + #[trigger] polls(batches)
                    &&& events@ == frame_events(batches, old(self).pending())
                },
            final(self).pending() == Seq::<Event>::empty(),
            final(self).provider_count() == old(self).provider_count(),
            final(self).listener_counts() == old(self).listener_counts(),
            final(self).interval() == old(self).interval(),
            final(self).ticks() == old(self).ticks(),
            final(self).scene() == old(self).scene(),
            final(self).renderer() == old(self).renderer(),
    {
        let mut events: Vec<Event> = Vec::new();
        let n = self.event_providers.len();
        let ghost mut batches: Seq<Seq<Event>> = Seq::empty();
        proof {
            assert(self.history@ =~= old(self).history@ + polls(batches));
        }
        let mut i: usize = 0;
        while i < n
            invariant
                i <= n,
                n == self.event_providers.len(),
                n == old(self).event_providers.len(),
                self.slots == old(self).slots,
                self.listeners == old(self).listeners,
                self.in_loop == old(self).in_loop,
                self.scene == old(self).scene,
                self.render == old(self).render,
                self.millis_per_frame == old(self).millis_per_frame,
                self.tick == old(self).tick,
                batches.len() == i,
                self.history@ == old(self).history@ + polls(batches),
                events@ == gathered(batches, i as nat),
            decreases n - i,
        {
            let ghost had = events@;
            self.event_providers[i].provide_events(&mut events);
            proof {
                let batch = events@.subrange(had.len() as int, events@.len() as int);
                let longer = batches.push(batch);
                lemma_gathered_prefix(batches, batch, i as nat);
                assert(events@ =~= had + batch);
                self.history@ = self.history@.push(
                    Step::Poll { provider: i as int, provided: batch },
                );
                assert(self.history@ =~= old(self).history@ + polls(longer));
                batches = longer;
            }
            i += 1;
        }
        events.append(&mut self.in_loop);
        proof {
            assert(events@ == frame_events(batches, old(self).pending()));
        }
        events
    }

    /// Runs the frame on the events that were gathered for it. Each event is
    /// handed to the listeners of its key, in the order of the events and of the
    /// registration, up to and including the first event that asks the loop to
    /// stop. If there is one, the frame ends there and the result is `true`.
    /// Otherwise the tick is handed to its listeners, the tick counter goes up
    /// and the frame is rendered.
    pub fn dispatch(&mut self, events: Vec<Event>) -> (exit: bool)
        requires
            old(self).wf(),
            old(self).ticks() < u64::MAX,
        ensures
            final(self).wf(),
            exit == exits_before(events@, events.len() as int),
            final(self).history() == old(self).history() + frame_steps(
                events@,
                old(self).listener_counts(),
                old(self).ticks(),
            ),
            final(self).ticks() == (if exit {
                old(self).ticks() as int
            } else {
                old(self).ticks() + 1
            }),
            final(self).provider_count() == old(self).provider_count(),
            final(self).listener_counts() == old(self).listener_counts(),
            final(self).interval() == old(self).interval(),
            final(self).scene() == old(self).scene(),
    {
        let ghost counts = self.listener_counts();
        let ghost before = self.history@;
        let n = events.len();
        let mut i: usize = 0;
        while i < n
            invariant
                self.wf(),
                i <= n,
                n == events.len(),
                counts == self.listener_counts(),
                counts == old(self).listener_counts(),
                before == old(self).history@,
                self.event_providers == old(self).event_providers,
                self.scene == old(self).scene,
                self.millis_per_frame == old(self).millis_per_frame,
                self.tick == old(self).tick,
                !exits_before(events@, i as int),
                self.history@ == before + drained(events@, counts, i as nat),
            decreases n - i,
        {
            let ghost at_event = self.history@;
            self.call_listeners(&events[i], Ghost(i as int));
            proof {
                assert(self.history@ =~= before + drained(events@, counts, (i + 1) as nat));
            }
            if events[i].is_exit() {
                proof {
                    assert(exits_before(events@, i + 1));
                    assert(exits_before(events@, n as int));
                    lemma_drained_stops(events@, counts, (i + 1) as nat, n as nat);
                }
                return true;
            }
            proof {
                if exits_before(events@, i + 1) {
                    let w = choose|w: int|
                        0 <= w < i + 1 && w < events@.len() && (#[trigger] events@[w]).spec_key()
                            == DispatchKey::Exit;
                    if w < i {
                        assert(exits_before(events@, i as int));
                    }
                }
            }
            i += 1;
        }
        let tick_event = Event::Loop { tick: self.tick };
        let ghost at_tick = self.history@;
        self.call_listeners(&tick_event, Ghost(n as int));
        self.tick += 1;
        self.render.render(&self.scene);
        proof {
            self.history@ = self.history@.push(Step::Render);
            assert(self.history@ =~= before + frame_steps(events@, counts, old(self).tick));
            assert(self.listener_counts() =~= counts);
        }
        false
    }

    /// Hands `event`, which has the place `index` in its frame, to the listeners
    /// of its key, in the order in which they were registered.
    fn call_listeners(&mut self, event: &Event, Ghost(index): Ghost<int>)
        requires
            old(self).wf(),
        ensures
            final(self).wf(),
            final(self).history@ == old(self).history@ + calls(
                *event,
                index,
                count_of(old(self).listener_counts(), event.spec_hash_code()),
            ),
            final(self).listener_counts() == old(self).listener_counts(),
            final(self).event_providers == old(self).event_providers,
            final(self).scene == old(self).scene,
            final(self).render == old(self).render,
            final(self).millis_per_frame == old(self).millis_per_frame,
            final(self).tick == old(self).tick,
    {
        let code = event.hash_code();
        let slot = match table_get(&self.slots, &code) {
            Some(s) => *s,
            None => {
                proof {
                    assert(self.history@ =~= old(self).history@ + calls(*event, index, 0));
                }
                return ;
            },
        };
        let count = self.listeners[slot].len();
        let ghost counts = self.listener_counts();
        let mut j: usize = 0;
        while j < count
            invariant
                self.wf(),
                j <= count,
                slot < self.listeners.len(),
                count == self.listeners[slot as int].len(),
                self.slots == old(self).slots,
                self.listener_counts() == counts,
                self.event_providers == old(self).event_providers,
                self.scene == old(self).scene,
                self.render == old(self).render,
                self.millis_per_frame == old(self).millis_per_frame,
                self.tick == old(self).tick,
                self.history@ == old(self).history@ + calls(*event, index, j as nat),
            decreases count - j,
        {
            (self.listeners[slot][j])(event, &mut self.in_loop);
            proof {
                self.history@ = self.history@.push(
                    Step::Call { event: *event, index, listener: j as int },
                );
                assert(self.history@ =~= old(self).history@ + calls(
                    *event,
                    index,
                    (j + 1) as nat,
                ));
                assert(self.listener_counts() =~= counts);
            }
            j += 1;
        }
    }

    /// Runs one frame: gathers the events and runs the frame on them. The result
    /// says whether an event asked the loop to stop.
    pub fn run_frame(&mut self) -> (exit: bool)
        requires
            old(self).wf(),
            old(self).ticks() < u64::MAX,
        ensures
            final(self).wf(),
            exists|batches: Seq<Seq<Event>>|
                {
                    let events = frame_events(batches, old(self).pending());
                    &&& batches.len() == old(self).provider_count()
                    &&& exit == exits_before(events, events.len() as int)
                    &&& final(self).history() == old(self).history() + #[trigger] polls(batches)
                        + frame_steps(events, old(self).listener_counts(), old(self).ticks())
                },
            final(self).ticks() == (if exit {
                old(self).ticks() as int
            } else {
                old(self).ticks() + 1
            }),
            final(self).provider_count() == old(self).provider_count(),
            final(self).listener_counts() == old(self).listener_counts(),
            final(self).interval() == old(self).interval(),
            final(self).scene() == old(self).scene(),
    {
        let events = self.poll();
        let ghost polled = self.history();
        let ghost batches = choose|batches: Seq<Seq<Event>>|
            {
                &&& batches.len() == old(self).provider_count()
                &&& polled == old(self).history() + #[trigger] polls(batches)
                &&& events@ == frame_events(batches, old(self).pending())
            };
        let exit = self.dispatch(events);
        proof {
            assert(self.history() == old(self).history() + polls(batches) + frame_steps(
                frame_events(batches, old(self).pending()),
                old(self).listener_counts(),
                old(self).ticks(),
            ));
        }
        exit
    }

    /// How many milliseconds the loop rests after a frame that took `elapsed`
    /// milliseconds: what is left of the frame interval, if anything.
    pub fn frame_delay(&self, elapsed: u64) -> (delay: u64)
        ensures
            delay == rest(self.interval(), elapsed),
    {
        if self.millis_per_frame > elapsed {
            self.millis_per_frame - elapsed
        } else {
            0
        }
    }
}

} // verus!
