use vstd::prelude::*;

use crate::signals::{KeystrokeEvent, MotionEvent, RawEvent, SwipeEvent, TouchEvent};

verus! {

/// A session carries enough keystroke signal from this many keystrokes on.
pub const MIN_KEYSTROKES: usize = 5;

/// A session carries enough touch signal from this many taps on.
pub const MIN_TOUCHES: usize = 3;

/// The keystroke events of a session, in the order they arrived.
pub open spec fn keystrokes_of(events: Seq<RawEvent>) -> Seq<KeystrokeEvent>
    decreases events.len(),
{
    if events.len() == 0 {
        Seq::empty()
    } else {
        let rest = keystrokes_of(events.drop_last());
        match events.last() {
            RawEvent::Keystroke(k) => rest.push(k),
            _ => rest,
        }
    }
}

/// The touch events of a session, in the order they arrived.
pub open spec fn touches_of(events: Seq<RawEvent>) -> Seq<TouchEvent>
    decreases events.len(),
{
    if events.len() == 0 {
        Seq::empty()
    } else {
        let rest = touches_of(events.drop_last());
        match events.last() {
            RawEvent::Touch(t) => rest.push(t),
            _ => rest,
        }
    }
}

/// The swipe events of a session, in the order they arrived.
pub open spec fn swipes_of(events: Seq<RawEvent>) -> Seq<SwipeEvent>
    decreases events.len(),
{
    if events.len() == 0 {
        Seq::empty()
    } else {
        let rest = swipes_of(events.drop_last());
        match events.last() {
            RawEvent::Swipe(s) => rest.push(s),
            _ => rest,
        }
    }
}

/// The motion samples of a session, in the order they arrived.
pub open spec fn motions_of(events: Seq<RawEvent>) -> Seq<MotionEvent>
    decreases events.len(),
{
    if events.len() == 0 {
        Seq::empty()
    } else {
        let rest = motions_of(events.drop_last());
        match events.last() {
            RawEvent::Motion(m) => rest.push(m),
            _ => rest,
        }
    }
}

/// A session yields features when it holds at least `MIN_KEYSTROKES`
/// keystrokes or at least `MIN_TOUCHES` taps.
pub open spec fn has_enough_signal(events: Seq<RawEvent>) -> bool {
    keystrokes_of(events).len() >= MIN_KEYSTROKES || touches_of(events).len() >= MIN_TOUCHES
}

/// The flight times that keystrokes carry, in order (first keys carry none).
pub open spec fn flights_of(keys: Seq<KeystrokeEvent>) -> Seq<u64>
    decreases keys.len(),
{
    if keys.len() == 0 {
        Seq::empty()
    } else {
        let rest = flights_of(keys.drop_last());
        match keys.last().flight_ms {
            Some(f) => rest.push(f),
            None => rest,
        }
    }
}

/// How many keystrokes are corrections (backspace / delete).
pub open spec fn corrections_of(keys: Seq<KeystrokeEvent>) -> nat
    decreases keys.len(),
{
    if keys.len() == 0 {
        0
    } else {
        corrections_of(keys.drop_last()) + if keys.last().is_correction {
            1nat
        } else {
            0nat
        }
    }
}

/// Every event falls into exactly one signal series: the four series of a
/// session together hold as many events as the session.
pub proof fn lemma_partition_keeps_every_event(events: Seq<RawEvent>)
    ensures
        keystrokes_of(events).len() + touches_of(events).len() + swipes_of(events).len()
            + motions_of(events).len() == events.len(),
    decreases events.len(),
{
    if events.len() > 0 {
        lemma_partition_keeps_every_event(events.drop_last());
    }
}

/// No more corrections than keystrokes.
pub proof fn lemma_corrections_bounded(keys: Seq<KeystrokeEvent>)
    ensures
        corrections_of(keys) <= keys.len(),
    decreases keys.len(),
{
    if keys.len() > 0 {
        lemma_corrections_bounded(keys.drop_last());
    }
}

/// The keystroke and tap series hold exactly the session's keystroke and
/// touch events: their lengths are the numbers of such events among all the
/// session's events.
pub proof fn lemma_series_count_their_events(events: Seq<RawEvent>)
    ensures
        keystrokes_of(events).len() == events.filter(|e: RawEvent| e is Keystroke).len(),
        touches_of(events).len() == events.filter(|e: RawEvent| e is Touch).len(),
        swipes_of(events).len() == events.filter(|e: RawEvent| e is Swipe).len(),
        motions_of(events).len() == events.filter(|e: RawEvent| e is Motion).len(),
    decreases events.len(),
{
    reveal_with_fuel(Seq::filter, 1);
    if events.len() > 0 {
        lemma_series_count_their_events(events.drop_last());
    }
}

/// A session has enough signal exactly when at least `MIN_KEYSTROKES` of its
/// events are keystrokes or at least `MIN_TOUCHES` are taps; swipes and
/// motion samples do not count.
pub proof fn lemma_enough_signal_is_keystrokes_or_taps(events: Seq<RawEvent>)
    ensures
        has_enough_signal(events) <==> (events.filter(|e: RawEvent| e is Keystroke).len()
            >= MIN_KEYSTROKES || events.filter(|e: RawEvent| e is Touch).len() >= MIN_TOUCHES),
{
    lemma_series_count_their_events(events);
}

/// Adding a swipe or a motion sample to a session never changes whether it
/// has enough signal; adding a keystroke or a tap never takes it away.
pub proof fn lemma_enough_signal_ignores_swipes_and_motion(
    events: Seq<RawEvent>,
    s: SwipeEvent,
    m: MotionEvent,
    k: KeystrokeEvent,
    t: TouchEvent,
)
    ensures
        has_enough_signal(events.push(RawEvent::Swipe(s))) == has_enough_signal(events),
        has_enough_signal(events.push(RawEvent::Motion(m))) == has_enough_signal(events),
        has_enough_signal(events) ==> has_enough_signal(events.push(RawEvent::Keystroke(k))),
        has_enough_signal(events) ==> has_enough_signal(events.push(RawEvent::Touch(t))),
{
    assert(events.push(RawEvent::Swipe(s)).drop_last() =~= events);
    assert(events.push(RawEvent::Motion(m)).drop_last() =~= events);
    assert(events.push(RawEvent::Keystroke(k)).drop_last() =~= events);
    assert(events.push(RawEvent::Touch(t)).drop_last() =~= events);
}

/// The flight times of a run of keystrokes are the flight times carried by
/// those keystrokes that carry one, in order, whether or not they are
/// corrections.
pub proof fn lemma_flights_are_the_carried_ones(keys: Seq<KeystrokeEvent>)
    ensures
        flights_of(keys) == keys.filter(|k: KeystrokeEvent| k.flight_ms is Some).map_values(
            |k: KeystrokeEvent| k.flight_ms->Some_0,
        ),
        flights_of(keys).len() == keys.filter(|k: KeystrokeEvent| k.flight_ms is Some).len(),
    decreases keys.len(),
{
    reveal_with_fuel(Seq::filter, 1);
    if keys.len() > 0 {
        lemma_flights_are_the_carried_ones(keys.drop_last());
        let pred = |k: KeystrokeEvent| k.flight_ms is Some;
        let f = |k: KeystrokeEvent| k.flight_ms->Some_0;
        let sub = keys.drop_last().filter(pred);
        if pred(keys.last()) {
            assert(sub.push(keys.last()).map_values(f) =~= sub.map_values(f).push(f(keys.last())));
        }
    }
}

/// One more keystroke adds its flight time, if it carries one, at the end of
/// the flight series, and leaves it unchanged otherwise.
pub proof fn lemma_flights_push(keys: Seq<KeystrokeEvent>, k: KeystrokeEvent)
    ensures
        flights_of(keys.push(k)) == match k.flight_ms {
            Some(f) => flights_of(keys).push(f),
            None => flights_of(keys),
        },
{
    assert(keys.push(k).drop_last() =~= keys);
}

/// The correction count is the number of keystrokes marked as corrections,
/// wherever they stand in the session (the first one included).
pub proof fn lemma_corrections_count_marked_keys(keys: Seq<KeystrokeEvent>)
    ensures
        corrections_of(keys) == keys.filter(|k: KeystrokeEvent| k.is_correction).len(),
    decreases keys.len(),
{
    reveal_with_fuel(Seq::filter, 1);
    if keys.len() > 0 {
        lemma_corrections_count_marked_keys(keys.drop_last());
    }
}

/// One more keystroke raises the correction count by one exactly when it is
/// a correction, also as the first keystroke of a session.
pub proof fn lemma_corrections_push(keys: Seq<KeystrokeEvent>, k: KeystrokeEvent)
    ensures
        corrections_of(keys.push(k)) == corrections_of(keys) + if k.is_correction {
            1nat
        } else {
            0nat
        },
        k.is_correction ==> corrections_of(seq![k]) == 1,
{
    assert(keys.push(k).drop_last() =~= keys);
    assert(seq![k].drop_last() =~= Seq::<KeystrokeEvent>::empty());
    assert(corrections_of(Seq::<KeystrokeEvent>::empty()) == 0);
}

/// One session's raw events, split by signal source (order kept).
#[derive(Debug)]
pub struct SessionSignals {
    pub keystrokes: Vec<KeystrokeEvent>,
    pub touches: Vec<TouchEvent>,
    pub swipes: Vec<SwipeEvent>,
    pub motions: Vec<MotionEvent>,
}

impl SessionSignals {
    /// These series are the split of `events` by signal source.
    pub open spec fn partitions(&self, events: Seq<RawEvent>) -> bool {
        &&& self.keystrokes@ == keystrokes_of(events)
        &&& self.touches@ == touches_of(events)
        &&& self.swipes@ == swipes_of(events)
        &&& self.motions@ == motions_of(events)
    }

    /// Splits a session's events by signal source, keeping their order.
    pub fn partition(events: &[RawEvent]) -> (s: SessionSignals)
        ensures
            s.partitions(events@),
    {
        let mut keystrokes: Vec<KeystrokeEvent> = Vec::new();
        let mut touches: Vec<TouchEvent> = Vec::new();
        let mut swipes: Vec<SwipeEvent> = Vec::new();
        let mut motions: Vec<MotionEvent> = Vec::new();
        let n: usize = events.len();
        for i in 0..n
            invariant
                n == events@.len(),
                keystrokes@ == keystrokes_of(events@.take(i as int)),
                touches@ == touches_of(events@.take(i as int)),
                swipes@ == swipes_of(events@.take(i as int)),
                motions@ == motions_of(events@.take(i as int)),
        {
            proof {
                assert(events@.take(i + 1).drop_last() =~= events@.take(i as int));
                assert(events@.take(i + 1).last() == events@[i as int]);
            }
            match events[i] {
                RawEvent::Keystroke(k) => keystrokes.push(k),
                RawEvent::Touch(t) => touches.push(t),
                RawEvent::Swipe(s) => swipes.push(s),
                RawEvent::Motion(m) => motions.push(m),
            }
        }
        proof {
            assert(events@.take(n as int) =~= events@);
        }
        SessionSignals { keystrokes, touches, swipes, motions }
    }

    /// Whether the session holds enough keystrokes or taps to yield features.
    pub fn is_sufficient(&self) -> (r: bool)
        ensures
            r == (self.keystrokes@.len() >= MIN_KEYSTROKES || self.touches@.len() >= MIN_TOUCHES),
    {
        self.keystrokes.len() >= MIN_KEYSTROKES || self.touches.len() >= MIN_TOUCHES
    }

    /// The dwell time of every keystroke, in order.
    pub fn dwell_times(&self) -> (r: Vec<u64>)
        ensures
            r@ == self.keystrokes@.map_values(|k: KeystrokeEvent| k.dwell()),
    {
        let mut r: Vec<u64> = Vec::new();
        let n: usize = self.keystrokes.len();
        for i in 0..n
            invariant
                n == self.keystrokes@.len(),
                r@ == self.keystrokes@.take(i as int).map_values(|k: KeystrokeEvent| k.dwell()),
        {
            proof {
                assert(self.keystrokes@.take(i + 1) =~= self.keystrokes@.take(i as int).push(
                    self.keystrokes@[i as int],
                ));
            }
            r.push(self.keystrokes[i].dwell_ms());
            proof {
                assert(r@ =~= self.keystrokes@.take(i + 1).map_values(
                    |k: KeystrokeEvent| k.dwell(),
                ));
            }
        }
        proof {
            assert(self.keystrokes@.take(n as int) =~= self.keystrokes@);
        }
        r
    }

    /// The flight times carried by the keystrokes, in order; keystrokes
    /// without one (the first of a session) contribute nothing.
    pub fn flight_times(&self) -> (r: Vec<u64>)
        ensures
            r@ == flights_of(self.keystrokes@),
            r@ == self.keystrokes@.filter(|k: KeystrokeEvent| k.flight_ms is Some).map_values(
                |k: KeystrokeEvent| k.flight_ms->Some_0,
            ),
    {
        let mut r: Vec<u64> = Vec::new();
        let n: usize = self.keystrokes.len();
        for i in 0..n
            invariant
                n == self.keystrokes@.len(),
                r@ == flights_of(self.keystrokes@.take(i as int)),
        {
            proof {
                assert(self.keystrokes@.take(i + 1).drop_last() =~= self.keystrokes@.take(i as int));
                assert(self.keystrokes@.take(i + 1).last() == self.keystrokes@[i as int]);
            }
            match self.keystrokes[i].flight_ms {
                Some(f) => r.push(f),
                None => {},
            }
        }
        proof {
            assert(self.keystrokes@.take(n as int) =~= self.keystrokes@);
            lemma_flights_are_the_carried_ones(self.keystrokes@);
        }
        r
    }

    /// How many keystrokes are corrections.
    pub fn correction_count(&self) -> (r: usize)
        ensures
            r == corrections_of(self.keystrokes@),
            r == self.keystrokes@.filter(|k: KeystrokeEvent| k.is_correction).len(),
            r <= self.keystrokes@.len(),
    {
        let mut count: usize = 0;
        let n: usize = self.keystrokes.len();
        for i in 0..n
            invariant
                n == self.keystrokes@.len(),
                count == corrections_of(self.keystrokes@.take(i as int)),
                count <= i,
        {
            proof {
                assert(self.keystrokes@.take(i + 1).drop_last() =~= self.keystrokes@.take(i as int));
                assert(self.keystrokes@.take(i + 1).last() == self.keystrokes@[i as int]);
            }
            if self.keystrokes[i].is_correction {
                count = count + 1;
            }
        }
        proof {
            assert(self.keystrokes@.take(n as int) =~= self.keystrokes@);
            lemma_corrections_count_marked_keys(self.keystrokes@);
        }
        count
    }

    /// The duration of every tap, in order.
    pub fn touch_durations(&self) -> (r: Vec<u64>)
        ensures
            r@ == self.touches@.map_values(|t: TouchEvent| t.duration()),
    {
        let mut r: Vec<u64> = Vec::new();
        let n: usize = self.touches.len();
        for i in 0..n
            invariant
                n == self.touches@.len(),
                r@ == self.touches@.take(i as int).map_values(|t: TouchEvent| t.duration()),
        {
            proof {
                assert(self.touches@.take(i + 1) =~= self.touches@.take(i as int).push(
                    self.touches@[i as int],
                ));
            }
            r.push(self.touches[i].duration_ms());
            proof {
                assert(r@ =~= self.touches@.take(i + 1).map_values(|t: TouchEvent| t.duration()));
            }
        }
        proof {
            assert(self.touches@.take(n as int) =~= self.touches@);
        }
        r
    }

    /// The duration of every swipe, in order.
    pub fn swipe_durations(&self) -> (r: Vec<u64>)
        ensures
            r@ == self.swipes@.map_values(|s: SwipeEvent| s.duration()),
    {
        let mut r: Vec<u64> = Vec::new();
        let n: usize = self.swipes.len();
        for i in 0..n
            invariant
                n == self.swipes@.len(),
                r@ == self.swipes@.take(i as int).map_values(|s: SwipeEvent| s.duration()),
        {
            proof {
                assert(self.swipes@.take(i + 1) =~= self.swipes@.take(i as int).push(
                    self.swipes@[i as int],
                ));
            }
            r.push(self.swipes[i].duration_ms());
            proof {
                assert(r@ =~= self.swipes@.take(i + 1).map_values(|s: SwipeEvent| s.duration()));
            }
        }
        proof {
            assert(self.swipes@.take(n as int) =~= self.swipes@);
        }
        r
    }
}

/// Splits a session's events by signal source.
///
/// Returns `None` when the session holds fewer than `MIN_KEYSTROKES`
/// keystrokes and fewer than `MIN_TOUCHES` taps: there is then too little
/// signal to compute meaningful features.
pub fn extract(events: &[RawEvent]) -> (r: Option<SessionSignals>)
    ensures
        r is Some <==> has_enough_signal(events@),
        r is Some <==> (events@.filter(|e: RawEvent| e is Keystroke).len() >= MIN_KEYSTROKES
            || events@.filter(|e: RawEvent| e is Touch).len() >= MIN_TOUCHES),
        r matches Some(s) ==> s.partitions(events@),
{
    proof {
        lemma_enough_signal_is_keystrokes_or_taps(events@);
    }
    let signals = SessionSignals::partition(events);
    if signals.is_sufficient() {
        Some(signals)
    } else {
        None
    }
}

} // verus!
