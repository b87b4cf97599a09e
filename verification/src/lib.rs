//! BehaviorGuard: on-device behavioural biometrics.
//!
//! A session collects raw input events; when it ends its events are split by
//! signal source and summarised into a feature vector. The first
//! `SESSIONS_REQUIRED` sessions enroll the user; their vectors build a
//! baseline profile, and every later session is scored against it. The
//! profile can be sealed with AES-256-GCM for storage on the device.
//!
//! The numeric summary of a session, the baseline built from enrolled
//! summaries and the risk score are computed by functions the caller hands
//! in; this crate decides when each is computed and what becomes of it.
pub mod error;
pub mod features;
pub mod profile;
pub mod signals;

pub use error::BgError;
pub use features::{extract, SessionSignals, FEATURE_DIM};
pub use profile::{EnrollmentState, ProfileStore, SESSIONS_REQUIRED};
pub use signals::{KeystrokeEvent, MotionEvent, RawEvent, SwipeEvent, TouchEvent};

use vstd::prelude::*;

use features::extractor::has_enough_signal;
use features::MIN_KEYSTROKES;
use profile::enrollment::{enrollment_complete, sessions_left};

verus! {

/// Outcome returned by `end_session`.
#[derive(Debug)]
pub enum SessionOutcome<R> {
    /// Enrollment in progress; this many more sessions are needed.
    Enrolling { sessions_remaining: usize },
    /// Enrollment just completed; the profile is ready for scoring.
    EnrollmentComplete,
    /// A risk score was computed for this session.
    Scored(R),
}

/// Where a guard stands: enrolling with the feature vectors gathered so far,
/// or ready with a baseline profile.
pub enum Phase<F, P> {
    Enrolling(Seq<F>),
    Ready(P),
}

enum State<F, P> {
    Enrolling(EnrollmentState<F>),
    Ready(P),
}

/// The top-level session manager, over feature vectors `F` and baseline
/// profiles `P`.
///
/// Lifecycle:
/// 1. `new()` — one instance per user;
/// 2. `start_session()` — begin collecting events;
/// 3. `add_event()` — on each input event;
/// 4. `end_session()` — finalise the session and get its `SessionOutcome`;
///    once enrollment is complete, sessions are scored.
pub struct BehaviorGuard<F, P> {
    state: State<F, P>,
    active_events: Option<Vec<RawEvent>>,
}

impl<F, P> BehaviorGuard<F, P> {
    /// The guard's enrollment phase.
    pub closed spec fn phase(&self) -> Phase<F, P> {
        match self.state {
            State::Enrolling(e) => Phase::Enrolling(e.collected@),
            State::Ready(p) => Phase::Ready(p),
        }
    }

    /// The events of the active session, if a session is active.
    pub closed spec fn session(&self) -> Option<Seq<RawEvent>> {
        match self.active_events {
            Some(v) => Some(v@),
            None => None,
        }
    }

    /// An enrolling guard never holds a complete enrollment: the session that
    /// completes it moves the guard to `Ready`.
    #[verifier::type_invariant]
    spec fn enrolling_incomplete(self) -> bool {
        self.state matches State::Enrolling(e) ==> !enrollment_complete(e.collected@.len())
    }

    /// What ending a session does, once it yielded the feature vector `fv`
    /// from `event_count` events: while enrolling, the vector is enrolled and,
    /// if that completes enrollment, `build` makes the baseline; once ready,
    /// `score` rates the vector against the unchanged baseline.
    pub open spec fn recorded<R, B: Fn(&Vec<F>) -> P, S: Fn(&F, &P, usize) -> R>(
        before: Phase<F, P>,
        fv: F,
        event_count: nat,
        build: B,
        score: S,
        after: Phase<F, P>,
        r: Result<SessionOutcome<R>, BgError>,
    ) -> bool {
        match before {
            Phase::Enrolling(c) => {
                let enrolled = c.push(fv);
                if enrollment_complete(enrolled.len()) {
                    &&& r == Ok::<SessionOutcome<R>, BgError>(SessionOutcome::EnrollmentComplete)
                    &&& exists|v: Vec<F>, p: P|
                        v@ == enrolled && #[trigger] build.ensures((&v,), p) && after
                            == Phase::<F, P>::Ready(p)
                } else {
                    &&& r == Ok::<SessionOutcome<R>, BgError>(
                        SessionOutcome::Enrolling {
                            sessions_remaining: sessions_left(enrolled.len()) as usize,
                        },
                    )
                    &&& after == Phase::<F, P>::Enrolling(enrolled)
                }
            },
            Phase::Ready(p) => {
                &&& after == before
                &&& exists|sc: R|
                    #[trigger] score.ensures((&fv, &p, event_count as usize), sc) && r == Ok::<
                        SessionOutcome<R>,
                        BgError,
                    >(SessionOutcome::Scored(sc))
            },
        }
    }

    /// A guard with nothing enrolled and no active session.
    pub fn new() -> (g: Self)
        ensures
            g.phase() == Phase::<F, P>::Enrolling(Seq::empty()),
            g.session() is None,
    {
        BehaviorGuard { state: State::Enrolling(EnrollmentState::default()), active_events: None }
    }

    /// Starts a new collection session; an error if one is already active.
    pub fn start_session(&mut self) -> (r: Result<(), BgError>)
        ensures
            final(self).phase() == old(self).phase(),
            match old(self).session() {
                Some(_) => r == Err::<(), BgError>(BgError::SessionActive) && final(self).session()
                    == old(self).session(),
                None => r is Ok && final(self).session() == Some(Seq::<RawEvent>::empty()),
            },
    {
        proof {
            use_type_invariant(&*self);
        }
        if self.active_events.is_some() {
            return Err(BgError::SessionActive);
        }
        self.active_events = Some(Vec::new());
        Ok(())
    }

    /// Adds a raw event to the active session; an error if none is active.
    pub fn add_event(&mut self, event: RawEvent) -> (r: Result<(), BgError>)
        ensures
            final(self).phase() == old(self).phase(),
            match old(self).session() {
                None => r == Err::<(), BgError>(BgError::NoSession) && final(self).session() is None,
                Some(events) => r is Ok && final(self).session() == Some(events.push(event)),
            },
    {
        proof {
            use_type_invariant(&*self);
        }
        let mut active: Option<Vec<RawEvent>> = None;
        std::mem::swap(&mut active, &mut self.active_events);
        match active {
            Some(mut events) => {
                events.push(event);
                self.active_events = Some(events);
                Ok(())
            },
            None => Err(BgError::NoSession),
        }
    }

    /// Ends the active session and returns its outcome.
    ///
    /// The session's events are dropped in every case. Too few keystrokes
    /// and taps give `InsufficientEvents`; otherwise `summarize` turns the
    /// split events into a feature vector, which is enrolled (`build` makes
    /// the baseline from the enrolled vectors once there are
    /// `SESSIONS_REQUIRED` of them) or, once the guard is ready, rated by
    /// `score` together with the number of events.
    pub fn end_session<R, X, B, S>(&mut self, summarize: X, build: B, score: S) -> (r: Result<
        SessionOutcome<R>,
        BgError,
    >) where X: Fn(&SessionSignals) -> F, B: Fn(&Vec<F>) -> P, S: Fn(&F, &P, usize) -> R
        requires
            forall|s: &SessionSignals| summarize.requires((s,)),
            forall|v: &Vec<F>| enrollment_complete(v@.len()) ==> build.requires((v,)),
            forall|f: &F, p: &P, n: usize| score.requires((f, p, n)),
        ensures
            final(self).session() is None,
            match old(self).session() {
                None => {
                    &&& r == Err::<SessionOutcome<R>, BgError>(BgError::NoSession)
                    &&& final(self).phase() == old(self).phase()
                },
                Some(events) => if !has_enough_signal(events) {
                    &&& r == Err::<SessionOutcome<R>, BgError>(
                        BgError::InsufficientEvents {
                            got: events.len() as usize,
                            need: MIN_KEYSTROKES,
                        },
                    )
                    &&& final(self).phase() == old(self).phase()
                } else {
                    exists|signals: SessionSignals, fv: F|
                        signals.partitions(events) && #[trigger] summarize.ensures((&signals,), fv)
                            && Self::recorded(
                            old(self).phase(),
                            fv,
                            events.len(),
                            build,
                            score,
                            final(self).phase(),
                            r,
                        )
                },
            },
    {
        proof {
            use_type_invariant(&*self);
        }
        let mut active: Option<Vec<RawEvent>> = None;
        std::mem::swap(&mut active, &mut self.active_events);
        let events = match active {
            Some(events) => events,
            None => return Err(BgError::NoSession),
        };
        let event_count: usize = events.len();
        let signals = match extract(events.as_slice()) {
            Some(signals) => signals,
            None => {
                return Err(BgError::InsufficientEvents { got: event_count, need: MIN_KEYSTROKES });
            },
        };
        let fv = summarize(&signals);
        let mut state = State::Enrolling(EnrollmentState::default());
        std::mem::swap(&mut state, &mut self.state);
        match state {
            State::Ready(profile) => {
                let sc = score(&fv, &profile, event_count);
                self.state = State::Ready(profile);
                Ok(SessionOutcome::Scored(sc))
            },
            State::Enrolling(mut enrollment) => {
                enrollment.add(fv);
                if enrollment.is_complete() {
                    let built = enrollment.build_profile(build);
                    let profile = built.unwrap();
                    self.state = State::Ready(profile);
                    Ok(SessionOutcome::EnrollmentComplete)
                } else {
                    let remaining: usize = enrollment.sessions_remaining();
                    self.state = State::Enrolling(enrollment);
                    Ok(SessionOutcome::Enrolling { sessions_remaining: remaining })
                }
            },
        }
    }

    /// Whether enrollment is complete and sessions are scored.
    pub fn is_enrolled(&self) -> (r: bool)
        ensures
            r == (self.phase() is Ready),
    {
        match self.state {
            State::Ready(_) => true,
            State::Enrolling(_) => false,
        }
    }

    /// The results of exporting the baseline `p`: those of sealing it, with
    /// the blob wrapped in `Some`.
    pub open spec fn exported<E: Fn(&P) -> Result<Vec<u8>, BgError>>(
        p: P,
        key: Seq<u8>,
        encode: E,
        r: Result<Option<Vec<u8>>, BgError>,
    ) -> bool {
        exists|sealed: Result<Vec<u8>, BgError>|
            #[trigger] ProfileStore::sealed(p, key, encode, sealed) && r == match sealed {
                Ok(blob) => Ok::<Option<Vec<u8>>, BgError>(Some(blob)),
                Err(e) => Err::<Option<Vec<u8>>, BgError>(e),
            }
    }

    /// Encodes the profile with `encode` and seals it under `key` for
    /// persistent storage; `None` while enrollment is not complete.
    pub fn export_profile<E: Fn(&P) -> Result<Vec<u8>, BgError>>(&self, key: &[u8; 32], encode: E) -> (r: Result<
        Option<Vec<u8>>,
        BgError,
    >)
        requires
            forall|p: &P| encode.requires((p,)),
        ensures
            match self.phase() {
                Phase::Enrolling(_) => r == Ok::<Option<Vec<u8>>, BgError>(None),
                Phase::Ready(p) => Self::exported(p, key@, encode, r),
            },
    {
        match &self.state {
            State::Ready(profile) => {
                let sealed = ProfileStore::seal(profile, key, encode);
                let r = match sealed {
                    Ok(blob) => Ok(Some(blob)),
                    Err(e) => Err(e),
                };
                assert(Self::exported(*profile, key@, encode, r));
                r
            },
            State::Enrolling(_) => Ok(None),
        }
    }

    /// Restores a previously exported profile: opens `blob` with `key`,
    /// decodes it with `decode`, and makes the guard ready with it. On error
    /// the guard is unchanged.
    pub fn import_profile<D: Fn(&[u8]) -> Result<P, BgError>>(&mut self, blob: &[u8], key: &[u8; 32], decode: D) -> (r: Result<(), BgError>)
        requires
            forall|bytes: &[u8]| decode.requires((bytes,)),
        ensures
            final(self).session() == old(self).session(),
            exists|opened: Result<P, BgError>|
                #[trigger] ProfileStore::opened(key@, blob@, decode, opened) && match opened {
                    Ok(p) => r == Ok::<(), BgError>(()) && final(self).phase() == Phase::<F, P>::Ready(p),
                    Err(e) => r == Err::<(), BgError>(e) && final(self).phase() == old(self).phase(),
                },
    {
        proof {
            use_type_invariant(&*self);
        }
        let opened = ProfileStore::open(blob, key, decode);
        match opened {
            Ok(profile) => {
                self.state = State::Ready(profile);
                Ok(())
            },
            Err(e) => Err(e),
        }
    }
}

impl<F, P> Default for BehaviorGuard<F, P> {
    /// Same as `new`.
    fn default() -> (g: Self)
        ensures
            g.phase() == Phase::<F, P>::Enrolling(Seq::empty()),
            g.session() is None,
    {
        Self::new()
    }
}


/// A ready guard scores every session against its baseline and keeps it:
/// the outcome is `Scored` with what `score` gives on the session's vector,
/// the unchanged baseline and the session's event count.
pub proof fn lemma_ready_guard_scores<F, P, R, B: Fn(&Vec<F>) -> P, S: Fn(&F, &P, usize) -> R>(
    p: P,
    fv: F,
    event_count: nat,
    build: B,
    score: S,
    after: Phase<F, P>,
    r: Result<SessionOutcome<R>, BgError>,
)
    requires
        BehaviorGuard::<F, P>::recorded(Phase::Ready(p), fv, event_count, build, score, after, r),
    ensures
        after == Phase::<F, P>::Ready(p),
        exists|sc: R|
            #[trigger] score.ensures((&fv, &p, event_count as usize), sc) && r == Ok::<
                SessionOutcome<R>,
                BgError,
            >(SessionOutcome::Scored(sc)),
{
}

/// Enrollment from a fresh guard, over the sessions that yield features
/// (`phases[i]` is the phase before the i-th such session, `outcomes[i]` its
/// result): the j-th of the first `SESSIONS_REQUIRED - 1` leaves the guard
/// enrolling with the first j vectors and reports `SESSIONS_REQUIRED - j`
/// sessions remaining; the `SESSIONS_REQUIRED`-th reports
/// `EnrollmentComplete` and leaves the guard ready; from then on the guard
/// keeps that baseline and every session is scored.
pub proof fn lemma_enrollment_history<F, P, R, B: Fn(&Vec<F>) -> P, S: Fn(&F, &P, usize) -> R>(
    fvs: Seq<F>,
    counts: Seq<nat>,
    build: B,
    score: S,
    phases: Seq<Phase<F, P>>,
    outcomes: Seq<Result<SessionOutcome<R>, BgError>>,
)
    requires
        counts.len() == fvs.len(),
        outcomes.len() == fvs.len(),
        phases.len() == fvs.len() + 1,
        phases[0] == Phase::<F, P>::Enrolling(Seq::empty()),
        forall|i: int|
            0 <= i < fvs.len() ==> #[trigger] BehaviorGuard::<F, P>::recorded(
                phases[i],
                fvs[i],
                counts[i],
                build,
                score,
                phases[i + 1],
                outcomes[i],
            ),
    ensures
        forall|j: int|
            1 <= j <= fvs.len() && j < SESSIONS_REQUIRED ==> {
                &&& #[trigger] phases[j] == Phase::<F, P>::Enrolling(fvs.take(j))
                &&& outcomes[j - 1] == Ok::<SessionOutcome<R>, BgError>(
                    SessionOutcome::Enrolling { sessions_remaining: (SESSIONS_REQUIRED - j) as usize },
                )
            },
        fvs.len() >= SESSIONS_REQUIRED ==> {
            &&& phases[SESSIONS_REQUIRED as int] is Ready
            &&& outcomes[SESSIONS_REQUIRED - 1] == Ok::<SessionOutcome<R>, BgError>(
                SessionOutcome::EnrollmentComplete,
            )
        },
        forall|j: int|
            SESSIONS_REQUIRED <= j <= fvs.len() ==> #[trigger] phases[j] == phases[SESSIONS_REQUIRED as int],
        forall|j: int|
            SESSIONS_REQUIRED <= j < fvs.len() ==> #[trigger] outcomes[j] matches Ok(SessionOutcome::Scored(_)),
    decreases fvs.len(),
{
    let n = fvs.len() as int;
    if n == 0 {
        return;
    }
    let m = n - 1;
    assert forall|i: int| 0 <= i < m implies #[trigger] BehaviorGuard::<F, P>::recorded(
        phases.take(m + 1)[i],
        fvs.take(m)[i],
        counts.take(m)[i],
        build,
        score,
        phases.take(m + 1)[i + 1],
        outcomes.take(m)[i],
    ) by {
        assert(BehaviorGuard::<F, P>::recorded(phases[i], fvs[i], counts[i], build, score, phases[i + 1], outcomes[i]));
    }
    lemma_enrollment_history(fvs.take(m), counts.take(m), build, score, phases.take(m + 1), outcomes.take(m));
    assert(BehaviorGuard::<F, P>::recorded(phases[m], fvs[m], counts[m], build, score, phases[m + 1], outcomes[m]));
    // the phase before the last session
    if m == 0 {
        assert(fvs.take(0) =~= Seq::<F>::empty());
    } else if m < SESSIONS_REQUIRED {
        assert(phases.take(m + 1)[m] == phases[m]);
        assert(fvs.take(m).take(m) =~= fvs.take(m));
    } else {
        assert(phases.take(m + 1)[m] == phases[m]);
        assert(phases.take(m + 1)[SESSIONS_REQUIRED as int] == phases[SESSIONS_REQUIRED as int]);
    }
    if m < SESSIONS_REQUIRED {
        assert(phases[m] == Phase::<F, P>::Enrolling(fvs.take(m)));
        assert(fvs.take(m).push(fvs[m]) =~= fvs.take(m + 1));
    }
    assert forall|j: int| 1 <= j <= n && j < SESSIONS_REQUIRED implies {
        &&& #[trigger] phases[j] == Phase::<F, P>::Enrolling(fvs.take(j))
        &&& outcomes[j - 1] == Ok::<SessionOutcome<R>, BgError>(
            SessionOutcome::Enrolling { sessions_remaining: (SESSIONS_REQUIRED - j) as usize },
        )
    } by {
        if j < n {
            assert(phases.take(m + 1)[j] == phases[j]);
            assert(outcomes.take(m)[j - 1] == outcomes[j - 1]);
            assert(fvs.take(m).take(j) =~= fvs.take(j));
        }
    }
    assert forall|j: int| SESSIONS_REQUIRED <= j <= n implies #[trigger] phases[j] == phases[SESSIONS_REQUIRED as int] by {
        if j < n {
            assert(phases.take(m + 1)[j] == phases[j]);
        }
    }
    assert forall|j: int| SESSIONS_REQUIRED <= j < n implies #[trigger] outcomes[j] matches Ok(SessionOutcome::Scored(_)) by {
        if j < m {
            assert(outcomes.take(m)[j] == outcomes[j]);
        }
    }
    if n >= SESSIONS_REQUIRED && m != SESSIONS_REQUIRED - 1 {
        assert(outcomes.take(m)[SESSIONS_REQUIRED - 1] == outcomes[SESSIONS_REQUIRED - 1]);
        assert(phases.take(m + 1)[SESSIONS_REQUIRED as int] == phases[SESSIONS_REQUIRED as int]);
    }
}

} // verus!
