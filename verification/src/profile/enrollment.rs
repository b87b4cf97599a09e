use vstd::prelude::*;

verus! {

/// Number of sessions enrolled before a baseline is built and scoring starts.
pub const SESSIONS_REQUIRED: usize = 5;

/// Enrollment is complete once `collected` sessions have been gathered.
pub open spec fn enrollment_complete(collected: nat) -> bool {
    collected >= SESSIONS_REQUIRED
}

/// Sessions still missing after `collected` have been gathered.
pub open spec fn sessions_left(collected: nat) -> nat {
    if collected >= SESSIONS_REQUIRED {
        0
    } else {
        (SESSIONS_REQUIRED - collected) as nat
    }
}

/// No sessions remain exactly when enrollment is complete, and until then
/// each new session lowers the count of remaining ones by exactly one.
pub proof fn lemma_remaining_counts_down(collected: nat)
    ensures
        sessions_left(collected) == 0 <==> enrollment_complete(collected),
        !enrollment_complete(collected) ==> sessions_left(collected + 1) + 1 == sessions_left(
            collected,
        ),
        sessions_left(collected) + collected >= SESSIONS_REQUIRED,
{
}

/// The enrollment in progress: one feature vector per enrolled session.
#[derive(Debug)]
pub struct EnrollmentState<F> {
    pub collected: Vec<F>,
}

impl<F> Default for EnrollmentState<F> {
    /// An enrollment with no sessions yet.
    fn default() -> (s: Self)
        ensures
            s.collected@ == Seq::<F>::empty(),
    {
        EnrollmentState { collected: Vec::new() }
    }
}

impl<F> EnrollmentState<F> {
    /// Records one more enrolled session.
    pub fn add(&mut self, fv: F)
        ensures
            final(self).collected@ == old(self).collected@.push(fv),
    {
        self.collected.push(fv);
    }

    /// Whether enough sessions have been enrolled to build a baseline.
    pub fn is_complete(&self) -> (r: bool)
        ensures
            r == enrollment_complete(self.collected@.len()),
    {
        self.collected.len() >= SESSIONS_REQUIRED
    }

    /// How many more sessions must be enrolled.
    pub fn sessions_remaining(&self) -> (r: usize)
        ensures
            r == sessions_left(self.collected@.len()),
    {
        SESSIONS_REQUIRED.saturating_sub(self.collected.len())
    }

    /// Builds the baseline with `build` once enrollment is complete;
    /// `None` before that (and `build` is then not called).
    pub fn build_profile<P, B: Fn(&Vec<F>) -> P>(&self, build: B) -> (r: Option<P>)
        requires
            enrollment_complete(self.collected@.len()) ==> build.requires((&self.collected,)),
        ensures
            r is Some <==> enrollment_complete(self.collected@.len()),
            r matches Some(p) ==> build.ensures((&self.collected,), p),
    {
        if self.is_complete() {
            Some(build(&self.collected))
        } else {
            None
        }
    }
}

} // verus!
