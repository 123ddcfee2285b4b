use vstd::prelude::*;

verus! {

/// Where a countdown stands.
#[derive(Clone, Copy, Debug, PartialEq, Eq, Structural)]
pub enum Phase {
    /// Seconds are still being counted off.
    Counting,
    /// The time ran out without a cancellation.
    Expired,
    /// A cancellation was observed before the countdown expired.
    Interrupted,
}

/// What one tick of the countdown asks the caller to do.
#[derive(Clone, Copy, Debug, PartialEq, Eq, Structural)]
pub enum Step {
    /// Report this many seconds remaining, then wait one second.
    Show(u64),
    /// The time ran out: report zero remaining and run the completion steps.
    Expired,
    /// A cancellation was observed: stop at once, with no completion steps.
    Interrupted,
}

impl Step {
    /// The process exit status that ends a run at this step, if the run ends here.
    pub open spec fn exit_status(self) -> Option<i32> {
        match self {
            Step::Show(_) => None,
            Step::Expired => Some(0),
            Step::Interrupted => Some(2),
        }
    }

    /// Tells whether the run ends at this step, and with which exit status.
    pub fn exit_code(&self) -> (r: Option<i32>)
        ensures
            r == self.exit_status(),
    {
        match self {
            Step::Show(_) => None,
            Step::Expired => Some(0),
            Step::Interrupted => Some(2),
        }
    }
}

/// The state of a countdown of `total` seconds, of which `remaining` are left.
#[derive(Clone, Copy, Debug, PartialEq, Eq, Structural)]
pub struct Countdown {
    pub total: u64,
    pub remaining: u64,
    pub phase: Phase,
}

impl Countdown {
    /// The remaining time never exceeds the total, which is positive, and a
    /// countdown that has expired has nothing left.
    pub open spec fn wf(self) -> bool {
        &&& 0 < self.total
        &&& self.remaining <= self.total
        &&& self.phase == Phase::Expired ==> self.remaining == 0
    }

    /// The same state with `remaining` seconds left.
    pub open spec fn with_remaining(self, remaining: u64) -> Countdown {
        Countdown { remaining, ..self }
    }

    /// The state at the start of a countdown of `total` seconds.
    pub open spec fn start(total: u64) -> Countdown {
        Countdown { total, remaining: total, phase: Phase::Counting }
    }

    /// One tick: the state that follows and what the caller is to do, given
    /// whether a cancellation had been requested when the tick began.
    ///
    /// A requested cancellation ends a countdown that is still counting, even
    /// one with nothing left, so that a request made during the last second
    /// is acted upon at the next tick. Otherwise, once nothing remains the
    /// countdown expires; while seconds remain, the remaining time is
    /// reported and then reduced by one. Both ends are final.
    pub open spec fn next(self, cancelled: bool) -> (Countdown, Step) {
        match self.phase {
            Phase::Counting => if cancelled {
                (Countdown { phase: Phase::Interrupted, ..self }, Step::Interrupted)
            } else if self.remaining == 0 {
                (Countdown { phase: Phase::Expired, ..self }, Step::Expired)
            } else {
                (Countdown { remaining: (self.remaining - 1) as u64, ..self }, Step::Show(self.remaining))
            },
            Phase::Expired => (self, Step::Expired),
            Phase::Interrupted => (self, Step::Interrupted),
        }
    }

    /// The steps of one tick for each entry of `cancels`, in order.
    pub open spec fn steps(self, cancels: Seq<bool>) -> Seq<Step>
        decreases cancels.len(),
    {
        if cancels.len() == 0 {
            Seq::empty()
        } else {
            let (after, step) = self.next(cancels[0]);
            seq![step] + after.steps(cancels.drop_first())
        }
    }

    /// The state after one tick for each entry of `cancels`.
    pub open spec fn after(self, cancels: Seq<bool>) -> Countdown
        decreases cancels.len(),
    {
        if cancels.len() == 0 {
            self
        } else {
            self.next(cancels[0]).0.after(cancels.drop_first())
        }
    }

    /// Starts a countdown of `total` seconds.
    pub fn new(total: u64) -> (r: Countdown)
        requires
            total > 0,
        ensures
            r == Countdown::start(total),
            r.wf(),
    {
        Countdown { total, remaining: total, phase: Phase::Counting }
    }

    /// Runs one tick; `cancelled` tells whether a cancellation has been
    /// requested by the time the tick begins.
    pub fn tick(&mut self, cancelled: bool) -> (r: Step)
        requires
            old(self).wf(),
        ensures
            (*final(self), r) == old(self).next(cancelled),
            final(self).wf(),
    {
        match self.phase {
            Phase::Counting => {
                if cancelled {
                    self.phase = Phase::Interrupted;
                    Step::Interrupted
                } else if self.remaining == 0 {
                    self.phase = Phase::Expired;
                    Step::Expired
                } else {
                    let shown = self.remaining;
                    self.remaining = self.remaining - 1;
                    Step::Show(shown)
                }
            },
            Phase::Expired => Step::Expired,
            Phase::Interrupted => Step::Interrupted,
        }
    }
}

/// `n` ticks on which no cancellation was requested.
pub open spec fn calm(n: nat) -> Seq<bool> {
    Seq::new(n, |i: int| false)
}

/// Ticks on which a cancellation is first seen at the start of tick `k + 1`
/// (counting from one), having been requested during tick `k`, followed by
/// `rest`. With `k == 0` it was requested before the first tick.
pub open spec fn raised_during(k: nat, rest: Seq<bool>) -> Seq<bool> {
    calm(k).push(true) + rest
}

/// The steps of an uninterrupted countdown that has `r` seconds left: each
/// remaining count from `r` down to one, then the expiry.
pub open spec fn countdown_from(r: nat) -> Seq<Step> {
    Seq::new(r + 1, |i: int| if i < r { Step::Show((r - i) as u64) } else { Step::Expired })
}

proof fn lemma_calm_run(c: Countdown)
    requires
        c.wf(),
        c.phase == Phase::Counting,
    ensures
        c.steps(calm((c.remaining + 1) as nat)) == countdown_from(c.remaining as nat),
        c.after(calm((c.remaining + 1) as nat)).phase == Phase::Expired,
    decreases c.remaining,
{
    let cancels = calm((c.remaining + 1) as nat);
    assert(cancels.drop_first() =~= calm(c.remaining as nat));
    assert(cancels[0] == false);
    if c.remaining == 0 {
        let e = c.next(false).0;
        assert(e.steps(calm(0)) =~= Seq::<Step>::empty());
        assert(e.after(calm(0)) == e);
        assert(c.steps(cancels) =~= countdown_from(0));
    } else {
        let d = c.next(false).0;
        lemma_calm_run(d);
        assert(c.steps(cancels) =~= countdown_from(c.remaining as nat));
    }
}

/// A countdown of `total` seconds that is never cancelled reports every
/// remaining count from `total` down to one, each once and in order, then
/// expires, ending the run with status 0.
pub proof fn lemma_uninterrupted_countdown(total: u64)
    requires
        total > 0,
    ensures
        Countdown::start(total).steps(calm((total + 1) as nat)) == countdown_from(total as nat),
        Countdown::start(total).after(calm((total + 1) as nat)).phase == Phase::Expired,
        countdown_from(total as nat).last().exit_status() == Some(0i32),
{
    lemma_calm_run(Countdown::start(total));
}

proof fn lemma_steps_len(c: Countdown, cancels: Seq<bool>)
    ensures
        c.steps(cancels).len() == cancels.len(),
    decreases cancels.len(),
{
    if cancels.len() > 0 {
        lemma_steps_len(c.next(cancels[0]).0, cancels.drop_first());
    }
}

proof fn lemma_interrupted_stays(c: Countdown, cancels: Seq<bool>)
    requires
        c.phase == Phase::Interrupted,
    ensures
        forall|i: int| 0 <= i < cancels.len() ==> #[trigger] c.steps(cancels)[i] == Step::Interrupted,
        c.after(cancels) == c,
    decreases cancels.len(),
{
    lemma_steps_len(c, cancels);
    if cancels.len() > 0 {
        lemma_interrupted_stays(c, cancels.drop_first());
        lemma_steps_len(c, cancels.drop_first());
        assert forall|i: int| 0 <= i < cancels.len() implies #[trigger] c.steps(cancels)[i]
            == Step::Interrupted by {
            if i > 0 {
                assert(c.steps(cancels)[i] == c.steps(cancels.drop_first())[i - 1]);
            }
        }
    }
}

proof fn lemma_calm_prefix(c: Countdown, j: nat, rest: Seq<bool>)
    requires
        c.wf(),
        c.phase == Phase::Counting,
        j <= c.remaining,
    ensures
        c.steps(calm(j) + rest) == Seq::new(j, |i: int| Step::Show((c.remaining - i) as u64))
            + c.with_remaining((c.remaining - j) as u64).steps(rest),
        c.after(calm(j) + rest) == c.with_remaining((c.remaining - j) as u64).after(
            rest,
        ),
    decreases j,
{
    let cancels = calm(j) + rest;
    if j == 0 {
        assert(cancels =~= rest);
        assert(c.with_remaining((c.remaining - j) as u64) == c);
        assert(c.steps(cancels) =~= Seq::new(j, |i: int| Step::Show((c.remaining - i) as u64))
            + c.steps(rest));
    } else {
        let d = c.next(false).0;
        assert(cancels[0] == false);
        assert(cancels.drop_first() =~= calm((j - 1) as nat) + rest);
        lemma_calm_prefix(d, (j - 1) as nat, rest);
        assert(d.with_remaining((d.remaining - (j - 1)) as u64) == c.with_remaining((c.remaining - j) as u64));
        assert(c.steps(cancels) =~= Seq::new(j, |i: int| Step::Show((c.remaining - i) as u64))
            + c.with_remaining((c.remaining - j) as u64).steps(rest));
    }
}

/// A cancellation requested during tick `k` of a countdown of `total`
/// seconds (`1 <= k <= total`, or `k == 0` for one requested before the first
/// tick) ends the countdown at the very next tick, within one second: the
/// first `k` ticks report `total` down to `total - k + 1`, tick `k + 1` and
/// every later one report the interruption, which ends the run with status
/// 2, and the countdown never expires, so no completion step runs. This holds
/// for a request during the last second too, at the tick that would
/// otherwise have expired.
pub proof fn lemma_cancellation_observed(total: u64, k: nat, rest: Seq<bool>)
    requires
        0 < total,
        k <= total,
    ensures
        Countdown::start(total).steps(raised_during(k, rest)).len() == raised_during(k, rest).len(),
        forall|i: int|
            0 <= i < k ==> Countdown::start(total).steps(raised_during(k, rest))[i] == Step::Show(
                (total - i) as u64,
            ),
        forall|i: int|
            k <= i < raised_during(k, rest).len() ==> Countdown::start(total).steps(
                raised_during(k, rest),
            )[i] == Step::Interrupted,
        forall|i: int|
            0 <= i < raised_during(k, rest).len() ==> Countdown::start(total).steps(
                raised_during(k, rest),
            )[i] != Step::Expired,
        Countdown::start(total).after(raised_during(k, rest)).phase == Phase::Interrupted,
        Step::Interrupted.exit_status() == Some(2i32),
{
    let c = Countdown::start(total);
    let tail = seq![true] + rest;
    let cancels = raised_during(k, rest);
    assert(cancels =~= calm(k) + tail);
    lemma_calm_prefix(c, k, tail);
    let d = c.with_remaining((c.remaining - k) as u64);
    let e = d.next(true).0;
    assert(tail[0] == true);
    assert(tail.drop_first() =~= rest);
    lemma_interrupted_stays(e, rest);
    lemma_steps_len(e, rest);
    lemma_steps_len(c, cancels);
    let steps = c.steps(cancels);
    let head = Seq::new(k, |i: int| Step::Show((c.remaining - i) as u64));
    assert(d.steps(tail) == seq![Step::Interrupted] + e.steps(rest));
    assert(steps == head + (seq![Step::Interrupted] + e.steps(rest)));
    assert forall|i: int| k <= i < steps.len() implies steps[i] == Step::Interrupted by {
        if i > k {
            assert(steps[i] == e.steps(rest)[i - k - 1]);
        }
    }
}

} // verus!
