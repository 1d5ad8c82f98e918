//! Decision thresholds that adapt to feedback, one for each context.
//!
//! Readers always see the last snapshot that a learning cycle committed. A
//! cycle works on a snapshot of its own, which takes the place of the
//! committed one in a single step when the cycle ends.

use vstd::prelude::*;
use crate::fixed::{clamp_unit, is_unit, Ppm, ONE};

verus! {

/// Why a request to the threshold manager was refused.
#[derive(Debug, Clone, Copy, PartialEq, Eq, Structural)]
pub enum ThresholdError {
    /// A learning cycle is already in progress.
    CycleInProgress,
    /// No learning cycle is in progress.
    NoCycle,
    /// The context named is not one of the manager's.
    UnknownContext,
}

/// The threshold that answers feedback on a threshold `current`: where
/// false positives exceed their target and are no fewer than the false
/// negatives, it rises by the excess; where false negatives outnumber the
/// false positives, it falls by the difference. It moves by `max_step` at
/// most, and stays between 0 and 1.
pub open spec fn adjusted(
    current: Ppm,
    false_positive_rate: Ppm,
    false_negative_rate: Ppm,
    target_false_positive_rate: Ppm,
    max_step: Ppm,
) -> int {
    if false_positive_rate > target_false_positive_rate && false_positive_rate
        >= false_negative_rate {
        let excess = false_positive_rate - target_false_positive_rate;
        let step = if excess < max_step {
            excess
        } else {
            max_step as int
        };
        if current + step > ONE {
            ONE as int
        } else {
            current + step
        }
    } else if false_negative_rate > false_positive_rate {
        let lack = false_negative_rate - false_positive_rate;
        let step = if lack < max_step {
            lack
        } else {
            max_step as int
        };
        if current < step {
            0
        } else {
            current - step
        }
    } else {
        current as int
    }
}

/// An adjusted threshold stays in the unit interval and is no further than
/// one step from where it was.
pub proof fn lemma_adjusted_is_bounded(
    current: Ppm,
    false_positive_rate: Ppm,
    false_negative_rate: Ppm,
    target_false_positive_rate: Ppm,
    max_step: Ppm,
)
    requires
        is_unit(current),
    ensures
        0 <= adjusted(
            current,
            false_positive_rate,
            false_negative_rate,
            target_false_positive_rate,
            max_step,
        ) <= ONE,
        current - max_step <= adjusted(
            current,
            false_positive_rate,
            false_negative_rate,
            target_false_positive_rate,
            max_step,
        ) <= current + max_step,
{
}

/// Adjusts a threshold to feedback.
pub fn adjust(
    current: Ppm,
    false_positive_rate: Ppm,
    false_negative_rate: Ppm,
    target_false_positive_rate: Ppm,
    max_step: Ppm,
) -> (r: Ppm)
    requires
        is_unit(current),
    ensures
        r == adjusted(
            current,
            false_positive_rate,
            false_negative_rate,
            target_false_positive_rate,
            max_step,
        ),
        is_unit(r),
{
    if false_positive_rate > target_false_positive_rate && false_positive_rate
        >= false_negative_rate {
        let excess = false_positive_rate - target_false_positive_rate;
        let step = if excess < max_step {
            excess
        } else {
            max_step
        };
        if step > ONE - current {
            ONE
        } else {
            current + step
        }
    } else if false_negative_rate > false_positive_rate {
        let lack = false_negative_rate - false_positive_rate;
        let step = if lack < max_step {
            lack
        } else {
            max_step
        };
        if current < step {
            0
        } else {
            current - step
        }
    } else {
        current
    }
}

/// The value of a [`ThresholdManager`].
pub struct ThresholdView {
    /// The threshold that every context starts from.
    pub base: Ppm,
    /// The most that a threshold moves in one learning cycle.
    pub max_step: Ppm,
    pub target_false_positive_rate: Ppm,
    /// Whether the thresholds adapt; where they do not, `base` is used.
    pub adaptive: bool,
    /// The committed thresholds, one for each context.
    pub stable: Seq<Ppm>,
    /// The thresholds that the learning cycle in progress works on.
    pub pending: Option<Seq<Ppm>>,
}

/// Whether every threshold of a list lies in the unit interval.
pub open spec fn all_unit(values: Seq<Ppm>) -> bool {
    forall|i: int| 0 <= i < values.len() ==> is_unit(#[trigger] values[i])
}

/// Whether `next` has a threshold for each context of `current`, none further than `max_step` away.
pub open spec fn within_step(current: Seq<Ppm>, next: Seq<Ppm>, max_step: Ppm) -> bool {
    &&& next.len() == current.len()
    &&& forall|i: int|
        0 <= i < current.len() ==> current[i] - max_step <= (#[trigger] next[i]) <= current[i]
            + max_step
}

/// What holds of every threshold manager: all thresholds lie in the unit
/// interval, and a cycle in progress holds a threshold for each context, no
/// further than one step from the committed one.
pub open spec fn consistent(v: ThresholdView) -> bool {
    &&& is_unit(v.base)
    &&& all_unit(v.stable)
    &&& v.pending matches Some(pending) ==> all_unit(pending) && within_step(
        v.stable,
        pending,
        v.max_step,
    )
}

/// The threshold in force for a context: the committed one where the
/// thresholds adapt and the context is known, the base threshold otherwise.
pub open spec fn effective(v: ThresholdView, context: int) -> Ppm {
    if v.adaptive && 0 <= context < v.stable.len() {
        v.stable[context]
    } else {
        v.base
    }
}

/// The manager after a learning cycle has begun.
pub open spec fn cycle_begun(v: ThresholdView) -> ThresholdView {
    ThresholdView { pending: Some(v.stable), ..v }
}

/// The manager after feedback on a context has been taken into the cycle in progress.
pub open spec fn fed(
    v: ThresholdView,
    context: int,
    false_positive_rate: Ppm,
    false_negative_rate: Ppm,
) -> ThresholdView {
    ThresholdView {
        pending: Some(
            v.pending->Some_0.update(
                context,
                adjusted(
                    v.stable[context],
                    false_positive_rate,
                    false_negative_rate,
                    v.target_false_positive_rate,
                    v.max_step,
                ) as Ppm,
            ),
        ),
        ..v
    }
}

/// The thresholds that answer the same feedback in every context.
pub open spec fn all_adjusted(
    v: ThresholdView,
    false_positive_rate: Ppm,
    false_negative_rate: Ppm,
) -> Seq<Ppm> {
    Seq::new(
        v.stable.len(),
        |c: int|
            adjusted(
                v.stable[c],
                false_positive_rate,
                false_negative_rate,
                v.target_false_positive_rate,
                v.max_step,
            ) as Ppm,
    )
}

/// The manager after the same feedback has been taken into the cycle in
/// progress for every context.
pub open spec fn fed_all(v: ThresholdView, false_positive_rate: Ppm, false_negative_rate: Ppm)
    -> ThresholdView {
    ThresholdView {
        pending: Some(all_adjusted(v, false_positive_rate, false_negative_rate)),
        ..v
    }
}

/// The manager after a whole learning cycle on the same feedback for every context.
pub open spec fn learned(v: ThresholdView, false_positive_rate: Ppm, false_negative_rate: Ppm)
    -> ThresholdView {
    ThresholdView {
        stable: all_adjusted(v, false_positive_rate, false_negative_rate),
        pending: None,
        ..v
    }
}

/// The manager after the cycle in progress has been committed.
pub open spec fn committed(v: ThresholdView) -> ThresholdView {
    ThresholdView { stable: v.pending->Some_0, pending: None, ..v }
}

/// The manager after the cycle in progress has been given up.
pub open spec fn aborted(v: ThresholdView) -> ThresholdView {
    ThresholdView { pending: None, ..v }
}

/// Holds the thresholds.
#[derive(Debug)]
pub struct ThresholdManager {
    base: Ppm,
    max_step: Ppm,
    target_false_positive_rate: Ppm,
    adaptive: bool,
    stable: Vec<Ppm>,
    pending: Option<Vec<Ppm>>,
}

impl View for ThresholdManager {
    type V = ThresholdView;

    closed spec fn view(&self) -> ThresholdView {
        ThresholdView {
            base: self.base,
            max_step: self.max_step,
            target_false_positive_rate: self.target_false_positive_rate,
            adaptive: self.adaptive,
            stable: self.stable@,
            pending: match self.pending {
                Some(p) => Some(p@),
                None => None,
            },
        }
    }
}

/// A list that holds `value` `count` times.
fn repeated(value: Ppm, count: usize) -> (r: Vec<Ppm>)
    ensures
        r@ == Seq::new(count as nat, |i: int| value),
{
    let mut out: Vec<Ppm> = Vec::new();
    let mut i: usize = 0;
    while i < count
        invariant
            i <= count,
            out@.len() == i,
            forall|j: int| 0 <= j < i ==> out@[j] == value,
        decreases count - i,
    {
        out.push(value);
        i += 1;
    }
    assert(out@ =~= Seq::new(count as nat, |i: int| value));
    out
}

/// A copy of a list of thresholds.
fn copy_thresholds(values: &Vec<Ppm>) -> (r: Vec<Ppm>)
    ensures
        r@ == values@,
{
    let mut out: Vec<Ppm> = Vec::new();
    let mut i: usize = 0;
    while i < values.len()
        invariant
            i <= values.len(),
            out@ == values@.subrange(0, i as int),
        decreases values.len() - i,
    {
        out.push(values[i]);
        assert(out@ =~= values@.subrange(0, i + 1));
        i += 1;
    }
    assert(values@.subrange(0, values@.len() as int) =~= values@);
    out
}

impl ThresholdManager {
    #[verifier::type_invariant]
    spec fn inv(&self) -> bool {
        consistent(self@)
    }

    /// A manager for `contexts` contexts, each starting from `base`, which
    /// is limited to the unit interval.
    pub fn new(
        base: Ppm,
        max_step: Ppm,
        target_false_positive_rate: Ppm,
        adaptive: bool,
        contexts: usize,
    ) -> (r: Self)
        ensures
            consistent(r@),
            r@ == (ThresholdView {
                base: if base > ONE {
                    ONE
                } else {
                    base
                },
                max_step,
                target_false_positive_rate,
                adaptive,
                stable: Seq::new(
                    contexts as nat,
                    |i: int|
                        if base > ONE {
                            ONE
                        } else {
                            base
                        },
                ),
                pending: None,
            }),
    {
        let start = clamp_unit(base as u64);
        let stable = repeated(start, contexts);
        assert(stable@ =~= Seq::new(
            contexts as nat,
            |i: int|
                if base > ONE {
                    ONE
                } else {
                    base
                },
        ));
        ThresholdManager {
            base: start,
            max_step,
            target_false_positive_rate,
            adaptive,
            stable,
            pending: None,
        }
    }

    /// The threshold in force for a context.
    pub fn threshold(&self, context: usize) -> (r: Ppm)
        ensures
            consistent(self@),
            r == effective(self@, context as int),
            is_unit(r),
    {
        proof {
            use_type_invariant(self);
        }
        if self.adaptive && context < self.stable.len() {
            self.stable[context]
        } else {
            self.base
        }
    }

    /// The number of contexts.
    pub fn contexts(&self) -> (r: usize)
        ensures
            r == self@.stable.len(),
    {
        self.stable.len()
    }

    /// Whether a learning cycle is in progress.
    pub fn is_learning(&self) -> (r: bool)
        ensures
            r == (self@.pending is Some),
    {
        self.pending.is_some()
    }

    /// Begins a learning cycle. The thresholds in force stay as they are.
    pub fn begin_cycle(&mut self) -> (r: Result<(), ThresholdError>)
        ensures
            consistent(old(self)@),
            consistent(final(self)@),
            old(self)@.pending is Some ==> r == Err::<(), ThresholdError>(
                ThresholdError::CycleInProgress,
            ) && final(self)@ == old(self)@,
            old(self)@.pending is None ==> r is Ok && final(self)@ == cycle_begun(old(self)@),
    {
        proof {
            use_type_invariant(&*self);
        }
        if self.pending.is_some() {
            return Err(ThresholdError::CycleInProgress);
        }
        let snapshot = copy_thresholds(&self.stable);
        self.pending = Some(snapshot);
        Ok(())
    }

    /// Why feedback on a context cannot be taken, if it cannot.
    pub open spec fn feed_refusal(v: ThresholdView, context: int) -> Option<ThresholdError> {
        if v.pending is None {
            Some(ThresholdError::NoCycle)
        } else if !(0 <= context < v.stable.len()) {
            Some(ThresholdError::UnknownContext)
        } else {
            None
        }
    }

    /// Takes feedback on a context into the learning cycle in progress. The
    /// thresholds in force stay as they are until the cycle is committed.
    pub fn feed(&mut self, context: usize, false_positive_rate: Ppm, false_negative_rate: Ppm) -> (r:
        Result<(), ThresholdError>)
        ensures
            consistent(old(self)@),
            consistent(final(self)@),
            match Self::feed_refusal(old(self)@, context as int) {
                Some(e) => r == Err::<(), ThresholdError>(e) && final(self)@ == old(self)@,
                None => r is Ok && final(self)@ == fed(
                    old(self)@,
                    context as int,
                    false_positive_rate,
                    false_negative_rate,
                ),
            },
    {
        proof {
            use_type_invariant(&*self);
        }
        if self.pending.is_none() {
            return Err(ThresholdError::NoCycle);
        }
        if context >= self.stable.len() {
            return Err(ThresholdError::UnknownContext);
        }
        let mut taken: Option<Vec<Ppm>> = None;
        core::mem::swap(&mut self.pending, &mut taken);
        let mut pending = taken.unwrap();
        let next = adjust(
            self.stable[context],
            false_positive_rate,
            false_negative_rate,
            self.target_false_positive_rate,
            self.max_step,
        );
        proof {
            lemma_adjusted_is_bounded(
                self.stable[context as int],
                false_positive_rate,
                false_negative_rate,
                self.target_false_positive_rate,
                self.max_step,
            );
        }
        pending.set(context, next);
        self.pending = Some(pending);
        Ok(())
    }

    /// Takes the same feedback into the learning cycle in progress for every context.
    pub fn feed_all(&mut self, false_positive_rate: Ppm, false_negative_rate: Ppm) -> (r: Result<
        (),
        ThresholdError,
    >)
        ensures
            consistent(old(self)@),
            consistent(final(self)@),
            old(self)@.pending is None ==> r == Err::<(), ThresholdError>(ThresholdError::NoCycle)
                && final(self)@ == old(self)@,
            old(self)@.pending is Some ==> r is Ok && final(self)@ == fed_all(
                old(self)@,
                false_positive_rate,
                false_negative_rate,
            ),
    {
        proof {
            use_type_invariant(&*self);
        }
        if self.pending.is_none() {
            return Err(ThresholdError::NoCycle);
        }
        let n = self.stable.len();
        let mut next: Vec<Ppm> = Vec::new();
        let mut c: usize = 0;
        while c < n
            invariant
                c <= n,
                n == self.stable@.len(),
                all_unit(self.stable@),
                next@.len() == c,
                forall|i: int|
                    0 <= i < c ==> (#[trigger] next@[i]) == adjusted(
                        self.stable@[i],
                        false_positive_rate,
                        false_negative_rate,
                        self.target_false_positive_rate,
                        self.max_step,
                    ),
            decreases n - c,
        {
            let value = adjust(
                self.stable[c],
                false_positive_rate,
                false_negative_rate,
                self.target_false_positive_rate,
                self.max_step,
            );
            next.push(value);
            c += 1;
        }
        proof {
            assert(next@ =~= all_adjusted(self@, false_positive_rate, false_negative_rate));
            assert forall|i: int| 0 <= i < next@.len() implies is_unit(#[trigger] next@[i])
                && self.stable@[i] - self.max_step <= next@[i] <= self.stable@[i]
                + self.max_step by {
                lemma_adjusted_is_bounded(
                    self.stable@[i],
                    false_positive_rate,
                    false_negative_rate,
                    self.target_false_positive_rate,
                    self.max_step,
                );
            }
        }
        self.pending = Some(next);
        Ok(())
    }

    /// Commits the learning cycle in progress: its thresholds come into force, all at once.
    pub fn commit_cycle(&mut self) -> (r: Result<(), ThresholdError>)
        ensures
            consistent(old(self)@),
            consistent(final(self)@),
            old(self)@.pending is None ==> r == Err::<(), ThresholdError>(ThresholdError::NoCycle)
                && final(self)@ == old(self)@,
            old(self)@.pending is Some ==> r is Ok && final(self)@ == committed(old(self)@),
    {
        proof {
            use_type_invariant(&*self);
        }
        let mut taken: Option<Vec<Ppm>> = None;
        core::mem::swap(&mut self.pending, &mut taken);
        match taken {
            Some(p) => {
                self.stable = p;
                Ok(())
            },
            None => Err(ThresholdError::NoCycle),
        }
    }

    /// Gives up the learning cycle in progress: the thresholds in force stay.
    pub fn abort_cycle(&mut self) -> (r: Result<(), ThresholdError>)
        ensures
            consistent(final(self)@),
            old(self)@.pending is None ==> r == Err::<(), ThresholdError>(ThresholdError::NoCycle)
                && final(self)@ == old(self)@,
            old(self)@.pending is Some ==> r is Ok && final(self)@ == aborted(old(self)@),
    {
        proof {
            use_type_invariant(&*self);
        }
        let mut taken: Option<Vec<Ppm>> = None;
        core::mem::swap(&mut self.pending, &mut taken);
        match taken {
            Some(_) => Ok(()),
            None => Err(ThresholdError::NoCycle),
        }
    }
}

/// While a learning cycle runs, the thresholds in force are those that
/// were committed last: beginning a cycle, feeding it and giving it up
/// change none of them.
pub proof fn lemma_cycle_keeps_thresholds_in_force(
    v: ThresholdView,
    context: int,
    fed_context: int,
    false_positive_rate: Ppm,
    false_negative_rate: Ppm,
)
    ensures
        effective(cycle_begun(v), context) == effective(v, context),
        effective(fed(v, fed_context, false_positive_rate, false_negative_rate), context)
            == effective(v, context),
        effective(aborted(v), context) == effective(v, context),
{
}

/// Whatever the feedback, a whole learning cycle leaves every threshold in
/// the unit interval and no further than one step from where it was.
pub proof fn lemma_learning_is_bounded(
    v: ThresholdView,
    false_positive_rate: Ppm,
    false_negative_rate: Ppm,
    context: int,
)
    requires
        consistent(v),
    ensures
        consistent(learned(v, false_positive_rate, false_negative_rate)),
        is_unit(effective(learned(v, false_positive_rate, false_negative_rate), context)),
        effective(v, context) - v.max_step <= effective(
            learned(v, false_positive_rate, false_negative_rate),
            context,
        ) <= effective(v, context) + v.max_step,
{
    let next = learned(v, false_positive_rate, false_negative_rate);
    assert forall|c: int| 0 <= c < next.stable.len() implies is_unit(#[trigger] next.stable[c])
        && v.stable[c] - v.max_step <= next.stable[c] <= v.stable[c] + v.max_step by {
        lemma_adjusted_is_bounded(
            v.stable[c],
            false_positive_rate,
            false_negative_rate,
            v.target_false_positive_rate,
            v.max_step,
        );
    }
}

/// A committed cycle leaves every threshold in the unit interval and moves
/// each by one step at most.
pub proof fn lemma_commit_is_bounded(v: ThresholdView, context: int)
    requires
        consistent(v),
        v.pending is Some,
    ensures
        consistent(committed(v)),
        is_unit(effective(committed(v), context)),
        effective(v, context) - v.max_step <= effective(committed(v), context) <= effective(
            v,
            context,
        ) + v.max_step,
{
}

} // verus!
