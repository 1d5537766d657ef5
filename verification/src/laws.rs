//! What holds of every record, stated over the model and proved.

use vstd::prelude::*;
use crate::model::phases_only;
use crate::model::Bucket;
use crate::model::DurationError;
use crate::model::DurationModel;
use crate::model::Step;

verus! {

/// The answer to an interval that the counter has no room for.
pub open spec fn overflow() -> Result<(), DurationError> {
    Err(DurationError::CounterOverflow)
}

/// A phase interval adds exactly its length: after the phase anchor is set at
/// `start` and the interval is closed at `end`, the counter of the phase
/// holds what it held before plus `end - start`, and no other counter has
/// changed.
pub proof fn lemma_phase_interval_adds_elapsed(
    m: DurationModel,
    bucket: Bucket,
    start: nat,
    end: nat,
)
    requires
        bucket.is_phase(),
        start <= end,
        m.counter(bucket) + (end - start) <= u64::MAX,
    ensures
        m.start_phase(start).can_add(bucket, end),
        m.start_phase(start).add(bucket, end).counter(bucket) == m.counter(bucket) + (end - start),
        forall|other: Bucket|
            other != bucket ==> m.start_phase(start).add(bucket, end).counter(other)
                == m.counter(other),
{
}

/// Operations on the phases leave the whole-operation bracket alone: neither
/// the total anchor nor the total changes.
pub proof fn lemma_phases_keep_total_bracket(m: DurationModel, steps: Seq<Step>)
    requires
        phases_only(steps),
    ensures
        m.run(steps).total_anchor == m.total_anchor,
        m.run(steps).total == m.total,
    decreases steps.len(),
{
    if steps.len() > 0 {
        let before = steps.drop_last();
        assert forall|i: int| 0 <= i < before.len() implies !(#[trigger] before[i]).touches_total() by {
            assert(before[i] == steps[i]);
        }
        lemma_phases_keep_total_bracket(m, before);
        assert(!steps[steps.len() - 1].touches_total());
    }
}

/// The total measures its bracket: when the total anchor is set at `start`,
/// any work on the phases follows, and the bracket is closed at `end`, the
/// total has grown by `end - start`. On a fresh record it then equals the
/// length of the bracket.
pub proof fn lemma_total_bracket_adds_elapsed(
    m: DurationModel,
    start: nat,
    steps: Seq<Step>,
    end: nat,
)
    requires
        phases_only(steps),
        start <= end,
        m.total + (end - start) <= u64::MAX,
    ensures
        m.start_total(start).run(steps).can_add(Bucket::Total, end),
        m.start_total(start).run(steps).add(Bucket::Total, end).total == m.total + (end - start),
        m == DurationModel::zero()
            ==> m.start_total(start).run(steps).add(Bucket::Total, end).total == end - start,
{
    lemma_phases_keep_total_bracket(m.start_total(start), steps);
}

/// Counters are cumulative: two intervals recorded one after the other on
/// the same phase add up.
pub proof fn lemma_intervals_accumulate(
    m: DurationModel,
    bucket: Bucket,
    first_start: nat,
    first_end: nat,
    second_start: nat,
    second_end: nat,
)
    requires
        bucket.is_phase(),
        first_start <= first_end,
        second_start <= second_end,
        m.counter(bucket) + (first_end - first_start) + (second_end - second_start) <= u64::MAX,
    ensures
        m.start_phase(first_start).add(bucket, first_end).start_phase(second_start).add(
            bucket,
            second_end,
        ).counter(bucket)
            == m.counter(bucket) + (first_end - first_start) + (second_end - second_start),
{
    lemma_phase_interval_adds_elapsed(m, bucket, first_start, first_end);
    lemma_phase_interval_adds_elapsed(
        m.start_phase(first_start).add(bucket, first_end),
        bucket,
        second_start,
        second_end,
    );
}

/// No operation makes a counter smaller.
pub proof fn lemma_step_never_decreases(m: DurationModel, step: Step, bucket: Bucket)
    ensures
        m.step(step).counter(bucket) >= m.counter(bucket),
{
}

/// No sequence of operations makes a counter smaller.
pub proof fn lemma_run_never_decreases(m: DurationModel, steps: Seq<Step>, bucket: Bucket)
    ensures
        m.run(steps).counter(bucket) >= m.counter(bucket),
    decreases steps.len(),
{
    if steps.len() > 0 {
        lemma_run_never_decreases(m, steps.drop_last(), bucket);
        lemma_step_never_decreases(m.run(steps.drop_last()), steps.last(), bucket);
    }
}

/// A record that fits in 64 bits still does after any operation that is
/// given a 64-bit clock reading: no counter ever wraps.
pub proof fn lemma_step_stays_in_range(m: DurationModel, step: Step)
    requires
        m.in_range(),
        step.reading() <= u64::MAX,
    ensures
        m.step(step).in_range(),
{
}

/// An interval is refused for want of room exactly when its length exceeds
/// what the counter has left, and a refused interval changes nothing. A
/// counter at `u64::MAX` therefore refuses every interval of positive length.
pub proof fn lemma_overflow_is_refused(m: DurationModel, bucket: Bucket, now: nat)
    requires
        m.anchor(bucket) <= now,
    ensures
        m.check_add(bucket, now) == overflow()
            <==> now - m.anchor(bucket) > u64::MAX - m.counter(bucket),
        !m.can_add(bucket, now) ==> m.add(bucket, now) == m,
        m.counter(bucket) == u64::MAX && m.anchor(bucket) < now
            ==> m.check_add(bucket, now) == overflow(),
{
}

/// Where the phases account for no more than the total, `misc` is what is
/// left, without wrapping, and phases and `misc` add up to the total. Where
/// the phases account for all of it, `misc` is zero.
pub proof fn lemma_misc_completes_total(m: DurationModel)
    requires
        m.in_range(),
        m.named_sum() <= m.total,
    ensures
        m.misc_wrapped() == m.misc(),
        m.named_sum() + m.misc_wrapped() == m.total,
        m.named_sum() == m.total ==> m.misc_wrapped() == 0,
{
}

/// `misc` as it is read always lies in the 64-bit range and differs from the
/// true remainder by a multiple of 2^64. Where the phases exceed the total by
/// no more than 2^64, it is the true, negative remainder plus 2^64.
pub proof fn lemma_misc_wraps(m: DurationModel)
    ensures
        0 <= m.misc_wrapped() < 0x1_0000_0000_0000_0000,
        (m.misc_wrapped() - m.misc()) % 0x1_0000_0000_0000_0000 == 0,
        -0x1_0000_0000_0000_0000 <= m.misc() < 0
            ==> m.misc_wrapped() == m.misc() + 0x1_0000_0000_0000_0000,
{
}

} // verus!
