//! The mathematical model of a duration record.
//!
//! Contracts of the executable record speak of a [`DurationModel`]: two anchors
//! and six counters as natural numbers, with the transitions written as pure
//! functions.

use vstd::prelude::*;

verus! {

/// One of the six cycle counters of a record.
#[derive(Clone, Copy, Debug, PartialEq, Eq, Structural)]
pub enum Bucket {
    /// The whole measured operation, bounded by the total anchor.
    Total,
    /// Looking up the block's total difficulty.
    BlockTd,
    /// Fetching the block together with its senders.
    BlockWithSenders,
    /// Executing the block's transactions.
    Execution,
    /// Extracting the output state.
    TakeOutputState,
    /// Writing the results to the database.
    WriteToDb,
}

/// Why an interval could not be added to a counter.
#[derive(Clone, Copy, Debug, PartialEq, Eq, Structural)]
pub enum DurationError {
    /// The clock reading lies before the anchor: the elapsed count would be
    /// negative.
    ClockBehindAnchor,
    /// The counter plus the elapsed cycles does not fit in 64 bits.
    CounterOverflow,
}

impl Bucket {
    /// The five named phases, that is every bucket but `Total`.
    pub open spec fn is_phase(self) -> bool {
        self != Bucket::Total
    }
}

/// One operation on a record, with the clock reading that it is given.
pub enum Step {
    /// Set the total anchor.
    StartTotal(nat),
    /// Set the phase anchor.
    StartPhase(nat),
    /// Add the interval that ends at the reading to a bucket.
    Add(Bucket, nat),
}

impl Step {
    /// The clock reading that the operation is given.
    pub open spec fn reading(self) -> nat {
        match self {
            Step::StartTotal(now) => now,
            Step::StartPhase(now) => now,
            Step::Add(_, now) => now,
        }
    }

    /// The operation belongs to the whole-operation bracket: it sets the
    /// total anchor or adds to the total.
    pub open spec fn touches_total(self) -> bool {
        match self {
            Step::StartTotal(_) => true,
            Step::StartPhase(_) => false,
            Step::Add(bucket, _) => bucket == Bucket::Total,
        }
    }
}

/// No operation in `steps` sets the total anchor or adds to the total.
pub open spec fn phases_only(steps: Seq<Step>) -> bool {
    forall|i: int| 0 <= i < steps.len() ==> !(#[trigger] steps[i]).touches_total()
}

/// Two anchors and six counters, as natural numbers.
pub struct DurationModel {
    /// Clock reading at which the whole operation started.
    pub total_anchor: nat,
    /// Clock reading at which the current phase started.
    pub phase_anchor: nat,
    pub total: nat,
    pub block_td: nat,
    pub block_with_senders: nat,
    pub execution: nat,
    pub take_output_state: nat,
    pub write_to_db: nat,
}

impl DurationModel {
    /// The fresh record: anchors at the clock's origin, all counters zero.
    pub open spec fn zero() -> DurationModel {
        DurationModel {
            total_anchor: 0,
            phase_anchor: 0,
            total: 0,
            block_td: 0,
            block_with_senders: 0,
            execution: 0,
            take_output_state: 0,
            write_to_db: 0,
        }
    }

    /// Every anchor and counter fits in 64 bits.
    pub open spec fn in_range(self) -> bool {
        &&& self.total_anchor <= u64::MAX
        &&& self.phase_anchor <= u64::MAX
        &&& self.total <= u64::MAX
        &&& self.block_td <= u64::MAX
        &&& self.block_with_senders <= u64::MAX
        &&& self.execution <= u64::MAX
        &&& self.take_output_state <= u64::MAX
        &&& self.write_to_db <= u64::MAX
    }

    /// The value of one counter.
    pub open spec fn counter(self, bucket: Bucket) -> nat {
        match bucket {
            Bucket::Total => self.total,
            Bucket::BlockTd => self.block_td,
            Bucket::BlockWithSenders => self.block_with_senders,
            Bucket::Execution => self.execution,
            Bucket::TakeOutputState => self.take_output_state,
            Bucket::WriteToDb => self.write_to_db,
        }
    }

    /// The anchor that bounds intervals of `bucket`: the total anchor for
    /// `Total`, the phase anchor for the five phases.
    pub open spec fn anchor(self, bucket: Bucket) -> nat {
        match bucket {
            Bucket::Total => self.total_anchor,
            _ => self.phase_anchor,
        }
    }

    /// This model with one counter replaced.
    pub open spec fn with_counter(self, bucket: Bucket, value: nat) -> DurationModel {
        match bucket {
            Bucket::Total => DurationModel { total: value, ..self },
            Bucket::BlockTd => DurationModel { block_td: value, ..self },
            Bucket::BlockWithSenders => DurationModel { block_with_senders: value, ..self },
            Bucket::Execution => DurationModel { execution: value, ..self },
            Bucket::TakeOutputState => DurationModel { take_output_state: value, ..self },
            Bucket::WriteToDb => DurationModel { write_to_db: value, ..self },
        }
    }

    /// Cycles from the anchor of `bucket` to the reading `now`; negative when
    /// `now` lies before the anchor.
    pub open spec fn elapsed(self, bucket: Bucket, now: nat) -> int {
        now - self.anchor(bucket)
    }

    /// Whether the interval that ends at `now` can be added to `bucket`, and
    /// if not, why not. The elapsed count is looked at first.
    pub open spec fn check_add(self, bucket: Bucket, now: nat) -> Result<(), DurationError> {
        if self.elapsed(bucket, now) < 0 {
            Err(DurationError::ClockBehindAnchor)
        } else if self.counter(bucket) + self.elapsed(bucket, now) > u64::MAX {
            Err(DurationError::CounterOverflow)
        } else {
            Ok(())
        }
    }

    /// The interval that ends at `now` is not negative and the counter of
    /// `bucket` has room for it.
    pub open spec fn can_add(self, bucket: Bucket, now: nat) -> bool {
        self.check_add(bucket, now) is Ok
    }

    /// Capture `now` as the start of the whole operation.
    pub open spec fn start_total(self, now: nat) -> DurationModel {
        DurationModel { total_anchor: now, ..self }
    }

    /// Capture `now` as the start of the next phase.
    pub open spec fn start_phase(self, now: nat) -> DurationModel {
        DurationModel { phase_anchor: now, ..self }
    }

    /// Add the interval that ends at `now` to `bucket`. Where it cannot be
    /// added the model stays as it is.
    pub open spec fn add(self, bucket: Bucket, now: nat) -> DurationModel {
        if self.can_add(bucket, now) {
            self.with_counter(bucket, (self.counter(bucket) + self.elapsed(bucket, now)) as nat)
        } else {
            self
        }
    }

    /// The effect of one operation.
    pub open spec fn step(self, step: Step) -> DurationModel {
        match step {
            Step::StartTotal(now) => self.start_total(now),
            Step::StartPhase(now) => self.start_phase(now),
            Step::Add(bucket, now) => self.add(bucket, now),
        }
    }

    /// The effect of a sequence of operations, first to last.
    pub open spec fn run(self, steps: Seq<Step>) -> DurationModel
        decreases steps.len(),
    {
        if steps.len() == 0 {
            self
        } else {
            self.run(steps.drop_last()).step(steps.last())
        }
    }

    /// Sum of the five phase counters.
    pub open spec fn named_sum(self) -> nat {
        self.block_td + self.block_with_senders + self.execution + self.take_output_state
            + self.write_to_db
    }

    /// Cycles of the total that no phase accounts for. Negative when the
    /// phases add up to more than the total.
    pub open spec fn misc(self) -> int {
        self.total - self.named_sum()
    }

    /// `misc` reduced to 64 bits: a negative remainder wraps around.
    pub open spec fn misc_wrapped(self) -> int {
        self.misc() % 0x1_0000_0000_0000_0000
    }
}

} // verus!
