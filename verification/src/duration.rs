//! The executable duration record.

use vstd::prelude::*;
use vstd::arithmetic::div_mod::lemma_fundamental_div_mod_converse;
use crate::model::Bucket;
use crate::model::DurationError;
use crate::model::DurationModel;

verus! {

/// Cycle counts of one measured operation: a total and five named phases.
///
/// The record holds two anchors, one for the whole operation and one that is
/// set anew before each phase. An interval ends when one of the `add_*`
/// operations is given a later clock reading; its length is added to the
/// counter that the operation names. Counters only grow; a new measurement
/// starts from a fresh `default()` record.
#[derive(Clone, Copy, Debug)]
pub struct ExecutionDurationRecord {
    // Anchor of the whole operation.
    total_recorder: u64,
    // Anchor of the current phase.
    time_recorder: u64,
    // Cycles of the whole operation.
    total: u64,
    // Cycles spent looking up the block's total difficulty.
    block_td: u64,
    // Cycles spent fetching the block with its senders.
    block_with_senders: u64,
    // Cycles spent executing transactions.
    execution: u64,
    // Cycles spent extracting the output state.
    take_output_state: u64,
    // Cycles spent writing to the database.
    write_to_db: u64,
}

impl View for ExecutionDurationRecord {
    type V = DurationModel;

    closed spec fn view(&self) -> DurationModel {
        DurationModel {
            total_anchor: self.total_recorder as nat,
            phase_anchor: self.time_recorder as nat,
            total: self.total as nat,
            block_td: self.block_td as nat,
            block_with_senders: self.block_with_senders as nat,
            execution: self.execution as nat,
            take_output_state: self.take_output_state as nat,
            write_to_db: self.write_to_db as nat,
        }
    }
}

impl Default for ExecutionDurationRecord {
    /// The fresh record: both anchors at the clock's origin, all counters zero.
    fn default() -> (r: Self)
        ensures
            r@ == DurationModel::zero(),
    {
        ExecutionDurationRecord {
            total_recorder: 0,
            time_recorder: 0,
            total: 0,
            block_td: 0,
            block_with_senders: 0,
            execution: 0,
            take_output_state: 0,
            write_to_db: 0,
        }
    }
}

// Recording. Each operation takes the current reading of the cycle counter.
impl ExecutionDurationRecord {
    /// Set the total anchor to `now`, whatever it held before.
    pub fn start_total_record(&mut self, now: u64)
        ensures
            final(self)@ == old(self)@.start_total(now as nat),
    {
        self.total_recorder = now;
    }

    /// Set the phase anchor to `now`, for the phase that is about to begin.
    pub fn start_time_record(&mut self, now: u64)
        ensures
            final(self)@ == old(self)@.start_phase(now as nat),
    {
        self.time_recorder = now;
    }

    /// Add the cycles elapsed since the total anchor to the total.
    ///
    /// `now` must not lie before the anchor, and the total must have room for
    /// the interval.
    pub fn add_total_duration(&mut self, now: u64)
        requires
            old(self)@.can_add(Bucket::Total, now as nat),
        ensures
            final(self)@ == old(self)@.add(Bucket::Total, now as nat),
            final(self)@.total == old(self)@.total + (now - old(self)@.total_anchor),
    {
        let cycles = now.checked_sub(self.total_recorder).expect("overflow");
        self.total = self.total.checked_add(cycles).expect("overflow");
    }

    /// Add the cycles elapsed since the phase anchor to the total-difficulty
    /// lookup.
    ///
    /// `now` must not lie before the anchor, and the counter must have room
    /// for the interval.
    pub fn add_block_td_duration(&mut self, now: u64)
        requires
            old(self)@.can_add(Bucket::BlockTd, now as nat),
        ensures
            final(self)@ == old(self)@.add(Bucket::BlockTd, now as nat),
            final(self)@.block_td == old(self)@.block_td + (now - old(self)@.phase_anchor),
    {
        let cycles = now.checked_sub(self.time_recorder).expect("overflow");
        self.block_td = self.block_td.checked_add(cycles).expect("overflow");
    }

    /// Add the cycles elapsed since the phase anchor to the fetching of the
    /// block with its senders.
    ///
    /// `now` must not lie before the anchor, and the counter must have room
    /// for the interval.
    pub fn add_block_with_senders_duration(&mut self, now: u64)
        requires
            old(self)@.can_add(Bucket::BlockWithSenders, now as nat),
        ensures
            final(self)@ == old(self)@.add(Bucket::BlockWithSenders, now as nat),
            final(self)@.block_with_senders
                == old(self)@.block_with_senders + (now - old(self)@.phase_anchor),
    {
        let cycles = now.checked_sub(self.time_recorder).expect("overflow");
        self.block_with_senders = self.block_with_senders.checked_add(cycles).expect("overflow");
    }

    /// Add the cycles elapsed since the phase anchor to the execution of
    /// transactions.
    ///
    /// `now` must not lie before the anchor, and the counter must have room
    /// for the interval.
    pub fn add_execute_tx_duration(&mut self, now: u64)
        requires
            old(self)@.can_add(Bucket::Execution, now as nat),
        ensures
            final(self)@ == old(self)@.add(Bucket::Execution, now as nat),
            final(self)@.execution == old(self)@.execution + (now - old(self)@.phase_anchor),
    {
        let cycles = now.checked_sub(self.time_recorder).expect("overflow");
        self.execution = self.execution.checked_add(cycles).expect("overflow");
    }

    /// Add the cycles elapsed since the phase anchor to the extraction of the
    /// output state.
    ///
    /// `now` must not lie before the anchor, and the counter must have room
    /// for the interval.
    pub fn add_take_output_state_duration(&mut self, now: u64)
        requires
            old(self)@.can_add(Bucket::TakeOutputState, now as nat),
        ensures
            final(self)@ == old(self)@.add(Bucket::TakeOutputState, now as nat),
            final(self)@.take_output_state
                == old(self)@.take_output_state + (now - old(self)@.phase_anchor),
    {
        let cycles = now.checked_sub(self.time_recorder).expect("overflow");
        self.take_output_state = self.take_output_state.checked_add(cycles).expect("overflow");
    }

    /// Add the cycles elapsed since the phase anchor to the database write.
    ///
    /// `now` must not lie before the anchor, and the counter must have room
    /// for the interval.
    pub fn add_write_to_db_duration(&mut self, now: u64)
        requires
            old(self)@.can_add(Bucket::WriteToDb, now as nat),
        ensures
            final(self)@ == old(self)@.add(Bucket::WriteToDb, now as nat),
            final(self)@.write_to_db == old(self)@.write_to_db + (now - old(self)@.phase_anchor),
    {
        let cycles = now.checked_sub(self.time_recorder).expect("overflow");
        self.write_to_db = self.write_to_db.checked_add(cycles).expect("overflow");
    }

    /// Add the interval from the anchor of `bucket` to `now` to that bucket,
    /// or say why it cannot be added and leave the record as it is.
    ///
    /// This is the run-time test of what the `add_*` operations require, for
    /// callers that cannot show it beforehand.
    pub fn try_add_duration(&mut self, bucket: Bucket, now: u64) -> (r: Result<(), DurationError>)
        ensures
            r == old(self)@.check_add(bucket, now as nat),
            final(self)@ == old(self)@.add(bucket, now as nat),
            r is Err ==> *final(self) == *old(self),
    {
        let (anchor, counter) = match bucket {
            Bucket::Total => (self.total_recorder, self.total),
            Bucket::BlockTd => (self.time_recorder, self.block_td),
            Bucket::BlockWithSenders => (self.time_recorder, self.block_with_senders),
            Bucket::Execution => (self.time_recorder, self.execution),
            Bucket::TakeOutputState => (self.time_recorder, self.take_output_state),
            Bucket::WriteToDb => (self.time_recorder, self.write_to_db),
        };
        let cycles = match now.checked_sub(anchor) {
            Some(cycles) => cycles,
            None => {
                return Err(DurationError::ClockBehindAnchor);
            },
        };
        if counter.checked_add(cycles).is_none() {
            return Err(DurationError::CounterOverflow);
        }
        match bucket {
            Bucket::Total => self.add_total_duration(now),
            Bucket::BlockTd => self.add_block_td_duration(now),
            Bucket::BlockWithSenders => self.add_block_with_senders_duration(now),
            Bucket::Execution => self.add_execute_tx_duration(now),
            Bucket::TakeOutputState => self.add_take_output_state_duration(now),
            Bucket::WriteToDb => self.add_write_to_db_duration(now),
        }
        Ok(())
    }
}

// Reading the results.
impl ExecutionDurationRecord {
    /// Every anchor and counter of an executable record fits in 64 bits.
    pub proof fn lemma_view_in_range(&self)
        ensures
            self@.in_range(),
    {
    }

    /// Cycles of the whole operation.
    pub fn total(&self) -> (r: u64)
        ensures
            r == self@.total,
    {
        self.total
    }

    /// Cycles spent looking up the block's total difficulty.
    pub fn block_td(&self) -> (r: u64)
        ensures
            r == self@.block_td,
    {
        self.block_td
    }

    /// Cycles spent fetching the block with its senders.
    pub fn block_with_senders(&self) -> (r: u64)
        ensures
            r == self@.block_with_senders,
    {
        self.block_with_senders
    }

    /// Cycles spent executing transactions.
    pub fn execution(&self) -> (r: u64)
        ensures
            r == self@.execution,
    {
        self.execution
    }

    /// Cycles spent extracting the output state.
    pub fn take_output_state(&self) -> (r: u64)
        ensures
            r == self@.take_output_state,
    {
        self.take_output_state
    }

    /// Cycles spent writing to the database.
    pub fn write_to_db(&self) -> (r: u64)
        ensures
            r == self@.write_to_db,
    {
        self.write_to_db
    }

    /// Cycles of the total that no phase accounts for.
    ///
    /// The subtraction wraps: where the five phases add up to more than the
    /// total, the result is the difference modulo 2^64, a large number, and
    /// not an error.
    pub fn misc(&self) -> (r: u64)
        ensures
            r == self@.misc_wrapped(),
            self@.misc() >= 0 ==> r == self@.misc(),
    {
        let after_block_td = self.total.wrapping_sub(self.block_td);
        let after_senders = after_block_td.wrapping_sub(self.block_with_senders);
        let after_execution = after_senders.wrapping_sub(self.execution);
        let after_output = after_execution.wrapping_sub(self.take_output_state);
        let rest = after_output.wrapping_sub(self.write_to_db);
        proof {
            // Each step borrows 2^64 at most once.
            let b1: int = if self.total < self.block_td { 1 } else { 0 };
            let b2: int = if after_block_td < self.block_with_senders { 1 } else { 0 };
            let b3: int = if after_senders < self.execution { 1 } else { 0 };
            let b4: int = if after_execution < self.take_output_state { 1 } else { 0 };
            let b5: int = if after_output < self.write_to_db { 1 } else { 0 };
            let borrows = b1 + b2 + b3 + b4 + b5;
            assert(rest == self@.misc() + borrows * 0x1_0000_0000_0000_0000);
            lemma_fundamental_div_mod_converse(
                self@.misc(),
                0x1_0000_0000_0000_0000,
                -borrows,
                rest as int,
            );
        }
        rest
    }
}

} // verus!
