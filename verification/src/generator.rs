//! The generator: the state it keeps between calls and the rule by which a
//! clock reading becomes the next identifier.
use vstd::prelude::*;
use crate::bits::field_max;
use crate::bits::shl;
use crate::bits::shift_left;
use crate::clock::now_millis;
use crate::error::ClockFault;

verus! {

/// How many times the clock is polled for the next millisecond before the
/// generator gives up with [`ClockFault::Stalled`]. The wait is a tight
/// poll with no sleep; the bound is there so that it provably ends, and is
/// out of reach of any clock that still runs.
pub const SPIN_BUDGET: u64 = 0xffff_ffff_ffff_ffff;

/// What one clock reading leads to.
#[derive(Debug, Clone, Copy, PartialEq, Eq)]
pub enum Attempt {
    /// An identifier was minted at the reading.
    Minted(u64),
    /// The reading is the millisecond of the last identifier, and every
    /// sequence number of that millisecond has been handed out.
    Exhausted,
    /// The reading is earlier than the last identifier.
    ClockRegressed,
}

/// The mathematical content of a [`Snowflake`].
pub struct SnowflakeState {
    pub datacenter_id: u64,
    pub worker_id: u64,
    pub sequence: u64,
    pub epoch: i64,
    pub max_sequence: u64,
    pub worker_id_shift: u64,
    pub datacenter_id_shift: u64,
    pub timestamp_left_shift: u64,
    pub last_timestamp: i64,
}

impl SnowflakeState {
    /// The sequence number that follows the current one within a
    /// millisecond: one more, cut to the width of the sequence field.
    pub open spec fn next_sequence(self) -> u64 {
        if self.sequence == u64::MAX {
            0
        } else {
            ((self.sequence + 1) as u64) & self.max_sequence
        }
    }

    /// The milliseconds from the epoch to `timestamp`, as a 64-bit word.
    pub open spec fn delta(self, timestamp: i64) -> u64 {
        (timestamp - self.epoch) as u64
    }

    /// The identifier that encodes `timestamp` and `sequence` for this
    /// instance: the four fields, each shifted to its place, or-ed together.
    pub open spec fn encode(self, timestamp: i64, sequence: u64) -> u64 {
        shl(self.delta(timestamp), self.timestamp_left_shift) | shl(
            self.datacenter_id,
            self.datacenter_id_shift,
        ) | shl(self.worker_id, self.worker_id_shift) | sequence
    }

    /// The state with `timestamp` and `sequence` recorded as last used.
    pub open spec fn stamped(self, timestamp: i64, sequence: u64) -> SnowflakeState {
        SnowflakeState { last_timestamp: timestamp, sequence: sequence, ..self }
    }

    /// The sequence number an identifier minted at `now` carries: the next
    /// one within the millisecond of the last identifier, 0 in a later one.
    pub open spec fn sequence_at(self, now: i64) -> u64 {
        if now == self.last_timestamp {
            self.next_sequence()
        } else {
            0
        }
    }

    /// What the clock reading `now` leads to.
    pub open spec fn attempt(self, now: i64) -> Attempt {
        if now < self.last_timestamp {
            Attempt::ClockRegressed
        } else if now == self.last_timestamp && self.next_sequence() == 0 {
            Attempt::Exhausted
        } else {
            Attempt::Minted(self.encode(now, self.sequence_at(now)))
        }
    }

    /// The state after the reading `now`: stamped where an identifier is
    /// minted, unchanged otherwise.
    pub open spec fn after(self, now: i64) -> SnowflakeState {
        if self.attempt(now) is Minted {
            self.stamped(now, self.sequence_at(now))
        } else {
            self
        }
    }

    /// The fields lie side by side below bit 63, the sequence mask covers
    /// the sequence field, and both instance ids fit their fields.
    pub open spec fn wf(self) -> bool {
        &&& self.worker_id_shift <= self.datacenter_id_shift
        &&& self.datacenter_id_shift <= self.timestamp_left_shift
        &&& self.timestamp_left_shift <= 63
        &&& self.max_sequence == field_max(self.worker_id_shift)
        &&& self.worker_id <= field_max(self.worker_id_bits())
        &&& self.datacenter_id <= field_max(self.datacenter_id_bits())
    }

    pub open spec fn worker_id_bits(self) -> u64 {
        (self.datacenter_id_shift - self.worker_id_shift) as u64
    }

    pub open spec fn datacenter_id_bits(self) -> u64 {
        (self.timestamp_left_shift - self.datacenter_id_shift) as u64
    }

    /// The sequence is within its field. This holds from the first
    /// identifier on, whatever the starting sequence was.
    pub open spec fn sequence_in_range(self) -> bool {
        self.sequence <= self.max_sequence
    }

    /// `timestamp` is not before the epoch, and its distance from the epoch
    /// fits the bits that the layout leaves above the datacenter id.
    pub open spec fn encodable(self, timestamp: i64) -> bool {
        0 <= timestamp - self.epoch <= (u64::MAX >> self.timestamp_left_shift)
    }

    /// The identifier that encodes the timestamp and sequence last used.
    pub open spec fn last_id(self) -> u64 {
        self.encode(self.last_timestamp, self.sequence)
    }

    /// The sequence field of `id`.
    pub open spec fn sequence_of(self, id: u64) -> u64 {
        id & self.max_sequence
    }

    /// The worker id field of `id`.
    pub open spec fn worker_id_of(self, id: u64) -> u64 {
        (id >> self.worker_id_shift) & field_max(self.worker_id_bits())
    }

    /// The datacenter id field of `id`.
    pub open spec fn datacenter_id_of(self, id: u64) -> u64 {
        (id >> self.datacenter_id_shift) & field_max(self.datacenter_id_bits())
    }

    /// The timestamp field of `id`: milliseconds since the epoch.
    pub open spec fn elapsed_of(self, id: u64) -> u64 {
        id >> self.timestamp_left_shift
    }
}

/// The identifiers a generator in state `g` mints when its clock gives
/// `readings` one after the other, in the order of their minting. A reading
/// that mints nothing leaves no trace.
pub open spec fn minted_ids(g: SnowflakeState, readings: Seq<i64>) -> Seq<u64>
    decreases readings.len(),
{
    if readings.len() == 0 {
        Seq::empty()
    } else {
        let rest = minted_ids(g.after(readings[0]), readings.drop_first());
        match g.attempt(readings[0]) {
            Attempt::Minted(id) => seq![id] + rest,
            _ => rest,
        }
    }
}

/// What one clock reading settles for a generator that waits for the
/// millisecond after `last_timestamp`. A later reading ends the wait and is
/// the timestamp to use, a clock that cannot be read ends it with a fault,
/// and any other reading settles nothing.
pub open spec fn wait_outcome(reading: Option<i64>, last_timestamp: i64) -> Option<
    Result<i64, ClockFault>,
> {
    match reading {
        Some(t) => if t > last_timestamp {
            Some(Ok(t))
        } else {
            None
        },
        None => Some(Err(ClockFault::BeforeUnixEpoch)),
    }
}

/// Judges one clock reading taken while waiting for the millisecond after
/// `last_timestamp`: `None` means that the wait goes on.
pub fn settle_wait(reading: Option<i64>, last_timestamp: i64) -> (r: Option<
    Result<i64, ClockFault>,
>)
    ensures
        r == wait_outcome(reading, last_timestamp),
{
    match reading {
        Some(t) => {
            if t > last_timestamp {
                Some(Ok(t))
            } else {
                None
            }
        },
        None => Some(Err(ClockFault::BeforeUnixEpoch)),
    }
}

/// A generator of identifiers for one `(datacenter_id, worker_id)` pair.
#[derive(Debug)]
pub struct Snowflake {
    datacenter_id: u64,
    worker_id: u64,
    sequence: u64,
    epoch: i64,
    max_sequence: u64,
    worker_id_shift: u64,
    datacenter_id_shift: u64,
    timestamp_left_shift: u64,
    last_timestamp: i64,
}

impl View for Snowflake {
    type V = SnowflakeState;

    closed spec fn view(&self) -> SnowflakeState {
        SnowflakeState {
            datacenter_id: self.datacenter_id,
            worker_id: self.worker_id,
            sequence: self.sequence,
            epoch: self.epoch,
            max_sequence: self.max_sequence,
            worker_id_shift: self.worker_id_shift,
            datacenter_id_shift: self.datacenter_id_shift,
            timestamp_left_shift: self.timestamp_left_shift,
            last_timestamp: self.last_timestamp,
        }
    }
}

impl Snowflake {
    /// Starts the configuration of a generator for the given instance, with
    /// the default epoch and field widths.
    pub fn new(datacenter_id: u64, worker_id: u64, sequence: u64) -> (r: crate::builder::SnowflakeBuilder)
        ensures
            r@ == crate::builder::Settings::defaults(datacenter_id, worker_id, sequence),
    {
        crate::builder::SnowflakeBuilder::new(datacenter_id, worker_id, sequence)
    }

    /// A generator that has minted nothing yet.
    pub(crate) fn fresh(
        datacenter_id: u64,
        worker_id: u64,
        sequence: u64,
        epoch: i64,
        max_sequence: u64,
        worker_id_shift: u64,
        datacenter_id_shift: u64,
        timestamp_left_shift: u64,
    ) -> (r: Snowflake)
        ensures
            r@ == (SnowflakeState {
                datacenter_id,
                worker_id,
                sequence,
                epoch,
                max_sequence,
                worker_id_shift,
                datacenter_id_shift,
                timestamp_left_shift,
                last_timestamp: -1i64,
            }),
    {
        Snowflake {
            datacenter_id,
            worker_id,
            sequence,
            epoch,
            max_sequence,
            worker_id_shift,
            datacenter_id_shift,
            timestamp_left_shift,
            last_timestamp: -1,
        }
    }

    /// The wall clock in milliseconds since the Unix epoch, if it reads that
    /// late.
    fn timestamp(&self) -> (r: Option<i64>) {
        now_millis()
    }

    /// Polls the clock until it reads later than `last_timestamp`. Each
    /// reading is judged by [`settle_wait`]; whether any of them ends the
    /// wait is up to the clock.
    fn wait_for_next_millis(&self, last_timestamp: i64) -> (r: Result<i64, ClockFault>)
        ensures
            r matches Ok(t) ==> t > last_timestamp,
    {
        let mut polls: u64 = SPIN_BUDGET;
        while polls > 0
            decreases polls,
        {
            match settle_wait(self.timestamp(), last_timestamp) {
                Some(outcome) => {
                    return outcome;
                },
                None => {},
            }
            polls = polls - 1;
        }
        Err(ClockFault::Stalled)
    }

    /// The sequence number after the current one, within its field.
    fn next_sequence(&self) -> (r: u64)
        ensures
            r == self@.next_sequence(),
    {
        if self.sequence == u64::MAX {
            0
        } else {
            (self.sequence + 1) & self.max_sequence
        }
    }

    /// Records `timestamp` and `sequence` as last used and encodes them.
    fn stamp(&mut self, timestamp: i64, sequence: u64) -> (id: u64)
        ensures
            final(self)@ == old(self)@.stamped(timestamp, sequence),
            id == old(self)@.encode(timestamp, sequence),
    {
        self.last_timestamp = timestamp;
        self.sequence = sequence;
        let elapsed: i128 = timestamp as i128 - self.epoch as i128;
        let delta: u64 = #[verifier::truncate] (elapsed as u64);
        shift_left(delta, self.timestamp_left_shift) | shift_left(
            self.datacenter_id,
            self.datacenter_id_shift,
        ) | shift_left(self.worker_id, self.worker_id_shift) | sequence
    }

    /// Takes the clock reading `now` through the minting rule. A reading
    /// earlier than the last identifier is refused. A reading in the same
    /// millisecond takes the next sequence number, unless that millisecond
    /// has none left. A later reading starts again at sequence 0. The state
    /// changes only where an identifier is minted.
    pub fn generate_id_at(&mut self, now: i64) -> (r: Attempt)
        ensures
            r == old(self)@.attempt(now),
            final(self)@ == old(self)@.after(now),
    {
        if now < self.last_timestamp {
            Attempt::ClockRegressed
        } else if now == self.last_timestamp {
            let sequence: u64 = self.next_sequence();
            if sequence == 0 {
                Attempt::Exhausted
            } else {
                Attempt::Minted(self.stamp(now, sequence))
            }
        } else {
            Attempt::Minted(self.stamp(now, 0))
        }
    }

    /// Mints the next identifier from the wall clock. When the current
    /// millisecond has no sequence number left, polls the clock until the
    /// next one. The identifier is the one the minting rule gives for the
    /// timestamp that the generator has recorded on return. On a fault the
    /// state is as it was, and the clock is given up as stalled only while
    /// waiting for the next millisecond.
    pub fn generate_id(&mut self) -> (r: Result<u64, ClockFault>)
        ensures
            match r {
                Ok(id) => {
                    &&& old(self)@.attempt(final(self)@.last_timestamp) == Attempt::Minted(id)
                    &&& final(self)@ == old(self)@.after(final(self)@.last_timestamp)
                },
                Err(fault) => {
                    &&& final(self)@ == old(self)@
                    &&& fault == ClockFault::Stalled ==> old(self)@.next_sequence() == 0
                },
            },
    {
        let now: i64 = match self.timestamp() {
            Some(t) => t,
            None => {
                return Err(ClockFault::BeforeUnixEpoch);
            },
        };
        match self.generate_id_at(now) {
            Attempt::Minted(id) => Ok(id),
            Attempt::ClockRegressed => Err(ClockFault::MovedBackwards),
            Attempt::Exhausted => {
                match self.wait_for_next_millis(self.last_timestamp) {
                    Ok(later) => Ok(self.stamp(later, 0)),
                    Err(fault) => Err(fault),
                }
            },
        }
    }
}

} // verus!
