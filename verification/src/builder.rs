//! Configuration: the instance ids, the epoch and the widths of the fields.
use vstd::prelude::*;
use crate::bits::add_widths;
use crate::bits::bit_length;
use crate::bits::bits_needed;
use crate::bits::field_max;
use crate::bits::max_for_bits;
use crate::bits::shift_sum;
use crate::error::SnowflakeError;
use crate::generator::Snowflake;
use crate::generator::SnowflakeState;

verus! {

/// The epoch a builder starts with, in milliseconds since the Unix epoch.
pub const DEFAULT_EPOCH: i64 = 1646875384850;

pub const DEFAULT_DATACENTER_ID_BITS: u64 = 5;

pub const DEFAULT_WORKER_ID_BITS: u64 = 5;

pub const DEFAULT_SEQUENCE_BITS: u64 = 12;

/// The mathematical content of a [`SnowflakeBuilder`].
pub struct Settings {
    pub datacenter_id: u64,
    pub worker_id: u64,
    pub sequence: u64,
    pub epoch: i64,
    pub datacenter_id_bits: u64,
    pub worker_id_bits: u64,
    pub sequence_bits: u64,
}

impl Settings {
    pub open spec fn defaults(datacenter_id: u64, worker_id: u64, sequence: u64) -> Settings {
        Settings {
            datacenter_id,
            worker_id,
            sequence,
            epoch: DEFAULT_EPOCH,
            datacenter_id_bits: DEFAULT_DATACENTER_ID_BITS,
            worker_id_bits: DEFAULT_WORKER_ID_BITS,
            sequence_bits: DEFAULT_SEQUENCE_BITS,
        }
    }

    pub open spec fn max_datacenter_id(self) -> u64 {
        field_max(self.datacenter_id_bits)
    }

    pub open spec fn max_worker_id(self) -> u64 {
        field_max(self.worker_id_bits)
    }

    pub open spec fn max_sequence(self) -> u64 {
        field_max(self.sequence_bits)
    }

    /// The worker id starts above the sequence.
    pub open spec fn worker_id_shift(self) -> u64 {
        shift_sum(self.sequence_bits, 0)
    }

    /// The datacenter id starts above the worker id.
    pub open spec fn datacenter_id_shift(self) -> u64 {
        shift_sum(self.worker_id_shift(), self.worker_id_bits)
    }

    /// The timestamp starts above the datacenter id.
    pub open spec fn timestamp_left_shift(self) -> u64 {
        shift_sum(self.datacenter_id_shift(), self.datacenter_id_bits)
    }

    /// Both instance ids fit the widths chosen for them.
    pub open spec fn ids_in_range(self) -> bool {
        self.datacenter_id <= self.max_datacenter_id() && self.worker_id <= self.max_worker_id()
    }

    /// The state of the generator these settings build: the derived masks
    /// and shifts, the starting sequence as given, and no timestamp yet.
    pub open spec fn initial_state(self) -> SnowflakeState {
        SnowflakeState {
            datacenter_id: self.datacenter_id,
            worker_id: self.worker_id,
            sequence: self.sequence,
            epoch: self.epoch,
            max_sequence: self.max_sequence(),
            worker_id_shift: self.worker_id_shift(),
            datacenter_id_shift: self.datacenter_id_shift(),
            timestamp_left_shift: self.timestamp_left_shift(),
            last_timestamp: -1i64,
        }
    }

    /// What building from these settings gives: the error for the
    /// datacenter id if it is out of range, else the one for the worker id
    /// if that is, else nothing.
    pub open spec fn rejection(self) -> Option<SnowflakeError> {
        if self.datacenter_id > self.max_datacenter_id() {
            Some(
                SnowflakeError::DatacenterIDOutOfRange(
                    (
                        self.datacenter_id,
                        self.max_datacenter_id(),
                        bit_length(self.datacenter_id as nat) as u32,
                    ),
                ),
            )
        } else if self.worker_id > self.max_worker_id() {
            Some(
                SnowflakeError::WorkerIDOutOfRange(
                    (self.worker_id, self.max_worker_id(), bit_length(self.worker_id as nat) as u32),
                ),
            )
        } else {
            None
        }
    }
}

/// The configuration of a generator, changed by the `with_` methods and
/// checked by [`SnowflakeBuilder::build`].
#[derive(Debug, Clone, Copy)]
pub struct SnowflakeBuilder {
    datacenter_id: u64,
    worker_id: u64,
    sequence: u64,
    epoch: i64,
    datacenter_id_bits: u64,
    worker_id_bits: u64,
    sequence_bits: u64,
}

impl View for SnowflakeBuilder {
    type V = Settings;

    closed spec fn view(&self) -> Settings {
        Settings {
            datacenter_id: self.datacenter_id,
            worker_id: self.worker_id,
            sequence: self.sequence,
            epoch: self.epoch,
            datacenter_id_bits: self.datacenter_id_bits,
            worker_id_bits: self.worker_id_bits,
            sequence_bits: self.sequence_bits,
        }
    }
}

impl SnowflakeBuilder {
    pub(crate) fn new(datacenter_id: u64, worker_id: u64, sequence: u64) -> (r: Self)
        ensures
            r@ == Settings::defaults(datacenter_id, worker_id, sequence),
    {
        SnowflakeBuilder {
            datacenter_id,
            worker_id,
            sequence,
            epoch: DEFAULT_EPOCH,
            datacenter_id_bits: DEFAULT_DATACENTER_ID_BITS,
            worker_id_bits: DEFAULT_WORKER_ID_BITS,
            sequence_bits: DEFAULT_SEQUENCE_BITS,
        }
    }

    /// Sets the epoch, in milliseconds since the Unix epoch.
    pub fn with_epoch(self, epoch: i64) -> (r: Self)
        ensures
            r@ == (Settings { epoch: epoch, ..self@ }),
    {
        let mut next = self;
        next.epoch = epoch;
        next
    }

    /// Sets the width of the datacenter id.
    pub fn with_datacenter_id_bits(self, datacenter_id_bits: u64) -> (r: Self)
        ensures
            r@ == (Settings { datacenter_id_bits: datacenter_id_bits, ..self@ }),
    {
        let mut next = self;
        next.datacenter_id_bits = datacenter_id_bits;
        next
    }

    /// Sets the width of the worker id.
    pub fn with_worker_id_bits(self, worker_id_bits: u64) -> (r: Self)
        ensures
            r@ == (Settings { worker_id_bits: worker_id_bits, ..self@ }),
    {
        let mut next = self;
        next.worker_id_bits = worker_id_bits;
        next
    }

    /// Sets the width of the sequence.
    pub fn with_sequence_bits(self, sequence_bits: u64) -> (r: Self)
        ensures
            r@ == (Settings { sequence_bits: sequence_bits, ..self@ }),
    {
        let mut next = self;
        next.sequence_bits = sequence_bits;
        next
    }

    /// Derives the masks and shifts from the widths as they now stand, and
    /// checks the two instance ids against them. The datacenter id is
    /// checked first. The generator that comes back has minted nothing, and
    /// its sequence is the starting value as given, in range or not.
    pub fn build(&self) -> (r: Result<Snowflake, SnowflakeError>)
        ensures
            match r {
                Ok(generator) => self@.rejection() is None && generator@ == self@.initial_state(),
                Err(error) => self@.rejection() == Some(error),
            },
    {
        let max_datacenter_id: u64 = max_for_bits(self.datacenter_id_bits);
        let max_worker_id: u64 = max_for_bits(self.worker_id_bits);
        let max_sequence: u64 = max_for_bits(self.sequence_bits);
        let worker_id_shift: u64 = add_widths(self.sequence_bits, 0);
        let datacenter_id_shift: u64 = add_widths(worker_id_shift, self.worker_id_bits);
        let timestamp_left_shift: u64 = add_widths(datacenter_id_shift, self.datacenter_id_bits);
        if max_datacenter_id < self.datacenter_id {
            let recommended: u32 = bits_needed(self.datacenter_id);
            return Err(
                SnowflakeError::DatacenterIDOutOfRange(
                    (self.datacenter_id, max_datacenter_id, recommended),
                ),
            );
        }
        if max_worker_id < self.worker_id {
            let recommended: u32 = bits_needed(self.worker_id);
            return Err(
                SnowflakeError::WorkerIDOutOfRange((self.worker_id, max_worker_id, recommended)),
            );
        }
        Ok(
            Snowflake::fresh(
                self.datacenter_id,
                self.worker_id,
                self.sequence,
                self.epoch,
                max_sequence,
                worker_id_shift,
                datacenter_id_shift,
                timestamp_left_shift,
            ),
        )
    }
}

} // verus!
