use vstd::prelude::*;

use crate::height::Height;

verus! {

/// The chain that a batch of relay messages will be submitted to.
#[derive(Debug, Clone, Copy, PartialEq, Eq, Structural)]
pub enum OperationalDataTarget {
    Source,
    Destination,
}

/// The connection delay that a batch must respect: a wall-clock duration in nanoseconds and a
/// number of blocks, both counted from the moment the originating event was observed.
#[derive(Debug, Clone, Copy, PartialEq, Eq, Structural)]
pub struct ConnDelay {
    pub time_nanos: u64,
    pub blocks: u64,
}

impl ConnDelay {
    pub fn new(time_nanos: u64, blocks: u64) -> (d: ConnDelay)
        ensures
            d.time_nanos == time_nanos,
            d.blocks == blocks,
    {
        ConnDelay { time_nanos, blocks }
    }

    pub open spec fn spec_is_zero(self) -> bool {
        self.time_nanos == 0 && self.blocks == 0
    }

    pub fn is_zero(&self) -> (r: bool)
        ensures
            r == self.spec_is_zero(),
    {
        self.time_nanos == 0 && self.blocks == 0
    }
}

/// A batch of relay messages bound for one chain, with the time and height at which its
/// originating event was observed and the delay it has to respect from then on.
pub struct OperationalData<M> {
    pub target: OperationalDataTarget,
    pub batch: Vec<M>,
    /// Chain clock reading, in nanoseconds, when the originating event was observed.
    pub scheduled_time: u64,
    /// Height at which the originating event was observed.
    pub proofs_height: Height,
    pub conn_delay: ConnDelay,
}

/// Wall-clock nanoseconds left until `scheduled + delay`, or zero once that moment is reached.
pub open spec fn time_remaining(scheduled: u64, delay: u64, now: u64) -> nat {
    if scheduled + delay > now {
        (scheduled + delay - now) as nat
    } else {
        0
    }
}

/// Blocks left until the chain reaches `proofs.revision_height + delay` in the revision of
/// `proofs`, or zero once it has. A later revision has passed every height of an earlier one;
/// on an earlier revision the whole target height is still ahead.
pub open spec fn blocks_remaining(proofs: Height, delay: u64, latest: Height) -> nat {
    if latest.revision_number > proofs.revision_number {
        0
    } else if latest.revision_number < proofs.revision_number {
        (proofs.revision_height + delay) as nat
    } else if proofs.revision_height + delay > latest.revision_height {
        (proofs.revision_height + delay - latest.revision_height) as nat
    } else {
        0
    }
}

impl<M> OperationalData<M> {
    pub fn new(
        target: OperationalDataTarget,
        batch: Vec<M>,
        scheduled_time: u64,
        proofs_height: Height,
        conn_delay: ConnDelay,
    ) -> (od: OperationalData<M>)
        ensures
            od.target == target,
            od.batch == batch,
            od.scheduled_time == scheduled_time,
            od.proofs_height == proofs_height,
            od.conn_delay == conn_delay,
    {
        OperationalData { target, batch, scheduled_time, proofs_height, conn_delay }
    }

    pub open spec fn spec_time_remaining(&self, now: u64) -> nat {
        time_remaining(self.scheduled_time, self.conn_delay.time_nanos, now)
    }

    pub open spec fn spec_blocks_remaining(&self, latest: Height) -> nat {
        blocks_remaining(self.proofs_height, self.conn_delay.blocks, latest)
    }

    /// The wall-clock nanoseconds and the blocks still to wait, given the chain's clock
    /// reading `now` and its latest height. The two are computed independently.
    pub fn conn_delay_remaining(&self, now: u64, latest: Height) -> (r: (u128, u128))
        ensures
            r.0 == self.spec_time_remaining(now),
            r.1 == self.spec_blocks_remaining(latest),
    {
        let deadline: u128 = self.scheduled_time as u128 + self.conn_delay.time_nanos as u128;
        let time_left: u128 = if deadline > now as u128 {
            deadline - now as u128
        } else {
            0
        };
        let target: u128 = self.proofs_height.revision_height as u128
            + self.conn_delay.blocks as u128;
        let blocks_left: u128 = if latest.revision_number > self.proofs_height.revision_number {
            0
        } else if latest.revision_number < self.proofs_height.revision_number {
            target
        } else if target > latest.revision_height as u128 {
            target - latest.revision_height as u128
        } else {
            0
        };
        (time_left, blocks_left)
    }
}

} // verus!
