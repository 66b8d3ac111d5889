use vstd::prelude::*;

use crate::error::LinkError;
use crate::height::Height;
use crate::odata::OperationalData;

verus! {

/// What the caller has to do next with a batch that waits on its connection delay.
#[derive(Debug, Clone, Copy, PartialEq, Eq, Structural)]
pub enum DelayStep {
    /// The delay has passed in time and in blocks: the batch may be submitted now.
    Ready,
    /// The delay has passed in time but `blocks` more blocks are needed. The caller sleeps for
    /// `blocks` times the chain's maximum expected time per block and then treats the batch
    /// as ready, without reading the height again.
    WaitForBlocks { blocks: u32 },
    /// `nanos` nanoseconds of the delay are still to pass. The caller sleeps that long, then
    /// takes fresh readings of the clock and the height and asks again.
    WaitForTime { nanos: u128 },
}

/// The step that follows from a clock reading `now` and a latest height `latest`.
pub open spec fn delay_step<M>(od: OperationalData<M>, now: u64, latest: Height) -> Result<
    DelayStep,
    LinkError,
> {
    let t = od.spec_time_remaining(now);
    let b = od.spec_blocks_remaining(latest);
    if t > 0 {
        Ok(DelayStep::WaitForTime { nanos: t as u128 })
    } else if b == 0 {
        Ok(DelayStep::Ready)
    } else if b > u32::MAX {
        Err(LinkError::BlocksOutOfRange { blocks_left: b as u128 })
    } else {
        Ok(DelayStep::WaitForBlocks { blocks: b as u32 })
    }
}

/// Narrows a count of blocks left to the resolver's 32-bit counter; a count that does not fit
/// is an error, never truncated.
pub fn blocks_left_to_u32(blocks_left: u128) -> (r: Result<u32, LinkError>)
    ensures
        blocks_left <= u32::MAX ==> r == Ok::<u32, LinkError>(blocks_left as u32),
        blocks_left > u32::MAX ==> r == Err::<u32, LinkError>(
            LinkError::BlocksOutOfRange { blocks_left },
        ),
{
    if blocks_left <= u32::MAX as u128 {
        Ok(blocks_left as u32)
    } else {
        Err(LinkError::BlocksOutOfRange { blocks_left })
    }
}

/// Decides, from fresh readings of the target chain's clock and latest height, whether `od`
/// may be submitted now or how the caller has to wait first.
pub fn resolve_step<M>(od: &OperationalData<M>, now: u64, latest: Height) -> (r: Result<
    DelayStep,
    LinkError,
>)
    ensures
        r == delay_step(*od, now, latest),
{
    let (time_left, blocks_left) = od.conn_delay_remaining(now, latest);
    if time_left > 0 {
        Ok(DelayStep::WaitForTime { nanos: time_left })
    } else if blocks_left == 0 {
        Ok(DelayStep::Ready)
    } else {
        match blocks_left_to_u32(blocks_left) {
            Ok(blocks) => Ok(DelayStep::WaitForBlocks { blocks }),
            Err(e) => Err(e),
        }
    }
}

/// How long to sleep while waiting for `blocks` blocks, each expected within
/// `max_block_time` nanoseconds.
pub fn blocks_wait_nanos(blocks: u32, max_block_time: u64) -> (r: u128)
    ensures
        r == blocks * max_block_time,
{
    proof {
        assert(blocks * max_block_time <= u32::MAX * u64::MAX) by (nonlinear_arith)
            requires
                blocks <= u32::MAX,
                max_block_time <= u64::MAX,
        ;
    }
    blocks as u128 * max_block_time as u128
}

/// Where a [`DelayResolver`] stands.
#[derive(Debug, Clone, Copy, PartialEq, Eq, Structural)]
pub enum ResolverState {
    /// Fresh readings of the chain's clock and height are needed before deciding.
    Unevaluated,
    /// The caller is sleeping out the time that was left.
    WaitingOnTime,
    /// The caller is sleeping out the blocks that were left.
    WaitingOnHeight,
    /// The batch may be submitted.
    Ready,
}

/// The wait of one batch on its connection delay, as a state machine. The caller feeds it
/// readings and reports the end of each sleep; the resolver says what to do next.
pub struct DelayResolver<M> {
    od: OperationalData<M>,
    state: ResolverState,
}

impl<M> DelayResolver<M> {
    pub closed spec fn spec_od(&self) -> OperationalData<M> {
        self.od
    }

    pub closed spec fn spec_state(&self) -> ResolverState {
        self.state
    }

    pub fn new(od: OperationalData<M>) -> (r: DelayResolver<M>)
        ensures
            r.spec_od() == od,
            r.spec_state() == ResolverState::Unevaluated,
    {
        DelayResolver { od, state: ResolverState::Unevaluated }
    }

    pub fn state(&self) -> (s: ResolverState)
        ensures
            s == self.spec_state(),
    {
        self.state
    }

    /// Decides from fresh readings, and moves to the state that the decision calls for.
    pub fn evaluate(&mut self, now: u64, latest: Height) -> (r: Result<DelayStep, LinkError>)
        requires
            old(self).spec_state() == ResolverState::Unevaluated,
        ensures
            r == delay_step(old(self).spec_od(), now, latest),
            final(self).spec_od() == old(self).spec_od(),
            final(self).spec_state() == match r {
                Ok(DelayStep::Ready) => ResolverState::Ready,
                Ok(DelayStep::WaitForBlocks { .. }) => ResolverState::WaitingOnHeight,
                Ok(DelayStep::WaitForTime { .. }) => ResolverState::WaitingOnTime,
                Err(_) => ResolverState::Unevaluated,
            },
    {
        let r = resolve_step(&self.od, now, latest);
        match r {
            Ok(DelayStep::Ready) => self.state = ResolverState::Ready,
            Ok(DelayStep::WaitForBlocks { .. }) => self.state = ResolverState::WaitingOnHeight,
            Ok(DelayStep::WaitForTime { .. }) => self.state = ResolverState::WaitingOnTime,
            Err(_) => {},
        }
        r
    }

    /// Records that the sleep the last decision asked for is over. After a wait on time the
    /// resolver needs fresh readings again; after a wait on blocks the batch is taken as ready
    /// without reading the height again.
    pub fn slept(&mut self)
        requires
            old(self).spec_state() == ResolverState::WaitingOnTime || old(self).spec_state()
                == ResolverState::WaitingOnHeight,
        ensures
            final(self).spec_od() == old(self).spec_od(),
            old(self).spec_state() == ResolverState::WaitingOnTime ==> final(self).spec_state()
                == ResolverState::Unevaluated,
            old(self).spec_state() == ResolverState::WaitingOnHeight ==> final(self).spec_state()
                == ResolverState::Ready,
    {
        if self.state == ResolverState::WaitingOnTime {
            self.state = ResolverState::Unevaluated;
        } else {
            self.state = ResolverState::Ready;
        }
    }

    /// Hands back the batch once it is ready.
    pub fn into_operational_data(self) -> (od: OperationalData<M>)
        requires
            self.spec_state() == ResolverState::Ready,
        ensures
            od == self.spec_od(),
    {
        self.od
    }
}

/// Once the clock has advanced by the time that was left, the next step no longer waits on
/// time: the wait on time is taken at most once more after any reading.
pub proof fn lemma_time_wait_suffices<M>(
    od: OperationalData<M>,
    now: u64,
    later: u64,
    latest: Height,
)
    requires
        later >= now + od.spec_time_remaining(now),
    ensures
        od.spec_time_remaining(later) == 0,
        !(delay_step(od, later, latest) matches Ok(DelayStep::WaitForTime { .. })),
{
}

} // verus!
