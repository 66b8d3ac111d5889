use relayer_link::{
    blocks_left_to_u32, blocks_wait_nanos, resolve_step, ConnDelay, DelayResolver, DelayStep,
    Height, Link, LinkError, OperationalData, OperationalDataTarget, PathQueue, RelayPath,
    ResolverState,
};

fn od(target: OperationalDataTarget, batch: Vec<u32>, delay: ConnDelay) -> OperationalData<u32> {
    OperationalData::new(target, batch, 1_000, Height::new(1, 100), delay)
}

fn zero_delay() -> ConnDelay {
    ConnDelay::new(0, 0)
}

#[test]
fn remaining_delay_is_exact() {
    let d = od(OperationalDataTarget::Destination, vec![1], ConnDelay::new(500, 10));
    assert_eq!(d.conn_delay_remaining(1_200, Height::new(1, 104)), (300, 6));
    assert_eq!(d.conn_delay_remaining(1_500, Height::new(1, 110)), (0, 0));
    assert_eq!(d.conn_delay_remaining(9_999, Height::new(1, 500)), (0, 0));
    // a clock reading from before the event still waits until the deadline
    assert_eq!(d.conn_delay_remaining(900, Height::new(1, 100)), (600, 10));
}

#[test]
fn remaining_blocks_across_revisions() {
    let d = od(OperationalDataTarget::Source, vec![1], ConnDelay::new(0, 10));
    assert_eq!(d.conn_delay_remaining(2_000, Height::new(2, 1)), (0, 0));
    assert_eq!(d.conn_delay_remaining(2_000, Height::new(0, 500)), (0, 110));
}

#[test]
fn no_delay_left_is_ready_at_once() {
    let d = od(OperationalDataTarget::Destination, vec![7], ConnDelay::new(500, 10));
    assert_eq!(resolve_step(&d, 1_500, Height::new(1, 110)), Ok(DelayStep::Ready));
    let mut r = DelayResolver::new(d);
    assert_eq!(r.evaluate(1_500, Height::new(1, 110)), Ok(DelayStep::Ready));
    assert_eq!(r.state(), ResolverState::Ready);
    assert_eq!(r.into_operational_data().batch, vec![7]);
}

#[test]
fn blocks_only_wait_sleeps_blocks_times_block_time_then_ready() {
    let d = od(OperationalDataTarget::Destination, vec![7], ConnDelay::new(500, 10));
    let mut r = DelayResolver::new(d);
    assert_eq!(r.evaluate(1_600, Height::new(1, 103)), Ok(DelayStep::WaitForBlocks { blocks: 7 }));
    assert_eq!(r.state(), ResolverState::WaitingOnHeight);
    assert_eq!(blocks_wait_nanos(7, 3_000_000_000), 21_000_000_000);
    r.slept();
    assert_eq!(r.state(), ResolverState::Ready);
}

#[test]
fn time_wait_sleeps_time_left_then_reevaluates() {
    let d = od(OperationalDataTarget::Source, vec![7], ConnDelay::new(500, 10));
    let mut r = DelayResolver::new(d);
    assert_eq!(r.evaluate(1_100, Height::new(1, 100)), Ok(DelayStep::WaitForTime { nanos: 400 }));
    assert_eq!(r.state(), ResolverState::WaitingOnTime);
    r.slept();
    assert_eq!(r.state(), ResolverState::Unevaluated);
    // the second decision uses the new readings: by now the blocks have come too
    assert_eq!(r.evaluate(1_500, Height::new(1, 112)), Ok(DelayStep::Ready));
    assert_eq!(r.state(), ResolverState::Ready);
}

#[test]
fn second_evaluation_after_time_wait_may_wait_on_blocks() {
    let d = od(OperationalDataTarget::Source, vec![7], ConnDelay::new(500, 10));
    let mut r = DelayResolver::new(d);
    assert_eq!(r.evaluate(1_000, Height::new(1, 100)), Ok(DelayStep::WaitForTime { nanos: 500 }));
    r.slept();
    assert_eq!(r.evaluate(1_500, Height::new(1, 108)), Ok(DelayStep::WaitForBlocks { blocks: 2 }));
}

#[test]
fn block_count_conversion_refuses_values_over_u32() {
    let too_many: u128 = u32::MAX as u128 + 1;
    assert_eq!(
        blocks_left_to_u32(too_many),
        Err(LinkError::BlocksOutOfRange { blocks_left: too_many })
    );
    assert_eq!(blocks_left_to_u32(u32::MAX as u128), Ok(u32::MAX));
    assert_eq!(blocks_left_to_u32(0), Ok(0));
}

#[test]
fn resolver_reports_blocks_out_of_range() {
    let d = od(OperationalDataTarget::Source, vec![7], ConnDelay::new(0, u64::MAX));
    let expected = 100u128 + u64::MAX as u128;
    assert_eq!(
        resolve_step(&d, 5_000, Height::new(1, 0)),
        Err(LinkError::BlocksOutOfRange { blocks_left: expected })
    );
}

#[test]
fn largest_wait_on_blocks_does_not_overflow() {
    assert_eq!(
        blocks_wait_nanos(u32::MAX, u64::MAX),
        u32::MAX as u128 * u64::MAX as u128
    );
    assert_eq!(blocks_wait_nanos(0, u64::MAX), 0);
}

#[test]
fn queue_serves_source_side_first() {
    let mut q: PathQueue<u32> = PathQueue::new();
    q.push(od(OperationalDataTarget::Destination, vec![10], zero_delay()));
    q.push(od(OperationalDataTarget::Source, vec![20], zero_delay()));
    q.push(od(OperationalDataTarget::Source, vec![21], zero_delay()));
    let order: Vec<Vec<u32>> = (0..3).map(|_| q.pop().unwrap().batch).collect();
    assert_eq!(order, vec![vec![20], vec![21], vec![10]]);
    assert!(q.pop().is_none());
    assert!(q.is_empty());
}

#[test]
fn queue_keeps_fifo_order_and_batches() {
    let mut q: PathQueue<u32> = PathQueue::new();
    let batches = vec![vec![1, 2], vec![3], vec![4, 5, 6]];
    for b in &batches {
        q.push(od(OperationalDataTarget::Destination, b.clone(), zero_delay()));
    }
    let mut out = Vec::new();
    while let Some(d) = q.pop() {
        assert_eq!(d.target, OperationalDataTarget::Destination);
        out.push(d.batch);
    }
    assert_eq!(out, batches);
}

#[test]
fn empty_path_fetches_nothing() {
    let mut p: RelayPath<u32> = RelayPath::new(zero_delay());
    assert!(p.is_idle());
    assert!(p.fetch_scheduled_operational_data().is_none());
    let (src, dst) = p.try_fetch_scheduled_operational_data();
    assert!(src.is_empty() && dst.is_empty());
}

#[test]
fn non_blocking_drain_takes_everything_in_queue_order() {
    let mut p: RelayPath<u32> = RelayPath::new(zero_delay());
    p.schedule_operational_data(od(OperationalDataTarget::Source, vec![1], zero_delay()));
    p.schedule_operational_data(od(OperationalDataTarget::Destination, vec![2], zero_delay()));
    p.schedule_operational_data(od(OperationalDataTarget::Source, vec![3], zero_delay()));
    let (src, dst) = p.try_fetch_scheduled_operational_data();
    let src: Vec<Vec<u32>> = src.into_iter().map(|d| d.batch).collect();
    let dst: Vec<Vec<u32>> = dst.into_iter().map(|d| d.batch).collect();
    assert_eq!(src, vec![vec![1], vec![3]]);
    assert_eq!(dst, vec![vec![2]]);
    assert!(p.is_idle());
}

#[test]
fn recv_command_on_zero_delay_path_relays_directly() {
    let link: Link<u32> = Link::new(RelayPath::new(zero_delay()));
    assert_eq!(link.check_interactive_relay(), Ok(()));
    // the packets are relayed straight from their events: nothing goes through the queue
    assert!(link.a_to_b.is_idle());
}

#[test]
fn interactive_commands_refuse_non_zero_delay() {
    let by_time: Link<u32> = Link::new(RelayPath::new(ConnDelay::new(1, 0)));
    assert_eq!(by_time.check_interactive_relay(), Err(LinkError::NonZeroConnectionDelay));
    let by_blocks: Link<u32> = Link::new(RelayPath::new(ConnDelay::new(0, 3)));
    assert_eq!(by_blocks.check_interactive_relay(), Err(LinkError::NonZeroConnectionDelay));
}

#[test]
fn ack_command_drains_without_waiting_and_final_sweep_is_empty() {
    let mut link: Link<u32> = Link::new(RelayPath::new(zero_delay()));
    assert_eq!(link.check_interactive_relay(), Ok(()));
    link.a_to_b
        .schedule_operational_data(od(OperationalDataTarget::Destination, vec![42], zero_delay()));
    let relayed = link.drain_in_relay_order();
    assert_eq!(relayed.len(), 1);
    assert_eq!(relayed[0].batch, vec![42]);
    assert!(link.a_to_b.fetch_scheduled_operational_data().is_none());
}

#[test]
fn ack_relay_order_is_destination_first() {
    let mut link: Link<u32> = Link::new(RelayPath::new(zero_delay()));
    link.a_to_b.schedule_operational_data(od(OperationalDataTarget::Source, vec![1], zero_delay()));
    link.a_to_b
        .schedule_operational_data(od(OperationalDataTarget::Destination, vec![2], zero_delay()));
    link.a_to_b
        .schedule_operational_data(od(OperationalDataTarget::Destination, vec![3], zero_delay()));
    let order: Vec<Vec<u32>> = link.drain_in_relay_order().into_iter().map(|d| d.batch).collect();
    assert_eq!(order, vec![vec![2], vec![3], vec![1]]);
    assert!(link.a_to_b.is_idle());
}

#[test]
fn ack_chunk_is_scheduled_then_drained_destination_first() {
    let mut link: Link<u32> = Link::new(RelayPath::new(zero_delay()));
    link.a_to_b.schedule_operational_data(od(OperationalDataTarget::Destination, vec![1], zero_delay()));
    let chunk = vec![
        od(OperationalDataTarget::Source, vec![2], zero_delay()),
        od(OperationalDataTarget::Destination, vec![3], zero_delay()),
        od(OperationalDataTarget::Source, vec![4], zero_delay()),
    ];
    let order: Vec<Vec<u32>> = link.schedule_and_drain(chunk).into_iter().map(|d| d.batch).collect();
    assert_eq!(order, vec![vec![1], vec![3], vec![2], vec![4]]);
    assert!(link.a_to_b.is_idle());
    assert!(link.schedule_and_drain(Vec::new()).is_empty());
}
