use vstd::prelude::*;

use crate::error::LinkError;
use crate::odata::{ConnDelay, OperationalData, OperationalDataTarget};
use crate::queue::{pop_model, push_all_model, push_model, PathQueue};

verus! {

/// One direction of a channel: its connection delay and the batches waiting to be relayed.
pub struct RelayPath<M> {
    conn_delay: ConnDelay,
    queue: PathQueue<M>,
}

impl<M> RelayPath<M> {
    pub closed spec fn spec_conn_delay(&self) -> ConnDelay {
        self.conn_delay
    }

    pub closed spec fn src_items(&self) -> Seq<OperationalData<M>> {
        self.queue.src_items()
    }

    pub closed spec fn dst_items(&self) -> Seq<OperationalData<M>> {
        self.queue.dst_items()
    }

    pub closed spec fn wf(&self) -> bool {
        self.queue.wf()
    }

    pub fn new(conn_delay: ConnDelay) -> (p: RelayPath<M>)
        ensures
            p.wf(),
            p.spec_conn_delay() == conn_delay,
            p.src_items() == Seq::<OperationalData<M>>::empty(),
            p.dst_items() == Seq::<OperationalData<M>>::empty(),
    {
        RelayPath { conn_delay, queue: PathQueue::new() }
    }

    pub fn conn_delay(&self) -> (d: ConnDelay)
        ensures
            d == self.spec_conn_delay(),
    {
        self.conn_delay
    }

    /// Queues `od` behind the batches already waiting for the same chain.
    pub fn schedule_operational_data(&mut self, od: OperationalData<M>)
        requires
            old(self).wf(),
        ensures
            final(self).wf(),
            final(self).spec_conn_delay() == old(self).spec_conn_delay(),
            (final(self).src_items(), final(self).dst_items()) == push_model(
                old(self).src_items(),
                old(self).dst_items(),
                od,
            ),
    {
        self.queue.push(od);
    }

    /// Takes the next batch that has to go through the connection delay: the front of the
    /// source-bound queue, or, once that one is empty, the front of the destination-bound
    /// queue; `None` when both are empty. The batch's target names the chain whose clock and
    /// height decide when it may be submitted.
    pub fn fetch_scheduled_operational_data(&mut self) -> (r: Option<OperationalData<M>>)
        requires
            old(self).wf(),
        ensures
            final(self).wf(),
            final(self).spec_conn_delay() == old(self).spec_conn_delay(),
            (r, final(self).src_items(), final(self).dst_items()) == pop_model(
                old(self).src_items(),
                old(self).dst_items(),
            ),
            r matches Some(od) ==> (od.target == OperationalDataTarget::Source <==> old(
                self,
            ).src_items().len() > 0),
    {
        self.queue.pop()
    }

    /// Takes every queued batch at once, without waiting on any delay; meant for paths whose
    /// connection delay is zero. Returns the source-bound and the destination-bound batches,
    /// each in queue order.
    pub fn try_fetch_scheduled_operational_data(&mut self) -> (r: (
        Vec<OperationalData<M>>,
        Vec<OperationalData<M>>,
    ))
        ensures
            final(self).wf(),
            final(self).spec_conn_delay() == old(self).spec_conn_delay(),
            r.0@ == old(self).src_items(),
            r.1@ == old(self).dst_items(),
            final(self).src_items() == Seq::<OperationalData<M>>::empty(),
            final(self).dst_items() == Seq::<OperationalData<M>>::empty(),
    {
        self.queue.drain()
    }

    pub fn is_idle(&self) -> (r: bool)
        ensures
            r == (self.src_items().len() == 0 && self.dst_items().len() == 0),
    {
        self.queue.is_empty()
    }
}

/// A channel between two chains, seen from the direction that the interactive commands relay.
pub struct Link<M> {
    pub a_to_b: RelayPath<M>,
}

impl<M> Link<M> {
    pub fn new(a_to_b: RelayPath<M>) -> (l: Link<M>)
        ensures
            l.a_to_b == a_to_b,
    {
        Link { a_to_b }
    }

    /// The guard of the interactive relay commands: they run only on a path whose connection
    /// delay is zero, in time and in blocks.
    pub fn check_interactive_relay(&self) -> (r: Result<(), LinkError>)
        ensures
            r == (if self.a_to_b.spec_conn_delay().spec_is_zero() {
                Ok::<(), LinkError>(())
            } else {
                Err::<(), LinkError>(LinkError::NonZeroConnectionDelay)
            }),
    {
        if self.a_to_b.conn_delay().is_zero() {
            Ok(())
        } else {
            Err(LinkError::NonZeroConnectionDelay)
        }
    }

    /// One chunk of the acknowledgement command: queues each of `ods` in turn, then takes
    /// every queued batch, destination-bound first, in the order they are relayed.
    pub fn schedule_and_drain(&mut self, ods: Vec<OperationalData<M>>) -> (r: Vec<
        OperationalData<M>,
    >)
        requires
            old(self).a_to_b.wf(),
        ensures
            final(self).a_to_b.wf(),
            final(self).a_to_b.spec_conn_delay() == old(self).a_to_b.spec_conn_delay(),
            ({
                let (s, d) = push_all_model(
                    old(self).a_to_b.src_items(),
                    old(self).a_to_b.dst_items(),
                    ods@,
                );
                r@ == d + s
            }),
            final(self).a_to_b.src_items() == Seq::<OperationalData<M>>::empty(),
            final(self).a_to_b.dst_items() == Seq::<OperationalData<M>>::empty(),
    {
        let ghost items = ods@;
        let ghost src0 = self.a_to_b.src_items();
        let ghost dst0 = self.a_to_b.dst_items();
        let mut rest = ods;
        let n: usize = rest.len();
        let mut k: usize = 0;
        while rest.len() > 0
            invariant
                self.a_to_b.wf(),
                self.a_to_b.spec_conn_delay() == old(self).a_to_b.spec_conn_delay(),
                items.len() == n,
                k <= n,
                rest@ == items.subrange(k as int, items.len() as int),
                (self.a_to_b.src_items(), self.a_to_b.dst_items()) == push_all_model(
                    src0,
                    dst0,
                    items.subrange(0, k as int),
                ),
            decreases rest@.len(),
        {
            let od = rest.remove(0);
            proof {
                assert(items.subrange(0, k + 1).drop_last() =~= items.subrange(0, k as int));
                assert(items.subrange(0, k + 1).last() == od);
                assert(rest@ =~= items.subrange(k + 1, items.len() as int));
            }
            self.a_to_b.schedule_operational_data(od);
            k = k + 1;
        }
        proof {
            assert(items.subrange(0, k as int) =~= items);
        }
        self.drain_in_relay_order()
    }

    /// Takes every queued batch in the order the acknowledgement command relays them: the
    /// destination-bound batches first, then the source-bound ones, each in queue order.
    pub fn drain_in_relay_order(&mut self) -> (r: Vec<OperationalData<M>>)
        ensures
            final(self).a_to_b.wf(),
            final(self).a_to_b.spec_conn_delay() == old(self).a_to_b.spec_conn_delay(),
            r@ == old(self).a_to_b.dst_items() + old(self).a_to_b.src_items(),
            final(self).a_to_b.src_items() == Seq::<OperationalData<M>>::empty(),
            final(self).a_to_b.dst_items() == Seq::<OperationalData<M>>::empty(),
    {
        let (mut src, mut dst) = self.a_to_b.try_fetch_scheduled_operational_data();
        dst.append(&mut src);
        dst
    }
}

} // verus!
