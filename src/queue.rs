use vstd::prelude::*;

use std::collections::VecDeque;

use crate::odata::{OperationalData, OperationalDataTarget};

verus! {

/// The queues `(src, dst)` after `od` joins the back of the queue of its target chain.
pub open spec fn push_model<M>(src: Seq<OperationalData<M>>, dst: Seq<OperationalData<M>>, od: OperationalData<M>) -> (
    Seq<OperationalData<M>>,
    Seq<OperationalData<M>>,
) {
    if od.target == OperationalDataTarget::Source {
        (src.push(od), dst)
    } else {
        (src, dst.push(od))
    }
}

/// The queues `(src, dst)` after each of `items` is pushed in turn.
pub open spec fn push_all_model<M>(
    src: Seq<OperationalData<M>>,
    dst: Seq<OperationalData<M>>,
    items: Seq<OperationalData<M>>,
) -> (Seq<OperationalData<M>>, Seq<OperationalData<M>>)
    decreases items.len(),
{
    if items.len() == 0 {
        (src, dst)
    } else {
        let (s, d) = push_all_model(src, dst, items.drop_last());
        push_model(s, d, items.last())
    }
}

pub open spec fn is_source_bound<M>(od: OperationalData<M>) -> bool {
    od.target == OperationalDataTarget::Source
}

pub open spec fn is_destination_bound<M>(od: OperationalData<M>) -> bool {
    od.target == OperationalDataTarget::Destination
}

/// Batches pushed into empty queues and then popped until both are empty come out exactly
/// once each, the same batches in the same order per target chain: first every
/// source-bound batch in the order pushed, then every destination-bound one.
pub proof fn lemma_enqueue_dequeue_fifo<M>(items: Seq<OperationalData<M>>)
    ensures
        ({
            let (s, d) = push_all_model(Seq::empty(), Seq::empty(), items);
            &&& s == items.filter(|od: OperationalData<M>| is_source_bound(od))
            &&& d == items.filter(|od: OperationalData<M>| is_destination_bound(od))
            &&& s.len() + d.len() == items.len()
            &&& pops_model(s, d, items.len()) == s + d
        }),
    decreases items.len(),
{
    reveal(Seq::filter);
    let ps = |od: OperationalData<M>| is_source_bound(od);
    let pd = |od: OperationalData<M>| is_destination_bound(od);
    let (s, d) = push_all_model(Seq::empty(), Seq::empty(), items);
    if items.len() > 0 {
        let prev = items.drop_last();
        lemma_enqueue_dequeue_fifo(prev);
        assert(items.filter(ps) == (if ps(items.last()) {
            prev.filter(ps).push(items.last())
        } else {
            prev.filter(ps)
        }));
        assert(items.filter(pd) == (if pd(items.last()) {
            prev.filter(pd).push(items.last())
        } else {
            prev.filter(pd)
        }));
    } else {
        assert(items.filter(ps) == items);
        assert(items.filter(pd) == items);
    }
    lemma_pops_fifo_src_first(s, d);
}

/// What one pop takes from a pair of queues `(src, dst)`: the front of `src` while it holds
/// anything, else the front of `dst`, else nothing; paired with the queues that remain.
pub open spec fn pop_model<T>(src: Seq<T>, dst: Seq<T>) -> (Option<T>, Seq<T>, Seq<T>) {
    if src.len() > 0 {
        (Some(src[0]), src.drop_first(), dst)
    } else if dst.len() > 0 {
        (Some(dst[0]), src, dst.drop_first())
    } else {
        (None, src, dst)
    }
}

/// The items that `n` successive pops take from `(src, dst)`, in the order they come out.
pub open spec fn pops_model<T>(src: Seq<T>, dst: Seq<T>, n: nat) -> Seq<T>
    decreases n,
{
    if n == 0 {
        Seq::empty()
    } else {
        let (item, s, d) = pop_model(src, dst);
        match item {
            Some(x) => seq![x].add(pops_model(s, d, (n - 1) as nat)),
            None => Seq::empty(),
        }
    }
}

/// Successive pops return every queued item exactly once: all of `src` in the order it was
/// queued, then all of `dst` in the order it was queued.
pub proof fn lemma_pops_fifo_src_first<T>(src: Seq<T>, dst: Seq<T>)
    ensures
        pops_model(src, dst, src.len() + dst.len()) == src + dst,
    decreases src.len() + dst.len(),
{
    if src.len() > 0 {
        lemma_pops_fifo_src_first(src.drop_first(), dst);
        assert(seq![src[0]] + (src.drop_first() + dst) =~= src + dst);
    } else if dst.len() > 0 {
        lemma_pops_fifo_src_first(src, dst.drop_first());
        assert(seq![dst[0]] + (src + dst.drop_first()) =~= src + dst);
    } else {
        assert(src + dst =~= Seq::<T>::empty());
    }
}

/// The two FIFO queues of a relay path: batches bound for the source chain and batches bound
/// for the destination chain.
pub struct PathQueue<M> {
    src_side: VecDeque<OperationalData<M>>,
    dst_side: VecDeque<OperationalData<M>>,
}

impl<M> PathQueue<M> {
    pub closed spec fn src_items(&self) -> Seq<OperationalData<M>> {
        self.src_side@
    }

    pub closed spec fn dst_items(&self) -> Seq<OperationalData<M>> {
        self.dst_side@
    }

    /// Each queue holds only batches bound for its own chain.
    pub open spec fn wf(&self) -> bool {
        &&& forall|i: int|
            0 <= i < self.src_items().len() ==> #[trigger] self.src_items()[i].target
                == OperationalDataTarget::Source
        &&& forall|i: int|
            0 <= i < self.dst_items().len() ==> #[trigger] self.dst_items()[i].target
                == OperationalDataTarget::Destination
    }

    pub fn new() -> (q: PathQueue<M>)
        ensures
            q.wf(),
            q.src_items() == Seq::<OperationalData<M>>::empty(),
            q.dst_items() == Seq::<OperationalData<M>>::empty(),
    {
        PathQueue { src_side: VecDeque::new(), dst_side: VecDeque::new() }
    }

    /// Appends `od` to the back of the queue of its target chain.
    pub fn push(&mut self, od: OperationalData<M>)
        requires
            old(self).wf(),
        ensures
            final(self).wf(),
            (final(self).src_items(), final(self).dst_items()) == push_model(
                old(self).src_items(),
                old(self).dst_items(),
                od,
            ),
    {
        match od.target {
            OperationalDataTarget::Source => self.src_side.push_back(od),
            OperationalDataTarget::Destination => self.dst_side.push_back(od),
        }
    }

    /// Takes the front of the source-bound queue, or, only when that queue is empty, the
    /// front of the destination-bound queue.
    pub fn pop(&mut self) -> (r: Option<OperationalData<M>>)
        requires
            old(self).wf(),
        ensures
            final(self).wf(),
            r matches Some(od) ==> (od.target == OperationalDataTarget::Source <==> old(
                self,
            ).src_items().len() > 0),
            (r, final(self).src_items(), final(self).dst_items()) == pop_model(
                old(self).src_items(),
                old(self).dst_items(),
            ),
    {
        let r = if let Some(od) = self.src_side.pop_front() {
            Some(od)
        } else {
            self.dst_side.pop_front()
        };
        proof {
            assert forall|i: int| 0 <= i < self.src_side@.len() implies #[trigger] self.src_side@[i].target
                == OperationalDataTarget::Source by {
                if old(self).src_side@.len() > 0 {
                    assert(self.src_side@[i] == old(self).src_side@[i + 1]);
                }
            }
            assert forall|i: int| 0 <= i < self.dst_side@.len() implies #[trigger] self.dst_side@[i].target
                == OperationalDataTarget::Destination by {
                if old(self).src_side@.len() == 0 {
                    assert(self.dst_side@[i] == old(self).dst_side@[i + 1]);
                }
            }
        }
        r
    }

    /// Takes everything queued, source-bound and destination-bound, each in queue order.
    pub fn drain(&mut self) -> (r: (Vec<OperationalData<M>>, Vec<OperationalData<M>>))
        ensures
            final(self).wf(),
            r.0@ == old(self).src_items(),
            r.1@ == old(self).dst_items(),
            final(self).src_items() == Seq::<OperationalData<M>>::empty(),
            final(self).dst_items() == Seq::<OperationalData<M>>::empty(),
    {
        let mut src: Vec<OperationalData<M>> = Vec::new();
        let mut dst: Vec<OperationalData<M>> = Vec::new();
        let ghost src0 = self.src_side@;
        let ghost dst0 = self.dst_side@;
        while self.src_side.len() > 0
            invariant
                src@ + self.src_side@ == src0,
                self.dst_side@ == dst0,
            decreases self.src_side@.len(),
        {
            let od = self.src_side.pop_front().unwrap();
            proof {
                assert(src@.push(od) + self.src_side@ =~= src0);
            }
            src.push(od);
        }
        while self.dst_side.len() > 0
            invariant
                dst@ + self.dst_side@ == dst0,
                src@ == src0,
                self.src_side@.len() == 0,
            decreases self.dst_side@.len(),
        {
            let od = self.dst_side.pop_front().unwrap();
            proof {
                assert(dst@.push(od) + self.dst_side@ =~= dst0);
            }
            dst.push(od);
        }
        proof {
            assert(src@ =~= src0);
            assert(dst@ =~= dst0);
            assert(self.src_side@ =~= Seq::<OperationalData<M>>::empty());
            assert(self.dst_side@ =~= Seq::<OperationalData<M>>::empty());
        }
        (src, dst)
    }

    pub fn is_empty(&self) -> (r: bool)
        ensures
            r == (self.src_items().len() == 0 && self.dst_items().len() == 0),
    {
        self.src_side.len() == 0 && self.dst_side.len() == 0
    }
}

} // verus!
