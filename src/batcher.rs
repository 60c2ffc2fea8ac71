use vstd::prelude::*;
use crate::sizer::{BatchSizer, EventSizes};

verus! {

/// Sum of the estimated item sizes.
pub open spec fn total_size(s: Seq<usize>) -> int
    decreases s.len(),
{
    if s.len() == 0 {
        0
    } else {
        total_size(s.drop_last()) + s.last()
    }
}

proof fn lemma_total_size_push(s: Seq<usize>, x: usize)
    ensures
        total_size(s.push(x)) == total_size(s) + x,
{
    assert(s.push(x).drop_last() =~= s);
}

/// Groups items into batches whose estimated sizes add up to at most
/// `max_bytes`. An item that alone exceeds the bound travels in a batch of its
/// own.
pub struct ByteBatcher<T> {
    pub sizer: BatchSizer,
    pub max_bytes: usize,
    /// The open batch.
    pub items: Vec<T>,
    /// The estimated size of each item of the open batch.
    pub sizes: Vec<usize>,
    /// Sum of `sizes`.
    pub total: usize,
}

impl<T> ByteBatcher<T> {
    /// A batch within the bound, or a single item.
    pub open spec fn within_bound(sizes: Seq<usize>, max_bytes: usize) -> bool {
        sizes.len() <= 1 || total_size(sizes) <= max_bytes
    }

    pub open spec fn wf(&self) -> bool {
        &&& self.items.len() == self.sizes.len()
        &&& self.total == total_size(self.sizes@)
        &&& Self::within_bound(self.sizes@, self.max_bytes)
    }

    /// An empty batcher.
    pub fn new(sizer: BatchSizer, max_bytes: usize) -> (r: ByteBatcher<T>)
        ensures
            r.wf(),
            r.sizer == sizer,
            r.max_bytes == max_bytes,
            r.items@.len() == 0,
    {
        ByteBatcher { sizer, max_bytes, items: Vec::new(), sizes: Vec::new(), total: 0 }
    }

    /// Adds one item, sized by the sizer's policy. When it does not fit beside
    /// the open batch, the open batch is closed and returned, and the item
    /// starts the next one.
    pub fn push(&mut self, item: T, sizes: EventSizes) -> (r: Option<Vec<T>>)
        requires
            old(self).wf(),
        ensures
            final(self).wf(),
            final(self).sizer == old(self).sizer,
            final(self).max_bytes == old(self).max_bytes,
            ({
                let size = old(self).sizer.size_spec(sizes);
                &&& (r is Some) <==> (old(self).items.len() > 0 && old(self).total + size
                    > old(self).max_bytes)
                &&& match r {
                    Some(batch) => {
                        &&& batch@ == old(self).items@
                        &&& Self::within_bound(old(self).sizes@, old(self).max_bytes)
                        &&& final(self).items@ == seq![item]
                        &&& final(self).sizes@ == seq![size]
                    },
                    None => {
                        &&& final(self).items@ == old(self).items@.push(item)
                        &&& final(self).sizes@ == old(self).sizes@.push(size)
                    },
                }
            }),
    {
        let size = self.sizer.estimated_size_of(&sizes);
        if self.items.len() > 0 && (self.total > self.max_bytes || size > self.max_bytes
            - self.total) {
            let mut batch: Vec<T> = Vec::new();
            std::mem::swap(&mut batch, &mut self.items);
            self.items.push(item);
            self.sizes = Vec::new();
            self.sizes.push(size);
            self.total = size;
            proof {
                lemma_total_size_push(Seq::<usize>::empty(), size);
                assert(self.sizes@ =~= Seq::<usize>::empty().push(size));
                assert(self.items@ =~= seq![item]);
            }
            Some(batch)
        } else {
            proof {
                lemma_total_size_push(self.sizes@, size);
            }
            self.items.push(item);
            self.sizes.push(size);
            self.total = self.total + size;
            None
        }
    }

    /// Closes the open batch at the end of the input; none when it is empty.
    pub fn flush(&mut self) -> (r: Option<Vec<T>>)
        requires
            old(self).wf(),
        ensures
            final(self).wf(),
            final(self).sizer == old(self).sizer,
            final(self).max_bytes == old(self).max_bytes,
            final(self).items@.len() == 0,
            (r is Some) <==> old(self).items.len() > 0,
            r matches Some(batch) ==> batch@ == old(self).items@ && Self::within_bound(
                old(self).sizes@,
                old(self).max_bytes,
            ),
    {
        if self.items.len() == 0 {
            None
        } else {
            let mut batch: Vec<T> = Vec::new();
            std::mem::swap(&mut batch, &mut self.items);
            self.sizes = Vec::new();
            self.total = 0;
            Some(batch)
        }
    }
}

} // verus!
