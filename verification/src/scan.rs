//! Scans over the index of one table: the rows of an interval of keys, in
//! order, one page at a time.

use vstd::prelude::*;
use crate::document::ResolvedDocument;
use crate::transaction::{StoredView, Transaction, TransactionView};
use crate::types::{
    CursorPosition,
    IndexKey,
    Interval,
    IntervalEnd,
    Order,
    TabletId,
    WriteTimestamp,
};

verus! {

/// Whether a document belongs to the scan of that table over that interval.
pub open spec fn in_scan(tablet_id: TabletId, interval: Interval) -> spec_fn(StoredView) -> bool {
    |d: StoredView| d.document.id.tablet_id == tablet_id && interval.spec_contains(d.key())
}

/// The key that a cursor names where a scan has handed out no row yet: a key
/// just outside the interval, on the side from which the scan starts.
pub open spec fn spec_resume_point(interval: Interval, order: Order) -> IndexKey {
    match order {
        Order::Asc => if interval.start == 0 {
            0
        } else {
            (interval.start - 1) as u64
        },
        Order::Desc => match interval.end {
            IntervalEnd::Excluded(end) => end,
            IntervalEnd::Unbounded => u64::MAX,
        },
    }
}

/// The rows of a page as the store holds them.
pub open spec fn rows_view(rows: Seq<(IndexKey, ResolvedDocument, WriteTimestamp)>) -> Seq<
    StoredView,
> {
    Seq::new(rows.len(), |i: int| StoredView { document: rows[i].1@, ts: rows[i].2 })
}

impl TransactionView {
    /// The documents of a table whose keys lie in an interval, by rising key.
    pub open spec fn matching(self, tablet_id: TabletId, interval: Interval) -> Seq<StoredView> {
        self.documents.filter(in_scan(tablet_id, interval))
    }

    /// The same documents in the order of a scan.
    pub open spec fn scan(self, tablet_id: TabletId, interval: Interval, order: Order) -> Seq<
        StoredView,
    > {
        match order {
            Order::Asc => self.matching(tablet_id, interval),
            Order::Desc => self.matching(tablet_id, interval).reverse(),
        }
    }

    /// The first page of a scan: its first `max_size` rows, or all of them.
    pub open spec fn page(
        self,
        tablet_id: TabletId,
        interval: Interval,
        order: Order,
        max_size: usize,
    ) -> Seq<StoredView> {
        let scan = self.scan(tablet_id, interval, order);
        if scan.len() <= max_size {
            scan
        } else {
            scan.take(max_size as int)
        }
    }

    /// The cursor after the first page: the end where the page holds the whole
    /// scan, else the key of the last row of the page.
    pub open spec fn cursor(
        self,
        tablet_id: TabletId,
        interval: Interval,
        order: Order,
        max_size: usize,
    ) -> CursorPosition {
        let scan = self.scan(tablet_id, interval, order);
        if scan.len() <= max_size {
            CursorPosition::End
        } else if max_size == 0 {
            CursorPosition::After(spec_resume_point(interval, order))
        } else {
            CursorPosition::After(scan[max_size - 1].key())
        }
    }
}

/// What one more element does to a filtered prefix.
pub proof fn lemma_filter_step<T>(s: Seq<T>, p: spec_fn(T) -> bool, i: int)
    requires
        0 <= i < s.len(),
    ensures
        s.take(i + 1).filter(p) == if p(s[i]) {
            s.take(i).filter(p).push(s[i])
        } else {
            s.take(i).filter(p)
        },
{
    reveal(Seq::filter);
    assert(s.take(i + 1).drop_last() =~= s.take(i));
    assert(s.take(i + 1).last() == s[i]);
}

/// The key from which a scan that has handed out no row resumes.
pub fn resume_point(interval: &Interval, order: Order) -> (key: IndexKey)
    ensures
        key == spec_resume_point(*interval, order),
{
    match order {
        Order::Asc => if interval.start == 0 {
            0
        } else {
            interval.start - 1
        },
        Order::Desc => match interval.end {
            IntervalEnd::Excluded(end) => end,
            IntervalEnd::Unbounded => u64::MAX,
        },
    }
}

impl Transaction {
    /// The places of the documents of a table whose keys lie in an interval,
    /// from the front of the store.
    pub fn matching_places(&self, tablet_id: TabletId, interval: &Interval) -> (places: Vec<usize>)
        ensures
            places.len() == self@.matching(tablet_id, *interval).len(),
            forall|k: int|
                0 <= k < places.len() ==> (#[trigger] places[k]) < self.documents.len()
                    && self@.documents[places[k] as int] == self@.matching(tablet_id, *interval)[k],
    {
        let ghost p = in_scan(tablet_id, *interval);
        let ghost docs = self@.documents;
        let mut places: Vec<usize> = Vec::new();
        let mut i: usize = 0;
        proof {
            reveal(Seq::filter);
            assert(docs.take(0).filter(p).len() == 0);
        }
        while i < self.documents.len()
            invariant
                i <= self.documents.len(),
                docs == self@.documents,
                p == in_scan(tablet_id, *interval),
                places.len() == docs.take(i as int).filter(p).len(),
                forall|k: int|
                    0 <= k < places.len() ==> (#[trigger] places[k]) < i && docs[places[k] as int]
                        == docs.take(i as int).filter(p)[k],
            decreases self.documents.len() - i,
        {
            let id = self.documents[i].document.id;
            proof {
                lemma_filter_step(docs, p, i as int);
                assert(docs[i as int].document.id == id);
            }
            if id.tablet_id == tablet_id && interval.contains(id.developer_id.internal_id) {
                places.push(i);
            }
            i = i + 1;
        }
        assert(docs.take(self.documents.len() as int) =~= docs);
        places
    }

    /// One page of the scan of a table's index over an interval of keys, and
    /// the cursor after it. Nothing is put on the account of reads.
    pub fn range(&self, tablet_id: TabletId, interval: &Interval, order: Order, max_size: usize) -> (out:
        (Vec<(IndexKey, ResolvedDocument, WriteTimestamp)>, CursorPosition))
        ensures
            rows_view(out.0@) == self@.page(tablet_id, *interval, order, max_size),
            forall|k: int|
                0 <= k < out.0.len() ==> (#[trigger] out.0[k]).0 == out.0[k].1.id.developer_id.internal_id,
            out.1 == self@.cursor(tablet_id, *interval, order, max_size),
    {
        let places = self.matching_places(tablet_id, interval);
        let ghost scan = self@.scan(tablet_id, *interval, order);
        let total = places.len();
        let count = if total <= max_size {
            total
        } else {
            max_size
        };
        let mut rows: Vec<(IndexKey, ResolvedDocument, WriteTimestamp)> = Vec::new();
        let mut k: usize = 0;
        while k < count
            invariant
                k <= count <= total,
                total == places.len(),
                total == scan.len(),
                scan == self@.scan(tablet_id, *interval, order),
                forall|j: int|
                    0 <= j < total ==> (#[trigger] places[j]) < self.documents.len()
                        && self@.documents[places[j] as int] == self@.matching(
                        tablet_id,
                        *interval,
                    )[j],
                rows.len() == k,
                forall|j: int|
                    0 <= j < k ==> rows_view(rows@)[j] == scan[j] && (#[trigger] rows[j]).0
                        == rows[j].1.id.developer_id.internal_id,
            decreases count - k,
        {
            let place = match order {
                Order::Asc => places[k],
                Order::Desc => places[total - 1 - k],
            };
            let stored = &self.documents[place];
            let row = (
                stored.document.id.developer_id.internal_id,
                stored.document.clone(),
                stored.ts,
            );
            proof {
                assert(self@.documents[place as int] == scan[k as int]);
                assert(StoredView { document: row.1@, ts: row.2 } == scan[k as int]);
                let ghost before = rows@;
                assert forall|j: int| 0 <= j < k + 1 implies rows_view(before.push(row))[j]
                    == scan[j] && (#[trigger] before.push(row)[j]).0 == before.push(
                    row,
                )[j].1.id.developer_id.internal_id by {
                    if j < k {
                        assert(before.push(row)[j] == before[j]);
                        assert(rows_view(before)[j] == scan[j]);
                    }
                }
            }
            rows.push(row);
            k = k + 1;
        }
        let cursor = if total <= max_size {
            CursorPosition::End
        } else if max_size == 0 {
            CursorPosition::After(resume_point(interval, order))
        } else {
            let last = &rows[count - 1];
            proof {
                assert(rows_view(rows@)[count - 1] == scan[count - 1]);
            }
            CursorPosition::After(last.0)
        };
        assert(rows_view(rows@) =~= self@.page(tablet_id, *interval, order, max_size));
        (rows, cursor)
    }
}

} // verus!
