//! The document model that callers use: documents are addressed by their
//! stable identifiers, virtual tables can be read, system tables are kept
//! from identities that may not change them, and user documents are held to
//! a size ceiling.

use vstd::prelude::*;
use std::collections::BTreeMap;
use crate::batch::{
    batch_keys,
    file_under,
    is_key_order,
    key_order,
    lemma_key_order_unique,
    request_of,
    take_from,
};
use crate::document::{
    DeveloperDocument,
    DeveloperDocumentView,
    ResolvedDocument,
    ResolvedDocumentView,
};
use crate::errors::ModelError;
use crate::search::lemma_first_push;
use crate::store::stored_view;
use crate::transaction::{
    is_system_name,
    spec_is_system_name,
    ReadView,
    StoredView,
    TableView,
    Transaction,
    TransactionView,
};
use crate::types::{
    BatchKey,
    CursorPosition,
    DeveloperDocumentId,
    IndexKey,
    Interval,
    Order,
    ResolvedDocumentId,
    StableIndexName,
    StableIndexNameView,
    Version,
    WriteTimestamp,
};
use crate::value::{spec_capped, spec_merge, spec_object_size, ConvexObject, FieldView, PatchValue};
use crate::virtual_tables::{
    developer_row,
    developer_rows_view,
    get_result_view,
    page_result_view,
    to_developer_rows,
    GetResultView,
    RowView,
    VirtualTable,
};

verus! {

/// What a fetch gives.
pub type GetResult = Result<Option<(DeveloperDocument, WriteTimestamp)>, ModelError>;

/// The requests of a batch: an identifier and the declared client version
/// under each key.
pub type BatchRequests = Map<BatchKey, (DeveloperDocumentId, Option<Version>)>;

impl TransactionView {
    /// What a fetch of `id` gives: through the virtual table where the number
    /// is that of one, else from the table of that number, and nothing where
    /// no table has the number or the table holds no such document.
    pub open spec fn get(self, id: DeveloperDocumentId) -> GetResultView {
        if self.virtual_by_number(id.table) is Some {
            self.virtual_get(id)
        } else {
            match self.resolve(id) {
                None => Ok(None),
                Some(resolved) => match self.stored(resolved) {
                    Some(stored) => Ok(Some((stored.document.to_developer(), stored.ts))),
                    None => Ok(None),
                },
            }
        }
    }

    /// The read that a fetch of `id` puts on the account itself: one for a
    /// document found through a virtual table, none otherwise.
    pub open spec fn read_of(self, id: DeveloperDocumentId) -> Option<ReadView> {
        match self.virtual_by_number(id.table) {
            Some(entry) => match self.virtual_get(id) {
                Ok(Some((document, _))) => Some(
                    ReadView {
                        table_name: self.virtual_tables[entry].name,
                        size: spec_capped(spec_object_size(document.value)),
                        is_virtual: true,
                    },
                ),
                _ => None,
            },
            None => None,
        }
    }

    /// The state after a fetch of `id`.
    pub open spec fn after_get(self, id: DeveloperDocumentId) -> TransactionView {
        match self.read_of(id) {
            Some(read) => self.with_read(read),
            None => self,
        }
    }

    /// The reads that the fetches of the keys in `order` put on the account,
    /// each judged on the state `self`.
    pub open spec fn batch_reads(self, ids: BatchRequests, order: Seq<BatchKey>) -> Seq<ReadView>
        decreases order.len(),
    {
        if order.len() == 0 {
            Seq::empty()
        } else {
            let before = self.batch_reads(ids, order.drop_last());
            match self.read_of(ids[order.last()].0) {
                Some(read) => before.push(read),
                None => before,
            }
        }
    }

    /// What a batch of fetches gives: under each key what a fetch of its
    /// identifier alone gives on the state `self`.
    pub open spec fn get_batch(self, ids: BatchRequests) -> Map<BatchKey, GetResultView> {
        Map::new(|k: BatchKey| ids.contains_key(k), |k: BatchKey| self.get(ids[k].0))
    }

    /// The state after a batch of fetches: the reads of the batch are on the
    /// account, in the order of the keys.
    pub open spec fn after_batch(self, ids: BatchRequests) -> TransactionView {
        TransactionView {
            reads: self.reads + self.batch_reads(ids, key_order(ids.dom())),
            ..self
        }
    }
}

/// The largest number of rows that one page of a scan holds.
pub const MAX_PAGE_SIZE: usize = 1024;

/// The page size that a scan uses for a requested size: the request, capped.
pub open spec fn spec_clamp_page_size(max_rows: usize) -> usize {
    if max_rows <= MAX_PAGE_SIZE {
        max_rows
    } else {
        MAX_PAGE_SIZE
    }
}

/// Whether a size is over a ceiling.
pub open spec fn spec_too_large(size: usize, limit: usize) -> bool {
    size > limit
}

/// Holds a size to the ceiling for user documents.
pub fn check_user_size(size: usize, limit: usize) -> (result: Result<(), ModelError>)
    ensures
        result == if spec_too_large(size, limit) {
            Err::<(), ModelError>(ModelError::DocumentTooLarge)
        } else {
            Ok::<(), ModelError>(())
        },
{
    if size > limit {
        Err(ModelError::DocumentTooLarge)
    } else {
        Ok(())
    }
}

/// The model of what a change of one document gave.
pub open spec fn document_result_view(result: Result<DeveloperDocument, ModelError>) -> Result<
    DeveloperDocumentView,
    ModelError,
> {
    match result {
        Ok(document) => Ok(document@),
        Err(e) => Err(e),
    }
}

impl TransactionView {
    /// Whether the identity of the transaction may not change the documents
    /// of the table of that number: the table is a system table, and the
    /// identity is neither an administrator nor the system.
    pub open spec fn forbids_change(self, table: u32) -> bool {
        self.is_system(table) && !self.identity.spec_is_privileged()
    }

    /// Whether a value is over the size ceiling for user documents.
    pub open spec fn over_user_size(self, value: Seq<FieldView>) -> bool {
        spec_too_large(spec_capped(spec_object_size(value)), self.user_size_limit)
    }

    /// The state after an insert has taken its identifier.
    pub open spec fn with_id_taken(self) -> TransactionView {
        TransactionView { next_id: (self.next_id + 1) as u64, ..self }
    }

    /// The state after an insert has taken its creation time.
    pub open spec fn with_time_taken(self) -> TransactionView {
        TransactionView { next_creation_time: (self.next_creation_time + 1) as u64, ..self }
    }

    /// The document that an insert of `value` into the table at `place` makes,
    /// under that identifier and creation time.
    pub open spec fn new_document(
        self,
        place: int,
        internal_id: u64,
        creation_time: u64,
        value: Seq<FieldView>,
    ) -> ResolvedDocumentView {
        ResolvedDocumentView {
            id: ResolvedDocumentId {
                tablet_id: self.tables[place].tablet_id,
                developer_id: DeveloperDocumentId { table: self.tables[place].number, internal_id },
            },
            creation_time,
            value,
        }
    }

    /// What an insert gives, and the state after it.
    ///
    /// The insert is refused, and nothing changes, for a virtual table, for a
    /// value over the size ceiling, and while the collection of old data is
    /// falling behind, in this order. Then the identifier and the creation
    /// time are taken; a refusal after that leaves them taken. A table name
    /// that is kept for the system is refused. The table is recorded before
    /// the document is stored, so that no document ever names a table that is
    /// not recorded.
    pub open spec fn insert(self, table: Seq<char>, value: Seq<FieldView>) -> (
        Result<DeveloperDocumentId, ModelError>,
        TransactionView,
    ) {
        if self.virtual_by_name(table) is Some {
            (Err(ModelError::ReadOnlyTable), self)
        } else if self.over_user_size(value) {
            (Err(ModelError::DocumentTooLarge), self)
        } else if self.falling_behind {
            (Err(ModelError::RetentionFallingBehind), self)
        } else if self.next_id == u64::MAX {
            (Err(ModelError::CounterExhausted), self)
        } else if self.next_creation_time == u64::MAX {
            (Err(ModelError::CounterExhausted), self.with_id_taken())
        } else {
            let started = self.with_id_taken().with_time_taken();
            if spec_is_system_name(table) {
                (Err(ModelError::InvalidTableName), started)
            } else if started.table_by_name(table) is None && !started.has_table_numbers() {
                (Err(ModelError::CounterExhausted), started)
            } else {
                let recorded = started.with_table(table);
                let place = recorded.table_by_name(table).unwrap();
                let document = recorded.new_document(
                    place,
                    self.next_id,
                    self.next_creation_time,
                    value,
                );
                (Ok(document.id.developer_id), recorded.with_document(document))
            }
        }
    }

    /// What a patch gives, and the state after it.
    ///
    /// A patch whose result is over the size ceiling is refused after the
    /// store has merged it: the merged document is then in the state.
    pub open spec fn patch(self, id: DeveloperDocumentId, patch: Seq<FieldView>) -> (
        Result<DeveloperDocumentView, ModelError>,
        TransactionView,
    ) {
        if self.forbids_change(id.table) {
            (Err(ModelError::Unauthorized), self)
        } else if self.falling_behind {
            (Err(ModelError::RetentionFallingBehind), self)
        } else {
            match self.resolve(id) {
                None => (Err(ModelError::TableNotFound), self),
                Some(resolved) => match self.document_index(resolved) {
                    None => (Err(ModelError::DocumentNotFound), self),
                    Some(place) => {
                        let merged = spec_merge(self.documents[place].document.value, patch);
                        let after = self.with_value(place, merged);
                        if !self.is_system(id.table) && self.over_user_size(merged) {
                            (Err(ModelError::DocumentTooLarge), after)
                        } else {
                            (Ok(self.rewritten(place, merged).document.to_developer()), after)
                        }
                    },
                },
            }
        }
    }

    /// What a replacement gives, and the state after it.
    pub open spec fn replace(self, id: DeveloperDocumentId, value: Seq<FieldView>) -> (
        Result<DeveloperDocumentView, ModelError>,
        TransactionView,
    ) {
        if self.forbids_change(id.table) {
            (Err(ModelError::Unauthorized), self)
        } else if !self.is_system(id.table) && self.over_user_size(value) {
            (Err(ModelError::DocumentTooLarge), self)
        } else if self.falling_behind {
            (Err(ModelError::RetentionFallingBehind), self)
        } else {
            match self.resolve(id) {
                None => (Err(ModelError::TableNotFound), self),
                Some(resolved) => match self.document_index(resolved) {
                    None => (Err(ModelError::DocumentNotFound), self),
                    Some(place) => (
                        Ok(self.rewritten(place, value).document.to_developer()),
                        self.with_value(place, value),
                    ),
                },
            }
        }
    }

    /// What a deletion gives, and the state after it.
    pub open spec fn delete(self, id: DeveloperDocumentId) -> (
        Result<DeveloperDocumentView, ModelError>,
        TransactionView,
    ) {
        if self.forbids_change(id.table) {
            (Err(ModelError::Unauthorized), self)
        } else if self.falling_behind {
            (Err(ModelError::RetentionFallingBehind), self)
        } else {
            match self.resolve(id) {
                None => (Err(ModelError::TableNotFound), self),
                Some(resolved) => match self.document_index(resolved) {
                    None => (Err(ModelError::DocumentNotFound), self),
                    Some(place) => (
                        Ok(self.documents[place].document.to_developer()),
                        self.without_document(place),
                    ),
                },
            }
        }
    }

    /// What a scan of an index gives: nothing for an empty interval and for an
    /// index that does not exist, else one page of at most `MAX_PAGE_SIZE`
    /// rows and the cursor after it.
    pub open spec fn index_range(
        self,
        index: StableIndexNameView,
        interval: Interval,
        order: Order,
        max_rows: usize,
    ) -> Result<(Seq<RowView>, CursorPosition), ModelError> {
        if interval.spec_is_empty() {
            Ok((Seq::empty(), CursorPosition::End))
        } else {
            let max_size = spec_clamp_page_size(max_rows);
            match index {
                StableIndexNameView::Physical(tablet) => match self.table_by_tablet(
                    tablet.tablet_id,
                ) {
                    None => Err(ModelError::TableNotFound),
                    Some(_) => Ok(
                        (
                            self.page(tablet.tablet_id, interval, order, max_size).map_values(
                                |stored: StoredView| developer_row(stored),
                            ),
                            self.cursor(tablet.tablet_id, interval, order, max_size),
                        ),
                    ),
                },
                StableIndexNameView::Virtual(table, tablet) => self.virtual_index_range(
                    table,
                    tablet.tablet_id,
                    interval,
                    order,
                    max_size,
                ),
                StableIndexNameView::Missing => Ok((Seq::empty(), CursorPosition::End)),
            }
        }
    }
}

/// A batch of one request under the key 0 leaves the state that a fetch of
/// the one identifier leaves.
pub proof fn lemma_single_batch(
    view: TransactionView,
    id: DeveloperDocumentId,
    version: Option<Version>,
)
    ensures
        view.after_batch(Map::<BatchKey, (DeveloperDocumentId, Option<Version>)>::empty().insert(
            0,
            (id, version),
        )) == view.after_get(id),
{
    let ids = Map::<BatchKey, (DeveloperDocumentId, Option<Version>)>::empty().insert(
        0,
        (id, version),
    );
    let one: Seq<BatchKey> = seq![0usize];
    assert(ids.dom() =~= set![0usize]);
    assert(one[0] == 0);
    assert(is_key_order(one, ids.dom())) by {
        assert forall|k: BatchKey| ids.dom().contains(k) implies one.contains(k) by {
            assert(one[0] == k);
        }
    }
    lemma_key_order_unique(one, key_order(ids.dom()), ids.dom());
    assert(one.drop_last() =~= Seq::<BatchKey>::empty());
    assert(view.batch_reads(ids, one.drop_last()) =~= Seq::<ReadView>::empty());
    assert(one.last() == 0);
    match view.read_of(id) {
        Some(read) => {
            assert(view.batch_reads(ids, one) =~= seq![read]);
            assert(view.reads + seq![read] =~= view.reads.push(read));
        },
        None => {
            assert(view.batch_reads(ids, one) =~= Seq::<ReadView>::empty());
            assert(view.reads + Seq::<ReadView>::empty() =~= view.reads);
        },
    }
}

/// The models of the results of a batch.
pub open spec fn batch_view(results: Map<BatchKey, GetResult>) -> Map<BatchKey, GetResultView> {
    Map::new(|k: BatchKey| results.contains_key(k), |k: BatchKey| get_result_view(results[k]))
}

/// Whether `key` is among the staged entries from place `from` on.
pub open spec fn is_staged(
    staged: Seq<(BatchKey, ResolvedDocumentId, String)>,
    from: int,
    key: BatchKey,
) -> bool {
    exists|s: int| from <= s < staged.len() && (#[trigger] staged[s]).0 == key
}

/// The document model that callers use, over one transaction.
pub struct UserFacingModel<'a> {
    pub tx: &'a mut Transaction,
}

impl<'a> UserFacingModel<'a> {
    pub fn new(tx: &'a mut Transaction) -> (model: Self)
        ensures
            *model.tx == *old(tx),
            *final(model.tx) == *final(tx),
    {
        UserFacingModel { tx }
    }

    /// Fetches a batch of documents by their identifiers.
    ///
    /// The batch is worked off in three stages. First each entry is resolved:
    /// an entry of a virtual table is fetched at once, an entry whose table
    /// number does not exist is answered with nothing, and the others are
    /// staged with their identifiers in the store. Then the staged entries are
    /// fetched from the store together. Last each fetched document is turned
    /// into the form that callers see. Every key of the batch gets its own
    /// answer, whatever the other entries gave.
    pub fn get_batch(&mut self, ids: BTreeMap<BatchKey, (DeveloperDocumentId, Option<Version>)>) -> (results:
        BTreeMap<BatchKey, GetResult>)
        ensures
            *final(final(self).tx) == *final(old(self).tx),
            final(self).tx@ == old(self).tx@.after_batch(ids@),
            batch_view(results@) == old(self).tx@.get_batch(ids@),
            results@.dom() == ids@.dom(),
    {
        let ghost view0 = self.tx@;
        let order = batch_keys(&ids);
        let mut results: BTreeMap<BatchKey, GetResult> = BTreeMap::new();
        let mut staged: Vec<(BatchKey, ResolvedDocumentId, String)> = Vec::new();
        let mut i: usize = 0;
        while i < order.len()
            invariant
                i <= order.len(),
                is_key_order(order@, ids@.dom()),
                order@ == key_order(ids@.dom()),
                *final(self.tx) == *final(old(self).tx),
                view0 == old(self).tx@,
                self.tx@ == (TransactionView {
                    reads: view0.reads + view0.batch_reads(ids@, order@.take(i as int)),
                    ..view0
                }),
                forall|k: BatchKey| #[trigger]
                    results@.contains_key(k) ==> ids@.contains_key(k) && get_result_view(
                        results@[k],
                    ) == view0.get(ids@[k].0),
                forall|s: int|
                    0 <= s < staged.len() ==> ids@.contains_key((#[trigger] staged[s]).0)
                        && view0.virtual_by_number(ids@[staged[s].0].0.table) is None
                        && view0.resolve(ids@[staged[s].0].0) == Some(staged[s].1),
                forall|j: int|
                    0 <= j < i ==> results@.contains_key(#[trigger] order[j]) || is_staged(
                        staged@,
                        0,
                        order[j],
                    ),
            decreases order.len() - i,
        {
            let key = order[i];
            let ghost reads_before = view0.batch_reads(ids@, order@.take(i as int));
            proof {
                assert(ids@.contains_key(order@[i as int]));
                let next = order@.take(i + 1);
                assert(next.drop_last() =~= order@.take(i as int));
                assert(next.last() == key);
            }
            match request_of(&ids, key) {
                Some(entry) => {
                    let id = entry.0;
                    let version = entry.1;
                    assert(id == ids@[key].0);
                    let ghost staged_before = staged@;
                    match self.tx.find_virtual_by_number(id.table) {
                        Some(place) => {
                            let found = VirtualTable::new(&*self.tx).get(&id, version);
                            assert(get_result_view(found) == view0.virtual_get(id));
                            match &found {
                                Ok(Some(hit)) => {
                                    let table_name = self.tx.virtual_tables[place].name.clone();
                                    let size = hit.0.size();
                                    self.tx.record_read_document(table_name, size, true);
                                    assert(self.tx@.reads =~= view0.reads + view0.batch_reads(
                                        ids@,
                                        order@.take(i + 1),
                                    ));
                                },
                                _ => {
                                    assert(view0.read_of(id) is None);
                                },
                            }
                            file_under(&mut results, key, found);
                        },
                        None => {
                            assert(view0.read_of(id) is None);
                            match self.tx.resolve(id) {
                                None => {
                                    file_under(&mut results, key, Ok(None));
                                },
                                Some(resolved) => {
                                    let table_name = match self.tx.find_table_by_number(id.table) {
                                        Some(t) => self.tx.tables[t].name.clone(),
                                        None => String::new(),
                                    };
                                    staged.push((key, resolved, table_name));
                                    assert(staged@[staged.len() - 1].0 == key);
                                },
                            }
                        },
                    }
                    proof {
                        assert forall|j: int| 0 <= j < i + 1 implies results@.contains_key(
                            #[trigger] order[j],
                        ) || is_staged(staged@, 0, order[j]) by {
                            if j < i {
                                if !results@.contains_key(order[j]) {
                                    assert(is_staged(staged_before, 0, order[j]));
                                    let s = choose|s: int|
                                        0 <= s < staged_before.len() && (
                                        #[trigger] staged_before[s]).0 == order[j];
                                    assert(staged@[s].0 == order[j]);
                                }
                            } else {
                                if !results@.contains_key(key) {
                                    assert(staged@[staged.len() - 1].0 == key);
                                }
                            }
                        }
                    }
                },
                None => {
                    assert(false);
                },
            }
            i = i + 1;
        }
        assert(order@.take(order.len() as int) =~= order@);
        let fetched = self.tx.get_inner_batch(&staged);
        let ghost staged_all = staged@;
        let ghost mut done: int = 0;
        for item in it: fetched
            invariant
                it.seq().len() == staged_all.len(),
                done == it.index(),
                is_key_order(order@, ids@.dom()),
                *final(self.tx) == *final(old(self).tx),
                self.tx@ == view0.after_batch(ids@),
                forall|s: int|
                    0 <= s < staged_all.len() ==> (#[trigger] it.seq()[s]).0 == staged_all[s].0
                        && stored_view(it.seq()[s].1) == view0.stored(staged_all[s].1),
                forall|k: BatchKey| #[trigger]
                    results@.contains_key(k) ==> ids@.contains_key(k) && get_result_view(
                        results@[k],
                    ) == view0.get(ids@[k].0),
                forall|s: int|
                    0 <= s < staged_all.len() ==> ids@.contains_key((#[trigger] staged_all[s]).0)
                        && view0.virtual_by_number(ids@[staged_all[s].0].0.table) is None
                        && view0.resolve(ids@[staged_all[s].0].0) == Some(staged_all[s].1),
                forall|j: int|
                    0 <= j < order.len() ==> results@.contains_key(#[trigger] order[j])
                        || is_staged(staged_all, done, order[j]),
        {
            let ghost at = it.index();
            let ghost results_before = results@;
            assert(item == it.seq()[at]);
            let batch_key = item.0;
            assert(batch_key == staged_all[at].0);
            let developer_result = match item.1 {
                Some((document, ts)) => Some((document.to_developer(), ts)),
                None => None,
            };
            file_under(&mut results, batch_key, Ok(developer_result));
            proof {
                done = done + 1;
                assert forall|j: int| 0 <= j < order.len() implies results@.contains_key(
                    #[trigger] order[j],
                ) || is_staged(staged_all, done, order[j]) by {
                    if !results_before.contains_key(order[j]) && order[j] != batch_key {
                        let s = choose|s: int|
                            at <= s < staged_all.len() && (#[trigger] staged_all[s]).0 == order[j];
                        assert(s != at);
                    }
                }
            }
        }
        proof {
            assert forall|k: BatchKey| ids@.dom().contains(k) implies results@.dom().contains(
                k,
            ) by {
                assert(order@.contains(k));
                let j = choose|j: int| 0 <= j < order.len() && order[j] == k;
                assert(results@.contains_key(order[j]) || is_staged(
                    staged_all,
                    done,
                    order[j],
                ));
            }
            assert(results@.dom() =~= ids@.dom());
            assert(batch_view(results@) =~= view0.get_batch(ids@));
        }
        results
    }

    /// Fetches one document and the time of its last write.
    pub fn get_with_ts(&mut self, id: DeveloperDocumentId, version: Option<Version>) -> (result:
        GetResult)
        ensures
            *final(final(self).tx) == *final(old(self).tx),
            final(self).tx@ == old(self).tx@.after_get(id),
            get_result_view(result) == old(self).tx@.get(id),
    {
        let mut ids: BTreeMap<BatchKey, (DeveloperDocumentId, Option<Version>)> = BTreeMap::new();
        file_under(&mut ids, 0, (id, version));
        proof {
            lemma_single_batch(self.tx@, id, version);
        }
        let mut batch_result = self.get_batch(ids);
        assert(batch_view(batch_result@)[0] == old(self).tx@.get(id));
        match take_from(&mut batch_result, 0) {
            Some(result) => result,
            None => Err(ModelError::BatchKeyMissing),
        }
    }

    /// Fetches one document.
    pub fn get(&mut self, id: DeveloperDocumentId, version: Option<Version>) -> (result: Result<
        Option<DeveloperDocument>,
        ModelError,
    >)
        ensures
            *final(final(self).tx) == *final(old(self).tx),
            final(self).tx@ == old(self).tx@.after_get(id),
            match old(self).tx@.get(id) {
                Ok(Some((document, _))) => result matches Ok(Some(found)) && found@ == document,
                Ok(None) => result matches Ok(None),
                Err(e) => result matches Err(error) && error == e,
            },
    {
        match self.get_with_ts(id, version) {
            Ok(Some((document, _))) => Ok(Some(document)),
            Ok(None) => Ok(None),
            Err(e) => Err(e),
        }
    }

    /// Creates a new document with the given value in the table of that name.
    pub fn insert(&mut self, table: String, value: ConvexObject) -> (result: Result<
        DeveloperDocumentId,
        ModelError,
    >)
        requires
            old(self).tx.wf(),
        ensures
            *final(final(self).tx) == *final(old(self).tx),
            final(self).tx.wf(),
            (result, final(self).tx@) == old(self).tx@.insert(table@, value@),
    {
        let ghost view0 = self.tx@;
        if self.tx.is_virtual_table(&table) {
            return Err(ModelError::ReadOnlyTable);
        }
        match check_user_size(value.size(), self.tx.user_size_limit) {
            Err(e) => { return Err(e); },
            Ok(_) => {},
        }
        match self.tx.fail_if_falling_behind() {
            Err(e) => { return Err(e); },
            Ok(_) => {},
        }
        let internal_id = match self.tx.generate_id() {
            Err(e) => { return Err(e); },
            Ok(internal_id) => internal_id,
        };
        let creation_time = match self.tx.increment_creation_time() {
            Err(e) => { return Err(e); },
            Ok(creation_time) => creation_time,
        };
        let ghost started = self.tx@;
        assert(started == view0.with_id_taken().with_time_taken());
        if is_system_name(&table) {
            return Err(ModelError::InvalidTableName);
        }
        match self.tx.insert_table_metadata(&table) {
            Err(e) => { return Err(e); },
            Ok(_) => {},
        }
        let ghost recorded = self.tx@;
        proof {
            if started.table_by_name(table@) is None {
                lemma_first_push(
                    started.tables,
                    |t: TableView| t.name == table@,
                    started.new_table(table@),
                );
            }
            assert(recorded.table_by_name(table@) is Some);
        }
        let place = match self.tx.find_table_by_name(&table) {
            Some(place) => place,
            None => { return Err(ModelError::TableNotFound); },
        };
        let id = ResolvedDocumentId {
            tablet_id: self.tx.tables[place].tablet_id,
            developer_id: DeveloperDocumentId { table: self.tx.tables[place].number, internal_id },
        };
        let document = ResolvedDocument { id, creation_time, value };
        assert(document@ == recorded.new_document(
            place as int,
            view0.next_id,
            view0.next_creation_time,
            value@,
        ));
        assert(recorded.accepts(id));
        match self.tx.insert_document(document) {
            Ok(document_id) => Ok(document_id.to_developer()),
            Err(e) => Err(e),
        }
    }

    /// Merges the given fields into the document; fields of the same name are
    /// overwritten.
    pub fn patch(&mut self, id: DeveloperDocumentId, value: PatchValue) -> (result: Result<
        DeveloperDocument,
        ModelError,
    >)
        requires
            old(self).tx.wf(),
        ensures
            *final(final(self).tx) == *final(old(self).tx),
            final(self).tx.wf(),
            (document_result_view(result), final(self).tx@) == old(self).tx@.patch(id, value@),
    {
        let system = self.tx.is_system(id.table);
        if system && !(self.tx.identity.is_admin() || self.tx.identity.is_system()) {
            return Err(ModelError::Unauthorized);
        }
        match self.tx.fail_if_falling_behind() {
            Err(e) => { return Err(e); },
            Ok(_) => {},
        }
        let resolved = match self.tx.resolve(id) {
            Some(resolved) => resolved,
            None => { return Err(ModelError::TableNotFound); },
        };
        let limit = self.tx.user_size_limit;
        let new_document = match self.tx.patch_inner(resolved, value) {
            Ok(new_document) => new_document,
            Err(e) => { return Err(e); },
        };
        if !system {
            match check_user_size(new_document.size(), limit) {
                Err(e) => { return Err(e); },
                Ok(_) => {},
            }
        }
        Ok(new_document.to_developer())
    }

    /// Replaces the value of the document with the given value.
    pub fn replace(&mut self, id: DeveloperDocumentId, value: ConvexObject) -> (result: Result<
        DeveloperDocument,
        ModelError,
    >)
        requires
            old(self).tx.wf(),
        ensures
            *final(final(self).tx) == *final(old(self).tx),
            final(self).tx.wf(),
            (document_result_view(result), final(self).tx@) == old(self).tx@.replace(id, value@),
    {
        let system = self.tx.is_system(id.table);
        if system && !(self.tx.identity.is_admin() || self.tx.identity.is_system()) {
            return Err(ModelError::Unauthorized);
        }
        if !system {
            match check_user_size(value.size(), self.tx.user_size_limit) {
                Err(e) => { return Err(e); },
                Ok(_) => {},
            }
        }
        match self.tx.fail_if_falling_behind() {
            Err(e) => { return Err(e); },
            Ok(_) => {},
        }
        let resolved = match self.tx.resolve(id) {
            Some(resolved) => resolved,
            None => { return Err(ModelError::TableNotFound); },
        };
        match self.tx.replace_inner(resolved, value) {
            Ok(new_document) => Ok(new_document.to_developer()),
            Err(e) => Err(e),
        }
    }

    /// Deletes the document with the given identifier and returns it.
    pub fn delete(&mut self, id: DeveloperDocumentId) -> (result: Result<
        DeveloperDocument,
        ModelError,
    >)
        requires
            old(self).tx.wf(),
        ensures
            *final(final(self).tx) == *final(old(self).tx),
            final(self).tx.wf(),
            (document_result_view(result), final(self).tx@) == old(self).tx@.delete(id),
    {
        let system = self.tx.is_system(id.table);
        if system && !(self.tx.identity.is_admin() || self.tx.identity.is_system()) {
            return Err(ModelError::Unauthorized);
        }
        match self.tx.fail_if_falling_behind() {
            Err(e) => { return Err(e); },
            Ok(_) => {},
        }
        let resolved = match self.tx.resolve(id) {
            Some(resolved) => resolved,
            None => { return Err(ModelError::TableNotFound); },
        };
        match self.tx.delete_inner(resolved) {
            Ok(document) => Ok(document.to_developer()),
            Err(e) => Err(e),
        }
    }

    /// Puts the read of a document on the account of the transaction. Callers
    /// do so for each document that they take from a page or from a batch.
    pub fn record_read_document(&mut self, document: &DeveloperDocument, table_name: &String) -> (result:
        Result<(), ModelError>)
        ensures
            *final(final(self).tx) == *final(old(self).tx),
            result is Ok,
            final(self).tx@ == old(self).tx@.with_read(
                ReadView {
                    table_name: table_name@,
                    size: spec_capped(spec_object_size(document@.value)),
                    is_virtual: old(self).tx@.virtual_by_name(table_name@) is Some,
                },
            ),
    {
        let is_virtual_table = self.tx.is_virtual_table(table_name);
        self.tx.record_read_document(table_name.clone(), document.size(), is_virtual_table);
        Ok(())
    }

    /// One page of a scan of an index, and the cursor after it. The reads of
    /// the page are not put on the account: callers do so for each document
    /// that they take from it.
    pub fn index_range(
        &mut self,
        stable_index_name: &StableIndexName,
        interval: &Interval,
        order: Order,
        max_rows: usize,
        version: Option<Version>,
    ) -> (result: Result<
        (Vec<(IndexKey, DeveloperDocument, WriteTimestamp)>, CursorPosition),
        ModelError,
    >)
        ensures
            *final(final(self).tx) == *final(old(self).tx),
            final(self).tx@ == old(self).tx@,
            page_result_view(result) == old(self).tx@.index_range(
                stable_index_name@,
                *interval,
                order,
                max_rows,
            ),
    {
        if interval.is_empty() {
            let rows: Vec<(IndexKey, DeveloperDocument, WriteTimestamp)> = Vec::new();
            assert(developer_rows_view(rows@) =~= Seq::<RowView>::empty());
            return Ok((rows, CursorPosition::End));
        }
        let max_size = if max_rows <= MAX_PAGE_SIZE {
            max_rows
        } else {
            MAX_PAGE_SIZE
        };
        match stable_index_name {
            StableIndexName::Physical(tablet_index_name) => {
                let tablet_id = tablet_index_name.tablet_id;
                if self.tx.find_table_by_tablet(tablet_id).is_none() {
                    return Err(ModelError::TableNotFound);
                }
                let (rows, cursor) = self.tx.range(tablet_id, interval, order, max_size);
                let developer_results = to_developer_rows(rows, None);
                proof {
                    assert(developer_rows_view(developer_results@) =~= self.tx@.page(
                        tablet_id,
                        *interval,
                        order,
                        max_size,
                    ).map_values(|stored: StoredView| developer_row(stored)));
                }
                Ok((developer_results, cursor))
            },
            StableIndexName::Virtual(index_name, tablet_index_name) => {
                VirtualTable::new(&*self.tx).index_range(
                    &index_name.table,
                    tablet_index_name.tablet_id,
                    interval,
                    order,
                    max_size,
                    version,
                )
            },
            StableIndexName::Missing => {
                let rows: Vec<(IndexKey, DeveloperDocument, WriteTimestamp)> = Vec::new();
                assert(developer_rows_view(rows@) =~= Seq::<RowView>::empty());
                Ok((rows, CursorPosition::End))
            },
        }
    }
}

} // verus!
