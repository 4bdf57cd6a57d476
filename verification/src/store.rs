//! The store inside a transaction: its counters, its tables and the
//! primitives that read, write and remove one document.

use vstd::prelude::*;
use crate::document::{ResolvedDocument, ResolvedDocumentView};
use crate::errors::ModelError;
use crate::search::{
    lemma_view_push,
    lemma_view_remove,
    lemma_view_update,
};
use crate::transaction::{
    components_form_tree,
    ReadRecord,
    ReadView,
    StoredDocument,
    StoredView,
    TableEntry,
    TableView,
    Transaction,
    TransactionView,
    VirtualTableEntry,
    VirtualTableView,
};
use crate::types::{BatchKey, InternalId, ResolvedDocumentId, TableNumber, WriteTimestamp};
use crate::value::{spec_merge, ConvexObject, FieldView, PatchValue};

verus! {

impl TransactionView {
    /// Whether the store takes a new document under that identifier: the
    /// identifier was handed out, and it lies above those of all documents.
    pub open spec fn accepts(self, id: ResolvedDocumentId) -> bool {
        &&& 1 <= id.developer_id.internal_id < self.next_id
        &&& forall|i: int|
            0 <= i < self.documents.len() ==> (#[trigger] self.documents[i]).key()
                < id.developer_id.internal_id
    }

    /// The table that a new name gets: the next storage and the next number.
    pub open spec fn new_table(self, name: Seq<char>) -> TableView {
        TableView { tablet_id: self.next_tablet_id, number: self.next_table_number, name }
    }

    /// Whether the counters have a storage and a number left for a new table.
    pub open spec fn has_table_numbers(self) -> bool {
        self.next_tablet_id < u64::MAX && self.next_table_number < u32::MAX
    }

    /// The state after a table of that name was made.
    pub open spec fn with_new_table(self, name: Seq<char>) -> TransactionView {
        TransactionView {
            tables: self.tables.push(self.new_table(name)),
            next_tablet_id: (self.next_tablet_id + 1) as u64,
            next_table_number: (self.next_table_number + 1) as u32,
            ..self
        }
    }

    /// The state after the table of that name was recorded: unchanged where
    /// the table exists or no number is left, else with the new table.
    pub open spec fn with_table(self, name: Seq<char>) -> TransactionView {
        if self.table_by_name(name) is Some || !self.has_table_numbers() {
            self
        } else {
            self.with_new_table(name)
        }
    }

    /// The state after a virtual table of that name over that table was made.
    pub open spec fn with_virtual_table(self, name: Seq<char>, backing: TableNumber) -> TransactionView {
        TransactionView {
            virtual_tables: self.virtual_tables.push(
                VirtualTableView { number: self.next_table_number, name, backing },
            ),
            next_table_number: (self.next_table_number + 1) as u32,
            ..self
        }
    }

    /// The state after that document was put at the end of the store, as
    /// written in this transaction.
    pub open spec fn with_document(self, document: ResolvedDocumentView) -> TransactionView {
        TransactionView {
            documents: self.documents.push(StoredView { document, ts: WriteTimestamp::Pending }),
            ..self
        }
    }

    /// The document at a place after its value was replaced in this
    /// transaction.
    pub open spec fn rewritten(self, index: int, value: Seq<FieldView>) -> StoredView {
        StoredView {
            document: ResolvedDocumentView { value, ..self.documents[index].document },
            ts: WriteTimestamp::Pending,
        }
    }

    /// The state after the value of the document at a place was replaced.
    pub open spec fn with_value(self, index: int, value: Seq<FieldView>) -> TransactionView {
        TransactionView {
            documents: self.documents.update(index, self.rewritten(index, value)),
            ..self
        }
    }

    /// The state after the document at a place was removed.
    pub open spec fn without_document(self, index: int) -> TransactionView {
        TransactionView { documents: self.documents.remove(index), ..self }
    }

    /// The state after one read was put on the account.
    pub open spec fn with_read(self, read: ReadView) -> TransactionView {
        TransactionView { reads: self.reads.push(read), ..self }
    }
}

/// The model of what the store gave for one identifier.
pub open spec fn stored_view(found: Option<(ResolvedDocument, WriteTimestamp)>) -> Option<
    StoredView,
> {
    match found {
        Some((document, ts)) => Some(StoredView { document: document@, ts }),
        None => None,
    }
}

impl Transaction {
    /// Hands out the next identifier.
    pub fn generate_id(&mut self) -> (result: Result<InternalId, ModelError>)
        requires
            old(self).wf(),
        ensures
            final(self).wf(),
            match result {
                Ok(id) => {
                    &&& old(self)@.next_id < u64::MAX
                    &&& id == old(self)@.next_id
                    &&& final(self)@ == (TransactionView { next_id: (id + 1) as u64, ..old(self)@ })
                },
                Err(e) => {
                    &&& old(self)@.next_id == u64::MAX
                    &&& e == ModelError::CounterExhausted
                    &&& final(self)@ == old(self)@
                },
            },
    {
        if self.next_id == u64::MAX {
            return Err(ModelError::CounterExhausted);
        }
        proof {
            reveal(components_form_tree);
        }
        let id = self.next_id;
        self.next_id = id + 1;
        Ok(id)
    }

    /// Hands out the next creation time.
    pub fn increment_creation_time(&mut self) -> (result: Result<u64, ModelError>)
        ensures
            match result {
                Ok(time) => {
                    &&& old(self)@.next_creation_time < u64::MAX
                    &&& time == old(self)@.next_creation_time
                    &&& final(self)@ == (TransactionView {
                        next_creation_time: (time + 1) as u64,
                        ..old(self)@
                    })
                },
                Err(e) => {
                    &&& old(self)@.next_creation_time == u64::MAX
                    &&& e == ModelError::CounterExhausted
                    &&& final(self)@ == old(self)@
                },
            },
    {
        if self.next_creation_time == u64::MAX {
            return Err(ModelError::CounterExhausted);
        }
        let time = self.next_creation_time;
        self.next_creation_time = time + 1;
        Ok(time)
    }

    /// Records the table of that name, making it where it does not exist yet.
    /// Fails, and changes nothing, where a table would have to be made and no
    /// number is left for it.
    pub fn insert_table_metadata(&mut self, name: &String) -> (result: Result<(), ModelError>)
        requires
            old(self).wf(),
        ensures
            final(self).wf(),
            final(self)@ == old(self)@.with_table(name@),
            result == if old(self)@.table_by_name(name@) is Some || old(self)@.has_table_numbers() {
                Ok::<(), ModelError>(())
            } else {
                Err::<(), ModelError>(ModelError::CounterExhausted)
            },
    {
        if self.find_table_by_name(name).is_some() {
            return Ok(());
        }
        if self.next_tablet_id == u64::MAX || self.next_table_number == u32::MAX {
            return Err(ModelError::CounterExhausted);
        }
        let entry = TableEntry {
            tablet_id: self.next_tablet_id,
            number: self.next_table_number,
            name: name.clone(),
        };
        proof {
            lemma_view_push(self.tables@, entry);
        }
        self.tables.push(entry);
        self.next_tablet_id = self.next_tablet_id + 1;
        self.next_table_number = self.next_table_number + 1;
        Ok(())
    }

    /// Makes a virtual table of that name over the table of that number, and
    /// returns the number of the virtual table.
    pub fn add_virtual_table(&mut self, name: String, backing: TableNumber) -> (result: Result<
        TableNumber,
        ModelError,
    >)
        requires
            old(self).wf(),
        ensures
            final(self).wf(),
            match result {
                Ok(number) => {
                    &&& old(self)@.next_table_number < u32::MAX
                    &&& number == old(self)@.next_table_number
                    &&& final(self)@ == old(self)@.with_virtual_table(name@, backing)
                },
                Err(e) => {
                    &&& old(self)@.next_table_number == u32::MAX
                    &&& e == ModelError::CounterExhausted
                    &&& final(self)@ == old(self)@
                },
            },
    {
        if self.next_table_number == u32::MAX {
            return Err(ModelError::CounterExhausted);
        }
        let number = self.next_table_number;
        let entry = VirtualTableEntry { number, name, backing };
        proof {
            lemma_view_push(self.virtual_tables@, entry);
        }
        self.virtual_tables.push(entry);
        self.next_table_number = number + 1;
        Ok(number)
    }

    /// Puts a new document into the store. The store takes it only under an
    /// identifier that was handed out and lies above all that it holds.
    pub fn insert_document(&mut self, document: ResolvedDocument) -> (result: Result<
        ResolvedDocumentId,
        ModelError,
    >)
        requires
            old(self).wf(),
        ensures
            final(self).wf(),
            old(self)@.accepts(document.id) ==> result == Ok::<ResolvedDocumentId, ModelError>(
                document.id,
            ) && final(self)@ == old(self)@.with_document(document@),
            !old(self)@.accepts(document.id) ==> result == Err::<ResolvedDocumentId, ModelError>(
                ModelError::DocumentIdNotFresh,
            ) && final(self)@ == old(self)@,
    {
        let id = document.id;
        let key = id.developer_id.internal_id;
        let count = self.documents.len();
        let above = if count == 0 {
            true
        } else {
            self.documents[count - 1].document.id.developer_id.internal_id < key
        };
        if key < 1 || key >= self.next_id || !above {
            proof {
                if count > 0 && !above {
                    assert(self@.documents[count - 1].key() >= key);
                }
            }
            return Err(ModelError::DocumentIdNotFresh);
        }
        proof {
            assert forall|i: int| 0 <= i < self@.documents.len() implies (
            #[trigger] self@.documents[i]).key() < key by {
                if i < count - 1 {
                    assert(self@.documents[i].key() < self@.documents[count - 1].key());
                }
            }
        }
        let stored = StoredDocument { document, ts: WriteTimestamp::Pending };
        proof {
            lemma_view_push(self.documents@, stored);
        }
        self.documents.push(stored);
        Ok(id)
    }

    /// The document with that identifier and the time of its last write.
    pub fn get_inner(&self, id: ResolvedDocumentId) -> (found: Option<
        (ResolvedDocument, WriteTimestamp),
    >)
        ensures
            match found {
                Some((document, ts)) => self@.stored(id) == Some(
                    StoredView { document: document@, ts },
                ),
                None => self@.stored(id) is None,
            },
    {
        match self.find_document(id) {
            Some(i) => Some((self.documents[i].document.clone(), self.documents[i].ts)),
            None => None,
        }
    }

    /// Replaces the value of the document with that identifier and returns
    /// the document as it is then.
    pub fn replace_inner(&mut self, id: ResolvedDocumentId, value: ConvexObject) -> (result: Result<
        ResolvedDocument,
        ModelError,
    >)
        requires
            old(self).wf(),
        ensures
            final(self).wf(),
            match old(self)@.document_index(id) {
                Some(i) => {
                    &&& final(self)@ == old(self)@.with_value(i, value@)
                    &&& result matches Ok(document)
                    &&& document@ == old(self)@.rewritten(i, value@).document
                },
                None => {
                    &&& final(self)@ == old(self)@
                    &&& result matches Err(e)
                    &&& e == ModelError::DocumentNotFound
                },
            },
    {
        match self.find_document(id) {
            Some(i) => {
                let document = ResolvedDocument {
                    id: self.documents[i].document.id,
                    creation_time: self.documents[i].document.creation_time,
                    value,
                };
                let copy = document.clone();
                let stored = StoredDocument { document, ts: WriteTimestamp::Pending };
                proof {
                    lemma_view_update(self.documents@, i as int, stored);
                }
                self.documents.set(i, stored);
                Ok(copy)
            },
            None => Err(ModelError::DocumentNotFound),
        }
    }

    /// Merges a patch into the document with that identifier and returns the
    /// document as it is then.
    pub fn patch_inner(&mut self, id: ResolvedDocumentId, patch: PatchValue) -> (result: Result<
        ResolvedDocument,
        ModelError,
    >)
        requires
            old(self).wf(),
        ensures
            final(self).wf(),
            match old(self)@.document_index(id) {
                Some(i) => {
                    let merged = spec_merge(old(self)@.documents[i].document.value, patch@);
                    &&& final(self)@ == old(self)@.with_value(i, merged)
                    &&& result matches Ok(document)
                    &&& document@ == old(self)@.rewritten(i, merged).document
                },
                None => {
                    &&& final(self)@ == old(self)@
                    &&& result matches Err(e)
                    &&& e == ModelError::DocumentNotFound
                },
            },
    {
        match self.find_document(id) {
            Some(i) => {
                let mut value = self.documents[i].document.value.clone();
                value.merge(&patch);
                self.replace_inner(id, value)
            },
            None => Err(ModelError::DocumentNotFound),
        }
    }

    /// Removes the document with that identifier and returns it.
    pub fn delete_inner(&mut self, id: ResolvedDocumentId) -> (result: Result<
        ResolvedDocument,
        ModelError,
    >)
        requires
            old(self).wf(),
        ensures
            final(self).wf(),
            match old(self)@.document_index(id) {
                Some(i) => {
                    &&& final(self)@ == old(self)@.without_document(i)
                    &&& result matches Ok(document)
                    &&& document@ == old(self)@.documents[i].document
                },
                None => {
                    &&& final(self)@ == old(self)@
                    &&& result matches Err(e)
                    &&& e == ModelError::DocumentNotFound
                },
            },
    {
        match self.find_document(id) {
            Some(i) => {
                proof {
                    lemma_view_remove(self.documents@, i as int);
                }
                let stored = self.documents.remove(i);
                Ok(stored.document)
            },
            None => Err(ModelError::DocumentNotFound),
        }
    }

    /// Fetches the documents of a batch that was resolved, entry by entry:
    /// each key comes back with what the store holds under its identifier.
    pub fn get_inner_batch(&self, staged: &Vec<(BatchKey, ResolvedDocumentId, String)>) -> (fetched:
        Vec<(BatchKey, Option<(ResolvedDocument, WriteTimestamp)>)>)
        ensures
            fetched.len() == staged.len(),
            forall|s: int|
                0 <= s < fetched.len() ==> (#[trigger] fetched[s]).0 == staged[s].0
                    && stored_view(fetched[s].1) == self@.stored(staged[s].1),
    {
        let mut fetched: Vec<(BatchKey, Option<(ResolvedDocument, WriteTimestamp)>)> = Vec::new();
        let mut s: usize = 0;
        while s < staged.len()
            invariant
                s <= staged.len(),
                fetched.len() == s,
                forall|t: int|
                    0 <= t < s ==> (#[trigger] fetched[t]).0 == staged[t].0 && stored_view(
                        fetched[t].1,
                    ) == self@.stored(staged[t].1),
            decreases staged.len() - s,
        {
            let found = self.get_inner(staged[s].1);
            fetched.push((staged[s].0, found));
            s = s + 1;
        }
        fetched
    }

    /// Puts one read on the account of the transaction.
    pub fn record_read_document(&mut self, table_name: String, size: usize, is_virtual: bool)
        ensures
            final(self)@ == old(self)@.with_read(
                ReadView { table_name: table_name@, size, is_virtual },
            ),
    {
        let record = ReadRecord { table_name, size, is_virtual };
        proof {
            lemma_view_push(self.reads@, record);
        }
        self.reads.push(record);
    }
}

} // verus!
