//! Files: documents of the table `files` that hold the content of a file.
//! Files are stored, fetched, listed and deleted through the document model.

use vstd::prelude::*;
use crate::document::{DeveloperDocument, DeveloperDocumentView};
use crate::errors::ModelError;
use crate::scan::in_scan;
use crate::transaction::{StoredView, Transaction, TransactionView};
use crate::types::{DeveloperDocumentId, Interval, Order, WriteTimestamp};
use crate::user_facing::{document_result_view, UserFacingModel};
use crate::validation::{fail_while_paused_or_disabled, BackendState};
use crate::value::{ConvexObject, ConvexValue, Field, FieldView, ValueView};
use crate::virtual_tables::{developer_row, developer_rows_view, to_developer_rows, RowView};

verus! {

/// The object that holds the content of a file.
pub open spec fn spec_file_object(content: Seq<u8>) -> Seq<FieldView> {
    seq![FieldView { name: "content"@, value: ValueView::Bytes(content) }]
}

/// The object that holds the content of a file.
pub fn file_object(content: Vec<u8>) -> (object: ConvexObject)
    ensures
        object@ == spec_file_object(content@),
{
    let mut fields: Vec<Field> = Vec::new();
    fields.push(Field { name: "content".to_owned(), value: ConvexValue::Bytes(content) });
    let object = ConvexObject { fields };
    assert(object@ =~= spec_file_object(content@));
    object
}

impl TransactionView {
    /// Whether `id` names a document of the table of files.
    pub open spec fn is_file_id(self, id: DeveloperDocumentId) -> bool {
        match self.table_by_name("files"@) {
            Some(place) => self.tables[place].number == id.table,
            None => false,
        }
    }

    /// What storing a file gives, and the state after it: the backend must
    /// run and the file must have content; then the file is inserted as a
    /// document.
    pub open spec fn store_file(self, backend_state: BackendState, content: Seq<u8>) -> (
        Result<DeveloperDocumentId, ModelError>,
        TransactionView,
    ) {
        if backend_state != BackendState::Running {
            (Err(ModelError::BackendIsNotRunning), self)
        } else if content.len() == 0 {
            (Err(ModelError::EmptyFile), self)
        } else {
            self.insert("files"@, spec_file_object(content))
        }
    }

    /// What deleting a file gives, and the state after it: a file that is
    /// not there is not found.
    pub open spec fn delete_file(self, id: DeveloperDocumentId) -> (
        Result<(), ModelError>,
        TransactionView,
    ) {
        if !self.is_file_id(id) {
            (Err(ModelError::FileNotFound), self)
        } else {
            match self.delete(id).0 {
                Ok(_) => (Ok(()), self.delete(id).1),
                Err(ModelError::DocumentNotFound) => (Err(ModelError::FileNotFound), self.delete(id).1),
                Err(e) => (Err(e), self.delete(id).1),
            }
        }
    }

    /// What fetching a file gives: a file that is not there is not found.
    pub open spec fn get_file(self, id: DeveloperDocumentId) -> Result<
        DeveloperDocumentView,
        ModelError,
    > {
        if !self.is_file_id(id) {
            Err(ModelError::FileNotFound)
        } else {
            match self.get(id) {
                Ok(Some((document, _))) => Ok(document),
                Ok(None) => Err(ModelError::FileNotFound),
                Err(e) => Err(e),
            }
        }
    }

    /// All the files, by rising identifier.
    pub open spec fn list_files(self) -> Seq<RowView> {
        match self.table_by_name("files"@) {
            Some(place) => self.matching(self.tables[place].tablet_id, Interval::all()).map_values(
                |stored: StoredView| developer_row(stored),
            ),
            None => Seq::empty(),
        }
    }
}

/// Stores a file and returns its identifier.
pub fn store_file(model: &mut UserFacingModel<'_>, backend_state: BackendState, content: Vec<u8>) -> (result:
    Result<DeveloperDocumentId, ModelError>)
    requires
        old(model).tx.wf(),
    ensures
        *final(final(model).tx) == *final(old(model).tx),
        final(model).tx.wf(),
        (result, final(model).tx@) == old(model).tx@.store_file(backend_state, content@),
{
    match fail_while_paused_or_disabled(backend_state) {
        Err(e) => { return Err(e); },
        Ok(_) => {},
    }
    if content.len() == 0 {
        return Err(ModelError::EmptyFile);
    }
    model.insert("files".to_owned(), file_object(content))
}

/// Whether `id` names a document of the table of files.
pub fn is_file_id(tx: &Transaction, id: DeveloperDocumentId) -> (is: bool)
    ensures
        is == tx@.is_file_id(id),
{
    match tx.find_table_by_name(&"files".to_owned()) {
        Some(place) => tx.tables[place].number == id.table,
        None => false,
    }
}

/// Deletes a file.
pub fn delete_file(model: &mut UserFacingModel<'_>, id: DeveloperDocumentId) -> (result: Result<
    (),
    ModelError,
>)
    requires
        old(model).tx.wf(),
    ensures
        *final(final(model).tx) == *final(old(model).tx),
        final(model).tx.wf(),
        (result, final(model).tx@) == old(model).tx@.delete_file(id),
{
    if !is_file_id(&*model.tx, id) {
        return Err(ModelError::FileNotFound);
    }
    match model.delete(id) {
        Ok(_) => Ok(()),
        Err(ModelError::DocumentNotFound) => Err(ModelError::FileNotFound),
        Err(e) => Err(e),
    }
}

/// Fetches a file.
pub fn get_file(model: &mut UserFacingModel<'_>, id: DeveloperDocumentId) -> (result: Result<
    DeveloperDocument,
    ModelError,
>)
    ensures
        *final(final(model).tx) == *final(old(model).tx),
        final(model).tx@ == if old(model).tx@.is_file_id(id) {
            old(model).tx@.after_get(id)
        } else {
            old(model).tx@
        },
        document_result_view(result) == old(model).tx@.get_file(id),
{
    if !is_file_id(&*model.tx, id) {
        return Err(ModelError::FileNotFound);
    }
    match model.get(id, None) {
        Ok(Some(document)) => Ok(document),
        Ok(None) => Err(ModelError::FileNotFound),
        Err(e) => Err(e),
    }
}

/// Lists all the files, each with its key and the time of its last write.
pub fn list_files(tx: &Transaction) -> (files: Vec<(u64, DeveloperDocument, WriteTimestamp)>)
    ensures
        developer_rows_view(files@) == tx@.list_files(),
{
    match tx.find_table_by_name(&"files".to_owned()) {
        Some(place) => {
            let tablet_id = tx.tables[place].tablet_id;
            let interval = Interval::all();
            let (rows, _) = tx.range(tablet_id, &interval, Order::Asc, usize::MAX);
            proof {
                tx@.documents.lemma_filter_len(in_scan(tablet_id, interval));
                assert(tx@.documents.len() == tx.documents.len());
            }
            let files = to_developer_rows(rows, None);
            assert(developer_rows_view(files@) =~= tx@.list_files());
            files
        },
        None => {
            let files: Vec<(u64, DeveloperDocument, WriteTimestamp)> = Vec::new();
            assert(developer_rows_view(files@) =~= tx@.list_files());
            files
        },
    }
}

} // verus!
