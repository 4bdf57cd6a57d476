//! Virtual tables: tables that show the documents of a table of the store
//! under a number and a name of their own, for reading only.

use vstd::prelude::*;
use crate::document::{DeveloperDocument, DeveloperDocumentView, ResolvedDocument};
use crate::errors::ModelError;
use crate::scan::rows_view;
use crate::transaction::{StoredView, Transaction, TransactionView};
use crate::types::{
    CursorPosition,
    DeveloperDocumentId,
    IndexKey,
    Interval,
    Order,
    ResolvedDocumentId,
    TableNumber,
    TabletId,
    Version,
    WriteTimestamp,
};

verus! {

/// What a fetch gives: the document and the time of its last write, nothing
/// where there is no such document, or an error.
pub type GetResultView = Result<Option<(DeveloperDocumentView, WriteTimestamp)>, ModelError>;

/// The rows of a page as callers see them.
pub type RowView = (IndexKey, DeveloperDocumentView, WriteTimestamp);

/// The row that callers see of a document of the store.
pub open spec fn developer_row(stored: StoredView) -> RowView {
    (stored.key(), stored.document.to_developer(), stored.ts)
}

/// The row that callers see of a document of the store through the virtual
/// table of that number.
pub open spec fn virtual_row(stored: StoredView, table: TableNumber) -> RowView {
    (stored.key(), stored.document.to_virtual(table), stored.ts)
}

/// The models of the rows of a page.
pub open spec fn developer_rows_view(
    rows: Seq<(IndexKey, DeveloperDocument, WriteTimestamp)>,
) -> Seq<RowView> {
    Seq::new(rows.len(), |i: int| (rows[i].0, rows[i].1@, rows[i].2))
}

impl TransactionView {
    /// The identifier in the store of the document that the virtual table at
    /// place `entry` shows as `id`: none where the backing table is missing.
    pub open spec fn backing_id(self, entry: int, id: DeveloperDocumentId) -> Option<
        ResolvedDocumentId,
    > {
        self.resolve(
            DeveloperDocumentId {
                table: self.virtual_tables[entry].backing,
                internal_id: id.internal_id,
            },
        )
    }

    /// What a fetch through a virtual table gives: the document of the
    /// backing table with the same internal identifier, under the number of
    /// the virtual table. It is an error where no virtual table has the
    /// number, or the backing table is missing.
    pub open spec fn virtual_get(self, id: DeveloperDocumentId) -> GetResultView {
        match self.virtual_by_number(id.table) {
            None => Err(ModelError::VirtualTableNotFound),
            Some(entry) => match self.backing_id(entry, id) {
                None => Err(ModelError::BackingTableMissing),
                Some(resolved) => match self.stored(resolved) {
                    Some(stored) => Ok(Some((stored.document.to_virtual(id.table), stored.ts))),
                    None => Ok(None),
                },
            },
        }
    }

    /// What a scan through a virtual table gives: the page of the backing
    /// index, each row under the number of the virtual table.
    pub open spec fn virtual_index_range(
        self,
        table_name: Seq<char>,
        tablet_id: TabletId,
        interval: Interval,
        order: Order,
        max_size: usize,
    ) -> Result<(Seq<RowView>, CursorPosition), ModelError> {
        match self.virtual_by_name(table_name) {
            None => Err(ModelError::VirtualTableNotFound),
            Some(entry) => Ok(
                (
                    self.page(tablet_id, interval, order, max_size).map_values(
                        |stored: StoredView| virtual_row(stored, self.virtual_tables[entry].number),
                    ),
                    self.cursor(tablet_id, interval, order, max_size),
                ),
            ),
        }
    }
}

/// The row that callers see of a document of the store: under the number of
/// its own table, or under that of a virtual table.
pub open spec fn row_as(stored: StoredView, table: Option<TableNumber>) -> RowView {
    match table {
        Some(number) => virtual_row(stored, number),
        None => developer_row(stored),
    }
}

/// Turns the rows of a page of the store into the rows that callers see,
/// each under the key of its document.
pub fn to_developer_rows(
    rows: Vec<(IndexKey, ResolvedDocument, WriteTimestamp)>,
    table: Option<TableNumber>,
) -> (out: Vec<(IndexKey, DeveloperDocument, WriteTimestamp)>)
    ensures
        out.len() == rows.len(),
        forall|k: int|
            0 <= k < out.len() ==> (#[trigger] developer_rows_view(out@)[k]) == row_as(
                rows_view(rows@)[k],
                table,
            ),
{
    let ghost all = rows@;
    let mut out: Vec<(IndexKey, DeveloperDocument, WriteTimestamp)> = Vec::new();
    for row in it: rows
        invariant
            it.seq() == all,
            out.len() == it.index(),
            forall|k: int|
                0 <= k < out.len() ==> (#[trigger] developer_rows_view(out@)[k]) == row_as(
                    rows_view(all)[k],
                    table,
                ),
    {
        let ghost before = out@;
        let ghost at = it.index();
        assert(row == all[at]);
        let key = row.1.id.developer_id.internal_id;
        let document = match table {
            Some(number) => row.1.to_virtual(number),
            None => row.1.to_developer(),
        };
        out.push((key, document, row.2));
        proof {
            assert forall|k: int| 0 <= k < out.len() implies (#[trigger] developer_rows_view(
                out@,
            )[k]) == row_as(rows_view(all)[k], table) by {
                if k < at {
                    assert(out@[k] == before[k]);
                    assert(developer_rows_view(before)[k] == row_as(rows_view(all)[k], table));
                }
            }
        }
    }
    out
}

/// The adapter that answers reads of virtual tables from the store.
pub struct VirtualTable<'a> {
    pub tx: &'a Transaction,
}

impl<'a> VirtualTable<'a> {
    pub fn new(tx: &'a Transaction) -> (adapter: Self)
        ensures
            adapter.tx == tx,
    {
        VirtualTable { tx }
    }

    /// Fetches a document through the virtual table that its identifier
    /// names. The declared client version does not change the answer.
    pub fn get(&self, id: &DeveloperDocumentId, version: Option<Version>) -> (result: Result<
        Option<(DeveloperDocument, WriteTimestamp)>,
        ModelError,
    >)
        ensures
            get_result_view(result) == self.tx@.virtual_get(*id),
    {
        let entry = match self.tx.find_virtual_by_number(id.table) {
            Some(entry) => entry,
            None => { return Err(ModelError::VirtualTableNotFound); },
        };
        let backing = DeveloperDocumentId {
            table: self.tx.virtual_tables[entry].backing,
            internal_id: id.internal_id,
        };
        match self.tx.resolve(backing) {
            None => Err(ModelError::BackingTableMissing),
            Some(resolved) => match self.tx.get_inner(resolved) {
                Some((document, ts)) => Ok(Some((document.to_virtual(id.table), ts))),
                None => Ok(None),
            },
        }
    }

    /// One page of a scan through the virtual table of that name, over the
    /// index of the store that backs it.
    pub fn index_range(
        &self,
        table_name: &String,
        tablet_id: TabletId,
        interval: &Interval,
        order: Order,
        max_size: usize,
        version: Option<Version>,
    ) -> (result: Result<
        (Vec<(IndexKey, DeveloperDocument, WriteTimestamp)>, CursorPosition),
        ModelError,
    >)
        ensures
            page_result_view(result) == self.tx@.virtual_index_range(
                table_name@,
                tablet_id,
                *interval,
                order,
                max_size,
            ),
    {
        let entry = match self.tx.find_virtual_by_name(table_name) {
            Some(entry) => entry,
            None => { return Err(ModelError::VirtualTableNotFound); },
        };
        let number = self.tx.virtual_tables[entry].number;
        let (rows, cursor) = self.tx.range(tablet_id, interval, order, max_size);
        let out = to_developer_rows(rows, Some(number));
        proof {
            assert(developer_rows_view(out@) =~= self.tx@.page(
                tablet_id,
                *interval,
                order,
                max_size,
            ).map_values(|stored: StoredView| virtual_row(stored, number)));
        }
        Ok((out, cursor))
    }
}

/// The model of what a fetch gave.
pub open spec fn get_result_view(
    result: Result<Option<(DeveloperDocument, WriteTimestamp)>, ModelError>,
) -> GetResultView {
    match result {
        Ok(Some((document, ts))) => Ok(Some((document@, ts))),
        Ok(None) => Ok(None),
        Err(e) => Err(e),
    }
}

/// The model of what a scan gave.
pub open spec fn page_result_view(
    result: Result<(Vec<(IndexKey, DeveloperDocument, WriteTimestamp)>, CursorPosition), ModelError>,
) -> Result<(Seq<RowView>, CursorPosition), ModelError> {
    match result {
        Ok((rows, cursor)) => Ok((developer_rows_view(rows@), cursor)),
        Err(e) => Err(e),
    }
}

} // verus!
