//! The transaction: the one context through which tables, documents and the
//! component tree are read and written, together with its mathematical model
//! and the rules that every state of it obeys.

use vstd::prelude::*;
use vstd::string::StrSliceExecFns;
use crate::document::{ResolvedDocument, ResolvedDocumentView};
use crate::errors::ModelError;
use crate::metadata::{
    ComponentDefinitionDocument,
    ComponentDefinitionView,
    ComponentDocument,
    ComponentTypeView,
    ComponentView,
};
use crate::search::{
    first_index,
    lemma_first_absent,
    lemma_first_found,
    seq_view,
};
use crate::types::{
    DeveloperDocumentId,
    Identity,
    InternalId,
    ResolvedDocumentId,
    TableNumber,
    TabletId,
    WriteTimestamp,
};

verus! {

/// The size ceiling for user documents that a new transaction starts with.
pub const DEFAULT_USER_SIZE_LIMIT: usize = 1048576;

/// A table of the store: its storage, its number and its name.
#[derive(Debug, PartialEq, Eq)]
pub struct TableEntry {
    pub tablet_id: TabletId,
    pub number: TableNumber,
    pub name: String,
}

/// What a [`TableEntry`] holds.
pub struct TableView {
    pub tablet_id: TabletId,
    pub number: TableNumber,
    pub name: Seq<char>,
}

impl View for TableEntry {
    type V = TableView;

    open spec fn view(&self) -> TableView {
        TableView { tablet_id: self.tablet_id, number: self.number, name: self.name@ }
    }
}

/// A virtual table: a number and a name of its own, and the number of the
/// table of the store whose documents it shows.
#[derive(Debug, PartialEq, Eq)]
pub struct VirtualTableEntry {
    pub number: TableNumber,
    pub name: String,
    pub backing: TableNumber,
}

/// What a [`VirtualTableEntry`] holds.
pub struct VirtualTableView {
    pub number: TableNumber,
    pub name: Seq<char>,
    pub backing: TableNumber,
}

impl View for VirtualTableEntry {
    type V = VirtualTableView;

    open spec fn view(&self) -> VirtualTableView {
        VirtualTableView { number: self.number, name: self.name@, backing: self.backing }
    }
}

/// A document in the store, with the time it was last written.
#[derive(Debug, PartialEq, Eq)]
pub struct StoredDocument {
    pub document: ResolvedDocument,
    pub ts: WriteTimestamp,
}

/// What a [`StoredDocument`] holds.
pub struct StoredView {
    pub document: ResolvedDocumentView,
    pub ts: WriteTimestamp,
}

impl View for StoredDocument {
    type V = StoredView;

    open spec fn view(&self) -> StoredView {
        StoredView { document: self.document@, ts: self.ts }
    }
}

impl StoredView {
    /// The key under which the index of its table holds the document.
    pub open spec fn key(self) -> InternalId {
        self.document.id.developer_id.internal_id
    }
}

/// One entry of the account of what was read: the table, the size of the
/// document, and whether the table is a virtual one.
#[derive(Debug, PartialEq, Eq)]
pub struct ReadRecord {
    pub table_name: String,
    pub size: usize,
    pub is_virtual: bool,
}

/// What a [`ReadRecord`] holds.
pub struct ReadView {
    pub table_name: Seq<char>,
    pub size: usize,
    pub is_virtual: bool,
}

impl View for ReadRecord {
    type V = ReadView;

    open spec fn view(&self) -> ReadView {
        ReadView { table_name: self.table_name@, size: self.size, is_virtual: self.is_virtual }
    }
}

/// The unit of work. It is owned by one caller at a time, and every read and
/// write of the model goes through it.
#[derive(Debug)]
pub struct Transaction {
    pub identity: Identity,
    pub tables: Vec<TableEntry>,
    pub virtual_tables: Vec<VirtualTableEntry>,
    pub documents: Vec<StoredDocument>,
    pub components: Vec<ComponentDocument>,
    pub definitions: Vec<ComponentDefinitionDocument>,
    pub reads: Vec<ReadRecord>,
    pub next_id: InternalId,
    pub next_tablet_id: TabletId,
    pub next_table_number: TableNumber,
    pub next_creation_time: u64,
    pub falling_behind: bool,
    pub user_size_limit: usize,
}

/// What a [`Transaction`] holds.
pub struct TransactionView {
    pub identity: Identity,
    pub tables: Seq<TableView>,
    pub virtual_tables: Seq<VirtualTableView>,
    pub documents: Seq<StoredView>,
    pub components: Seq<ComponentView>,
    pub definitions: Seq<ComponentDefinitionView>,
    pub reads: Seq<ReadView>,
    pub next_id: InternalId,
    pub next_tablet_id: TabletId,
    pub next_table_number: TableNumber,
    pub next_creation_time: u64,
    pub falling_behind: bool,
    pub user_size_limit: usize,
}

impl View for Transaction {
    type V = TransactionView;

    open spec fn view(&self) -> TransactionView {
        TransactionView {
            identity: self.identity,
            tables: seq_view(self.tables@),
            virtual_tables: seq_view(self.virtual_tables@),
            documents: seq_view(self.documents@),
            components: seq_view(self.components@),
            definitions: seq_view(self.definitions@),
            reads: seq_view(self.reads@),
            next_id: self.next_id,
            next_tablet_id: self.next_tablet_id,
            next_table_number: self.next_table_number,
            next_creation_time: self.next_creation_time,
            falling_behind: self.falling_behind,
            user_size_limit: self.user_size_limit,
        }
    }
}

/// Whether a table name is kept for the system: it begins with an underscore.
pub open spec fn spec_is_system_name(name: Seq<char>) -> bool {
    name.len() > 0 && name[0] == '_'
}

/// Whether the documents stand in the order of their identifiers, each
/// identifier at least 1 and below `next_id`. No identifier occurs twice.
pub open spec fn documents_ordered(documents: Seq<StoredView>, next_id: InternalId) -> bool {
    &&& forall|i: int| 0 <= i < documents.len() ==> 1 <= (#[trigger] documents[i]).key() < next_id
    &&& forall|i: int, j: int|
        0 <= i < j < documents.len() ==> (#[trigger] documents[i]).key() < (
        #[trigger] documents[j]).key()
}

/// Whether the numbers that the tables use lie below the counters from which
/// new ones are taken, and no number names two tables.
pub open spec fn tables_numbered(
    tables: Seq<TableView>,
    virtual_tables: Seq<VirtualTableView>,
    next_tablet_id: TabletId,
    next_table_number: TableNumber,
) -> bool {
    &&& forall|i: int|
        0 <= i < tables.len() ==> (#[trigger] tables[i]).tablet_id < next_tablet_id && tables[i].number
            < next_table_number
    &&& forall|i: int|
        0 <= i < virtual_tables.len() ==> (#[trigger] virtual_tables[i]).number < next_table_number
    &&& forall|i: int, j: int|
        0 <= i < j < tables.len() ==> (#[trigger] tables[i]).number != (#[trigger] tables[j]).number
    &&& forall|i: int, j: int|
        0 <= i < virtual_tables.len() && 0 <= j < tables.len() ==> (
        #[trigger] virtual_tables[i]).number != (#[trigger] tables[j]).number
}

/// Whether the component records form a tree: they stand in the order of
/// their identifiers, the parent of each child stands before the child, no
/// two children of one parent share a name, and at most one record is a root.
#[verifier::opaque]
pub open spec fn components_form_tree(components: Seq<ComponentView>, next_id: InternalId) -> bool {
    &&& forall|i: int| 0 <= i < components.len() ==> (#[trigger] components[i]).id < next_id
    &&& forall|i: int, j: int|
        0 <= i < j < components.len() ==> (#[trigger] components[i]).id < (
        #[trigger] components[j]).id
    &&& forall|i: int|
        0 <= i < components.len() ==> match (#[trigger] components[i]).metadata.component_type {
            ComponentTypeView::App => true,
            ComponentTypeView::ChildComponent { parent, .. } => exists|j: int|
                0 <= j < i && (#[trigger] components[j]).id == parent,
        }
    &&& forall|i: int, j: int|
        0 <= i < j < components.len() ==> !same_place(#[trigger] components[i], #[trigger] components[j])
}

/// Whether two component records claim the same place in the tree: both are
/// roots, or both are children of one parent under one name.
pub open spec fn same_place(a: ComponentView, b: ComponentView) -> bool {
    match a.metadata.component_type {
        ComponentTypeView::App => b.is_root(),
        ComponentTypeView::ChildComponent { parent, name, .. } => b.is_child_of(parent, name),
    }
}

impl TransactionView {
    /// The rules that every state of a transaction obeys.
    pub open spec fn wf(self) -> bool {
        &&& 1 <= self.next_id
        &&& documents_ordered(self.documents, self.next_id)
        &&& tables_numbered(
            self.tables,
            self.virtual_tables,
            self.next_tablet_id,
            self.next_table_number,
        )
        &&& components_form_tree(self.components, self.next_id)
        &&& forall|i: int|
            0 <= i < self.definitions.len() ==> (#[trigger] self.definitions[i]).id < self.next_id
    }

    /// The place of the table of that number.
    pub open spec fn table_by_number(self, number: TableNumber) -> Option<int> {
        first_index(self.tables, |t: TableView| t.number == number)
    }

    /// The place of the table of that name.
    pub open spec fn table_by_name(self, name: Seq<char>) -> Option<int> {
        first_index(self.tables, |t: TableView| t.name == name)
    }

    /// The place of the table with that storage.
    pub open spec fn table_by_tablet(self, tablet_id: TabletId) -> Option<int> {
        first_index(self.tables, |t: TableView| t.tablet_id == tablet_id)
    }

    /// The place of the virtual table of that number.
    pub open spec fn virtual_by_number(self, number: TableNumber) -> Option<int> {
        first_index(self.virtual_tables, |t: VirtualTableView| t.number == number)
    }

    /// The place of the virtual table of that name.
    pub open spec fn virtual_by_name(self, name: Seq<char>) -> Option<int> {
        first_index(self.virtual_tables, |t: VirtualTableView| t.name == name)
    }

    /// The place of the document with that identifier.
    pub open spec fn document_index(self, id: ResolvedDocumentId) -> Option<int> {
        first_index(self.documents, |d: StoredView| d.document.id == id)
    }

    /// The document with that identifier, as the store holds it.
    pub open spec fn stored(self, id: ResolvedDocumentId) -> Option<StoredView> {
        match self.document_index(id) {
            Some(i) => Some(self.documents[i]),
            None => None,
        }
    }

    /// Whether the number is that of a table with a system name.
    pub open spec fn is_system(self, number: TableNumber) -> bool {
        match self.table_by_number(number) {
            Some(i) => spec_is_system_name(self.tables[i].name),
            None => false,
        }
    }

    /// The identifier under which the store holds the document that callers
    /// know as `id`: none where no table has the number.
    pub open spec fn resolve(self, id: DeveloperDocumentId) -> Option<ResolvedDocumentId> {
        match self.table_by_number(id.table) {
            Some(i) => Some(
                ResolvedDocumentId { tablet_id: self.tables[i].tablet_id, developer_id: id },
            ),
            None => None,
        }
    }
}

/// Whether a table name is kept for the system.
pub fn is_system_name(name: &String) -> (system: bool)
    ensures
        system == spec_is_system_name(name@),
{
    let text = name.as_str();
    if text.unicode_len() == 0 {
        false
    } else {
        text.get_char(0) == '_'
    }
}

impl Transaction {
    /// The rules that every state of a transaction obeys.
    pub open spec fn wf(&self) -> bool {
        self@.wf()
    }

    /// A transaction for that identity over an empty store.
    pub fn new(identity: Identity) -> (tx: Transaction)
        ensures
            tx.wf(),
            tx@.identity == identity,
            tx@.tables.len() == 0,
            tx@.virtual_tables.len() == 0,
            tx@.documents.len() == 0,
            tx@.components.len() == 0,
            tx@.definitions.len() == 0,
            tx@.reads.len() == 0,
            tx@.next_id == 1,
            tx@.next_tablet_id == 1,
            tx@.next_table_number == 1,
            tx@.next_creation_time == 0,
            !tx@.falling_behind,
            tx@.user_size_limit == DEFAULT_USER_SIZE_LIMIT,
    {
        reveal(components_form_tree);
        Transaction {
            identity,
            tables: Vec::new(),
            virtual_tables: Vec::new(),
            documents: Vec::new(),
            components: Vec::new(),
            definitions: Vec::new(),
            reads: Vec::new(),
            next_id: 1,
            next_tablet_id: 1,
            next_table_number: 1,
            next_creation_time: 0,
            falling_behind: false,
            user_size_limit: DEFAULT_USER_SIZE_LIMIT,
        }
    }

    /// The identity that the transaction acts for.
    pub fn identity(&self) -> (identity: Identity)
        ensures
            identity == self@.identity,
    {
        self.identity
    }

    /// Sets the size ceiling for user documents.
    pub fn set_user_size_limit(&mut self, limit: usize)
        ensures
            final(self)@ == (TransactionView { user_size_limit: limit, ..old(self)@ }),
    {
        self.user_size_limit = limit;
    }

    /// Says whether the collection of old data is falling behind.
    pub fn set_falling_behind(&mut self, falling_behind: bool)
        ensures
            final(self)@ == (TransactionView { falling_behind, ..old(self)@ }),
    {
        self.falling_behind = falling_behind;
    }

    /// Fails while the collection of old data is falling behind.
    pub fn fail_if_falling_behind(&self) -> (result: Result<(), ModelError>)
        ensures
            result == if self@.falling_behind {
                Err::<(), ModelError>(ModelError::RetentionFallingBehind)
            } else {
                Ok::<(), ModelError>(())
            },
    {
        if self.falling_behind {
            Err(ModelError::RetentionFallingBehind)
        } else {
            Ok(())
        }
    }

    /// The place of the table of that number.
    pub fn find_table_by_number(&self, number: TableNumber) -> (found: Option<usize>)
        ensures
            match found {
                Some(i) => self@.table_by_number(number) == Some(i as int) && i < self.tables.len(),
                None => self@.table_by_number(number) is None,
            },
    {
        let ghost p = |t: TableView| t.number == number;
        let mut i: usize = 0;
        while i < self.tables.len()
            invariant
                i <= self.tables.len(),
                p == |t: TableView| t.number == number,
                forall|j: int| 0 <= j < i ==> !p(#[trigger] self@.tables[j]),
            decreases self.tables.len() - i,
        {
            if self.tables[i].number == number {
                proof {
                    assert(p(self@.tables[i as int]));
                    lemma_first_found(self@.tables, p, i as int);
                }
                return Some(i);
            }
            assert(!p(self@.tables[i as int]));
            i = i + 1;
        }
        proof {
            lemma_first_absent(self@.tables, p);
        }
        None
    }

    /// The place of the table of that name.
    pub fn find_table_by_name(&self, name: &String) -> (found: Option<usize>)
        ensures
            match found {
                Some(i) => self@.table_by_name(name@) == Some(i as int) && i < self.tables.len(),
                None => self@.table_by_name(name@) is None,
            },
    {
        let ghost p = |t: TableView| t.name == name@;
        let mut i: usize = 0;
        while i < self.tables.len()
            invariant
                i <= self.tables.len(),
                p == |t: TableView| t.name == name@,
                forall|j: int| 0 <= j < i ==> !p(#[trigger] self@.tables[j]),
            decreases self.tables.len() - i,
        {
            if self.tables[i].name == *name {
                proof {
                    assert(p(self@.tables[i as int]));
                    lemma_first_found(self@.tables, p, i as int);
                }
                return Some(i);
            }
            assert(!p(self@.tables[i as int]));
            i = i + 1;
        }
        proof {
            lemma_first_absent(self@.tables, p);
        }
        None
    }

    /// The place of the table with that storage.
    pub fn find_table_by_tablet(&self, tablet_id: TabletId) -> (found: Option<usize>)
        ensures
            match found {
                Some(i) => self@.table_by_tablet(tablet_id) == Some(i as int) && i
                    < self.tables.len(),
                None => self@.table_by_tablet(tablet_id) is None,
            },
    {
        let ghost p = |t: TableView| t.tablet_id == tablet_id;
        let mut i: usize = 0;
        while i < self.tables.len()
            invariant
                i <= self.tables.len(),
                p == |t: TableView| t.tablet_id == tablet_id,
                forall|j: int| 0 <= j < i ==> !p(#[trigger] self@.tables[j]),
            decreases self.tables.len() - i,
        {
            if self.tables[i].tablet_id == tablet_id {
                proof {
                    assert(p(self@.tables[i as int]));
                    lemma_first_found(self@.tables, p, i as int);
                }
                return Some(i);
            }
            assert(!p(self@.tables[i as int]));
            i = i + 1;
        }
        proof {
            lemma_first_absent(self@.tables, p);
        }
        None
    }

    /// The place of the virtual table of that number.
    pub fn find_virtual_by_number(&self, number: TableNumber) -> (found: Option<usize>)
        ensures
            match found {
                Some(i) => self@.virtual_by_number(number) == Some(i as int) && i
                    < self.virtual_tables.len(),
                None => self@.virtual_by_number(number) is None,
            },
    {
        let ghost p = |t: VirtualTableView| t.number == number;
        let mut i: usize = 0;
        while i < self.virtual_tables.len()
            invariant
                i <= self.virtual_tables.len(),
                p == |t: VirtualTableView| t.number == number,
                forall|j: int| 0 <= j < i ==> !p(#[trigger] self@.virtual_tables[j]),
            decreases self.virtual_tables.len() - i,
        {
            if self.virtual_tables[i].number == number {
                proof {
                    assert(p(self@.virtual_tables[i as int]));
                    lemma_first_found(self@.virtual_tables, p, i as int);
                }
                return Some(i);
            }
            assert(!p(self@.virtual_tables[i as int]));
            i = i + 1;
        }
        proof {
            lemma_first_absent(self@.virtual_tables, p);
        }
        None
    }

    /// The place of the virtual table of that name.
    pub fn find_virtual_by_name(&self, name: &String) -> (found: Option<usize>)
        ensures
            match found {
                Some(i) => self@.virtual_by_name(name@) == Some(i as int) && i
                    < self.virtual_tables.len(),
                None => self@.virtual_by_name(name@) is None,
            },
    {
        let ghost p = |t: VirtualTableView| t.name == name@;
        let mut i: usize = 0;
        while i < self.virtual_tables.len()
            invariant
                i <= self.virtual_tables.len(),
                p == |t: VirtualTableView| t.name == name@,
                forall|j: int| 0 <= j < i ==> !p(#[trigger] self@.virtual_tables[j]),
            decreases self.virtual_tables.len() - i,
        {
            if self.virtual_tables[i].name == *name {
                proof {
                    assert(p(self@.virtual_tables[i as int]));
                    lemma_first_found(self@.virtual_tables, p, i as int);
                }
                return Some(i);
            }
            assert(!p(self@.virtual_tables[i as int]));
            i = i + 1;
        }
        proof {
            lemma_first_absent(self@.virtual_tables, p);
        }
        None
    }

    /// The place of the document with that identifier.
    pub fn find_document(&self, id: ResolvedDocumentId) -> (found: Option<usize>)
        ensures
            match found {
                Some(i) => self@.document_index(id) == Some(i as int) && i < self.documents.len(),
                None => self@.document_index(id) is None,
            },
    {
        let ghost p = |d: StoredView| d.document.id == id;
        let mut i: usize = 0;
        while i < self.documents.len()
            invariant
                i <= self.documents.len(),
                p == |d: StoredView| d.document.id == id,
                forall|j: int| 0 <= j < i ==> !p(#[trigger] self@.documents[j]),
            decreases self.documents.len() - i,
        {
            if self.documents[i].document.id == id {
                proof {
                    assert(p(self@.documents[i as int]));
                    lemma_first_found(self@.documents, p, i as int);
                }
                return Some(i);
            }
            assert(!p(self@.documents[i as int]));
            i = i + 1;
        }
        proof {
            lemma_first_absent(self@.documents, p);
        }
        None
    }

    /// Whether the number is that of a table with a system name.
    pub fn is_system(&self, number: TableNumber) -> (system: bool)
        ensures
            system == self@.is_system(number),
    {
        match self.find_table_by_number(number) {
            Some(i) => is_system_name(&self.tables[i].name),
            None => false,
        }
    }

    /// Whether the name is that of a virtual table.
    pub fn is_virtual_table(&self, name: &String) -> (is: bool)
        ensures
            is == self@.virtual_by_name(name@).is_some(),
    {
        self.find_virtual_by_name(name).is_some()
    }

    /// The identifier under which the store holds the document that callers
    /// know as `id`.
    pub fn resolve(&self, id: DeveloperDocumentId) -> (resolved: Option<ResolvedDocumentId>)
        ensures
            resolved == self@.resolve(id),
    {
        match self.find_table_by_number(id.table) {
            Some(i) => Some(
                ResolvedDocumentId { tablet_id: self.tables[i].tablet_id, developer_id: id },
            ),
            None => None,
        }
    }
}

} // verus!
