//! What holds of the model in every state: laws that relate the operations
//! to each other, each proved from the definitions of the operations.

use vstd::prelude::*;
use crate::components::{lemma_path_of_root, lemma_path_step};
use crate::errors::{ErrorKind, ModelError};
use crate::metadata::{ComponentMetadataView, ComponentTypeView, ComponentView};
use crate::search::{lemma_first_absent, lemma_first_found, lemma_first_index, lemma_first_push};
use crate::transaction::{
    components_form_tree,
    same_place,
    spec_is_system_name,
    StoredView,
    TableView,
    TransactionView,
    VirtualTableView,
};
use crate::tree::lemma_place_in_tree;
use crate::types::{
    BatchKey,
    ComponentId,
    CursorPosition,
    DeveloperDocumentId,
    InternalId,
    Interval,
    Order,
    StableIndexNameView,
    Version,
    WriteTimestamp,
};
use crate::user_facing::{BatchRequests, MAX_PAGE_SIZE};
use crate::value::FieldView;
use crate::virtual_tables::RowView;

verus! {

/// The path of a record leads back to the record: a walk from the root down
/// the names of the path ends at the place of the record.
pub proof fn law_path_round_trip(view: TransactionView, place: int)
    requires
        view.wf(),
        0 <= place < view.components.len(),
    ensures
        view.resolve_path(view.path_of(place)) == Some(place),
    decreases place,
{
    lemma_place_in_tree(view, place);
    match view.components[place].metadata.component_type {
        ComponentTypeView::App => {
            lemma_path_of_root(view, place);
        },
        ComponentTypeView::ChildComponent { parent, name, .. } => {
            lemma_path_step(view, place);
            let above = view.component_place(parent).unwrap();
            law_path_round_trip(view, above);
            lemma_first_index(view.components, |c: ComponentView| c.id == parent);
            let root = view.root_place().unwrap();
            let path = view.path_of(above).push(name);
            assert(path.drop_last() =~= view.path_of(above));
            assert(path.last() == name);
            assert(view.walk(root, path) == view.child_place(view.components[above].id, name));
        },
    }
}

/// For every live component, the path that is computed for it resolves to
/// the component itself.
pub proof fn law_component_path_resolves(view: TransactionView, id: InternalId)
    requires
        view.wf(),
        view.component_place(id) is Some,
    ensures
        view.component_path(ComponentId::Child(id)) matches Ok(path) && view.resolve_path(path)
            == view.component_place(id),
{
    lemma_first_index(view.components, |c: ComponentView| c.id == id);
    law_path_round_trip(view, view.component_place(id).unwrap());
}

/// At most one component lies under a parent and a name, and at most one is
/// the root: two records at the same place in the tree are one record.
pub proof fn law_one_component_per_place(view: TransactionView, i: int, j: int)
    requires
        view.wf(),
        0 <= i < view.components.len(),
        0 <= j < view.components.len(),
        same_place(view.components[i], view.components[j]),
    ensures
        i == j,
{
    reveal(components_form_tree);
    if i < j {
        assert(!same_place(view.components[i], view.components[j]));
    } else if j < i {
        assert(!same_place(view.components[j], view.components[i]));
    }
}

/// Once a component record was inserted, a second record for the same place
/// in the tree is refused.
pub proof fn law_second_component_refused(
    view: TransactionView,
    first: ComponentMetadataView,
    second: ComponentMetadataView,
)
    requires
        view.wf(),
        view.insert_component(first).0 is Ok,
        same_place(
            ComponentView { id: 0, metadata: first },
            ComponentView { id: 0, metadata: second },
        ),
    ensures
        view.insert_component(first).1.insert_component(second).0 == Err::<
            InternalId,
            ModelError,
        >(ModelError::DuplicateComponent),
{
    let record = ComponentView { id: view.next_id, metadata: first };
    let after = view.insert_component(first).1;
    assert(after.components == view.components.push(record));
    match first.component_type {
        ComponentTypeView::App => {
            lemma_first_push(view.components, |c: ComponentView| c.is_root(), record);
        },
        ComponentTypeView::ChildComponent { parent, name, .. } => {
            lemma_first_push(
                view.components,
                |c: ComponentView| c.is_child_of(parent, name),
                record,
            );
        },
    }
}

/// A batch gives one answer for each of its keys, and for no other key,
/// whatever the single answers are.
pub proof fn law_batch_has_every_key(view: TransactionView, ids: BatchRequests)
    ensures
        view.get_batch(ids).dom() == ids.dom(),
        ids.dom().finite() ==> view.get_batch(ids).dom().len() == ids.dom().len(),
{
    assert(view.get_batch(ids).dom() =~= ids.dom());
}

/// What a batch gives under a key is what a fetch of that identifier alone
/// gives on the same state, and what a batch of that one request gives.
pub proof fn law_batch_matches_single(view: TransactionView, ids: BatchRequests, key: BatchKey)
    requires
        ids.contains_key(key),
    ensures
        view.get_batch(ids)[key] == view.get(ids[key].0),
        view.get_batch(ids)[key] == view.get_batch(
            Map::<BatchKey, (DeveloperDocumentId, Option<Version>)>::empty().insert(0, ids[key]),
        )[0],
{
}

/// What a fetch gives does not depend on what was read before: the account
/// of reads does not enter into it.
pub proof fn law_get_ignores_reads(view: TransactionView, id: DeveloperDocumentId)
    ensures
        view.after_get(id).get(id) == view.get(id),
{
}

/// The insert of a value over the size ceiling fails with a bad request.
pub proof fn law_oversized_insert_refused(
    view: TransactionView,
    table: Seq<char>,
    value: Seq<FieldView>,
)
    requires
        view.over_user_size(value),
    ensures
        view.insert(table, value).0 matches Err(e) && e.spec_kind() == ErrorKind::BadRequest,
        view.virtual_by_name(table) is None ==> view.insert(table, value).0 == Err::<
            DeveloperDocumentId,
            ModelError,
        >(ModelError::DocumentTooLarge),
        view.insert(table, value).1 == view,
{
}

/// The insert of a value at or under the size ceiling succeeds, where the
/// table is no virtual table and has no system name, the store admits writes
/// and the counters are not used up.
pub proof fn law_insert_succeeds(view: TransactionView, table: Seq<char>, value: Seq<FieldView>)
    requires
        !view.over_user_size(value),
        view.virtual_by_name(table) is None,
        !spec_is_system_name(table),
        !view.falling_behind,
        view.next_id < u64::MAX,
        view.next_creation_time < u64::MAX,
        view.has_table_numbers(),
    ensures
        view.insert(table, value).0 matches Ok(id) && id.internal_id == view.next_id,
{
}

/// An insert into a virtual table fails: the table is for reading only.
pub proof fn law_insert_into_virtual_table(
    view: TransactionView,
    table: Seq<char>,
    value: Seq<FieldView>,
)
    requires
        view.virtual_by_name(table) is Some,
    ensures
        view.insert(table, value) == (
            Err::<DeveloperDocumentId, ModelError>(ModelError::ReadOnlyTable),
            view,
        ),
{
}

/// An insert into a table with a system name fails with an invalid name,
/// where no earlier check refuses the insert: the table is no virtual table,
/// the value is not over the size ceiling, the store admits writes and the
/// counters are not used up.
pub proof fn law_insert_under_system_name(
    view: TransactionView,
    table: Seq<char>,
    value: Seq<FieldView>,
)
    requires
        spec_is_system_name(table),
        view.virtual_by_name(table) is None,
        !view.over_user_size(value),
        !view.falling_behind,
        view.next_id < u64::MAX,
        view.next_creation_time < u64::MAX,
    ensures
        view.insert(table, value).0 == Err::<DeveloperDocumentId, ModelError>(
            ModelError::InvalidTableName,
        ),
        view.insert(table, value).1.tables == view.tables,
        view.insert(table, value).1.documents == view.documents,
{
}

/// In a valid state no two documents have the same identifier.
pub proof fn lemma_document_unique(view: TransactionView, i: int, j: int)
    requires
        view.wf(),
        0 <= i < view.documents.len(),
        0 <= j < view.documents.len(),
        view.documents[i].document.id == view.documents[j].document.id,
    ensures
        i == j,
{
    if i < j {
        assert(view.documents[i].key() < view.documents[j].key());
    } else if j < i {
        assert(view.documents[j].key() < view.documents[i].key());
    }
}

/// A document that was deleted cannot be deleted again: the first deletion
/// succeeds, and the second fails with not found.
pub proof fn law_delete_twice(view: TransactionView, id: DeveloperDocumentId)
    requires
        view.wf(),
        view.delete(id).0 is Ok,
    ensures
        view.delete(id).1.delete(id) == (
            Err::<crate::document::DeveloperDocumentView, ModelError>(ModelError::DocumentNotFound),
            view.delete(id).1,
        ),
        ModelError::DocumentNotFound.spec_kind() == ErrorKind::NotFound,
{
    let resolved = view.resolve(id).unwrap();
    let place = view.document_index(resolved).unwrap();
    let after = view.delete(id).1;
    let p = |d: StoredView| d.document.id == resolved;
    lemma_first_index(view.documents, p);
    assert(after.documents == view.documents.remove(place));
    assert forall|j: int| 0 <= j < after.documents.len() implies !p(
        #[trigger] after.documents[j],
    ) by {
        if j < place {
            assert(after.documents[j] == view.documents[j]);
            if p(view.documents[j]) {
                lemma_document_unique(view, j, place);
            }
        } else {
            assert(after.documents[j] == view.documents[j + 1]);
            if p(view.documents[j + 1]) {
                lemma_document_unique(view, j + 1, place);
            }
        }
    }
    lemma_first_absent(after.documents, p);
}

/// A fetch after a deletion finds nothing.
pub proof fn law_get_after_delete(view: TransactionView, id: DeveloperDocumentId)
    requires
        view.wf(),
        view.delete(id).0 is Ok,
        view.virtual_by_number(id.table) is None,
    ensures
        view.delete(id).1.get(id) == Ok::<
            Option<(crate::document::DeveloperDocumentView, WriteTimestamp)>,
            ModelError,
        >(None),
{
    law_delete_twice(view, id);
}

/// A change to a document of a system table by an identity that is neither
/// an administrator nor the system fails as unauthorized, and changes
/// nothing, whichever change it is.
pub proof fn law_system_tables_are_guarded(
    view: TransactionView,
    id: DeveloperDocumentId,
    value: Seq<FieldView>,
)
    requires
        view.is_system(id.table),
        !view.identity.spec_is_privileged(),
    ensures
        view.patch(id, value) == (
            Err::<crate::document::DeveloperDocumentView, ModelError>(ModelError::Unauthorized),
            view,
        ),
        view.replace(id, value) == (
            Err::<crate::document::DeveloperDocumentView, ModelError>(ModelError::Unauthorized),
            view,
        ),
        view.delete(id) == (
            Err::<crate::document::DeveloperDocumentView, ModelError>(ModelError::Unauthorized),
            view,
        ),
        ModelError::Unauthorized.spec_kind() == ErrorKind::Unauthorized,
{
}

/// An administrator and the system can change a document of a system table:
/// where the document exists and the store admits writes, each change
/// succeeds, whatever the size of the document.
pub proof fn law_privileged_change_succeeds(
    view: TransactionView,
    id: DeveloperDocumentId,
    value: Seq<FieldView>,
)
    requires
        view.is_system(id.table),
        view.identity.spec_is_privileged(),
        !view.falling_behind,
        view.resolve(id) matches Some(resolved) && view.document_index(resolved) is Some,
    ensures
        view.patch(id, value).0 is Ok,
        view.replace(id, value).0 is Ok,
        view.delete(id).0 is Ok,
{
}

/// A scan over an empty interval gives an empty page and the cursor at the
/// end, whatever index it names.
pub proof fn law_empty_interval(
    view: TransactionView,
    index: StableIndexNameView,
    interval: Interval,
    order: Order,
    max_rows: usize,
)
    requires
        interval.spec_is_empty(),
    ensures
        view.index_range(index, interval, order, max_rows) == Ok::<
            (Seq<RowView>, CursorPosition),
            ModelError,
        >((Seq::empty(), CursorPosition::End)),
{
}

/// A page never holds more rows than were asked for, nor more than the
/// largest page, whatever the caller asks for.
pub proof fn law_page_is_capped(
    view: TransactionView,
    index: StableIndexNameView,
    interval: Interval,
    order: Order,
    max_rows: usize,
)
    ensures
        view.index_range(index, interval, order, max_rows) matches Ok(page) ==> page.0.len()
            <= max_rows && page.0.len() <= MAX_PAGE_SIZE,
{
}

/// In a valid state, the table at a place is the one that its number finds,
/// and no virtual table has that number.
pub proof fn lemma_table_by_number(view: TransactionView, place: int)
    requires
        view.wf(),
        0 <= place < view.tables.len(),
    ensures
        view.table_by_number(view.tables[place].number) == Some(place),
        view.virtual_by_number(view.tables[place].number) is None,
{
    let number = view.tables[place].number;
    let p = |t: TableView| t.number == number;
    assert forall|j: int| 0 <= j < place implies !p(#[trigger] view.tables[j]) by {
        assert(view.tables[j].number != view.tables[place].number);
    }
    assert(p(view.tables[place]));
    lemma_first_found(view.tables, p, place);
    let q = |t: VirtualTableView| t.number == number;
    assert forall|j: int| 0 <= j < view.virtual_tables.len() implies !q(
        #[trigger] view.virtual_tables[j],
    ) by {
        assert(view.virtual_tables[j].number != view.tables[place].number);
    }
    lemma_first_absent(view.virtual_tables, q);
}

/// A document that was inserted is found under the identifier that the
/// insert gave, with the value that was inserted, as written in this
/// transaction.
pub proof fn law_insert_then_get(view: TransactionView, table: Seq<char>, value: Seq<FieldView>)
    requires
        view.wf(),
        view.insert(table, value).0 is Ok,
    ensures
        view.insert(table, value).1.get(view.insert(table, value).0->Ok_0) matches Ok(
            Some((document, ts)),
        ) && document.value == value && document.id == view.insert(table, value).0->Ok_0 && ts
            == WriteTimestamp::Pending,
{
    reveal(components_form_tree);
    let id = view.insert(table, value).0->Ok_0;
    let after = view.insert(table, value).1;
    let started = view.with_id_taken().with_time_taken();
    let recorded = started.with_table(table);
    let by_name = |t: TableView| t.name == table;
    if started.table_by_name(table) is None {
        lemma_first_push(started.tables, by_name, started.new_table(table));
    }
    lemma_first_index(recorded.tables, by_name);
    let place = recorded.table_by_name(table).unwrap();
    let document = recorded.new_document(place, view.next_id, view.next_creation_time, value);
    assert(after == recorded.with_document(document));
    assert(recorded.wf()) by {
        if started.table_by_name(table) is None {
            let fresh = started.new_table(table);
            assert forall|i: int, j: int| 0 <= i < j < recorded.tables.len() implies (
            #[trigger] recorded.tables[i]).number != (#[trigger] recorded.tables[j]).number by {
                assert(recorded.tables[i] == started.tables[i]);
                if j < started.tables.len() {
                    assert(recorded.tables[j] == started.tables[j]);
                }
            }
            assert forall|i: int|
                0 <= i < recorded.tables.len() implies (#[trigger] recorded.tables[i]).tablet_id
                < recorded.next_tablet_id && recorded.tables[i].number
                < recorded.next_table_number by {
                if i < started.tables.len() {
                    assert(recorded.tables[i] == started.tables[i]);
                }
            }
            assert forall|i: int, j: int|
                0 <= i < recorded.virtual_tables.len() && 0 <= j
                    < recorded.tables.len() implies (#[trigger] recorded.virtual_tables[i]).number
                != (#[trigger] recorded.tables[j]).number by {
                if j < started.tables.len() {
                    assert(recorded.tables[j] == started.tables[j]);
                }
            }
        }
    }
    assert(after.tables == recorded.tables);
    assert(after.virtual_tables == recorded.virtual_tables);
    lemma_table_by_number(recorded, place);
    assert(after.table_by_number(id.table) == Some(place));
    assert(after.virtual_by_number(id.table) is None);
    let resolved = document.id;
    let stored = StoredView { document, ts: WriteTimestamp::Pending };
    let p = |d: StoredView| d.document.id == resolved;
    assert forall|j: int| 0 <= j < recorded.documents.len() implies !p(
        #[trigger] recorded.documents[j],
    ) by {
        assert(recorded.documents[j].key() < view.next_id);
    }
    lemma_first_absent(recorded.documents, p);
    lemma_first_push(recorded.documents, p, stored);
    assert(after.documents == recorded.documents.push(stored));
    assert(after.document_index(resolved) == Some(recorded.documents.len() as int));
}

} // verus!
