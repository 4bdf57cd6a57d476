use std::collections::BTreeMap;

use database::document::DeveloperDocument;
use database::errors::{ErrorKind, ModelError};
use database::transaction::{ReadRecord, Transaction, DEFAULT_USER_SIZE_LIMIT};
use database::types::{
    CursorPosition, DeveloperDocumentId, Identity, IndexName, Interval, IntervalEnd, Order,
    StableIndexName, TabletIndexName, Version, WriteTimestamp,
};
use database::user_facing::{check_user_size, UserFacingModel, MAX_PAGE_SIZE};
use database::value::{ConvexObject, ConvexValue, Field, PatchValue};

fn bytes_object(len: usize) -> ConvexObject {
    ConvexObject {
        fields: vec![Field { name: "data".to_string(), value: ConvexValue::Bytes(vec![42; len]) }],
    }
}

fn text_object(name: &str, text: &str) -> ConvexObject {
    ConvexObject {
        fields: vec![Field {
            name: name.to_string(),
            value: ConvexValue::String(text.to_string()),
        }],
    }
}

/// An object whose size is exactly `size`, which must be at least 9.
fn object_of_size(size: usize) -> ConvexObject {
    // 2 for the object, 4 + 1 for the name "data" and its separator, 2 for the tag.
    bytes_object(size - 9)
}

fn version() -> Option<Version> {
    Some(Version { major: 1, minor: 2, patch: 3 })
}

#[test]
fn sizes_follow_the_formula() {
    assert_eq!(ConvexValue::Null.size(), 1);
    assert_eq!(ConvexValue::Int64(-7).size(), 9);
    assert_eq!(ConvexValue::Boolean(true).size(), 2);
    assert_eq!(ConvexValue::String("héllo".to_string()).size(), 7);
    assert_eq!(ConvexValue::Bytes(vec![1, 2, 3]).size(), 5);
    assert_eq!(ConvexObject::empty().size(), 2);
    let field = Field { name: "ab".to_string(), value: ConvexValue::Int64(1) };
    assert_eq!(field.size(), 12);
    let object = ConvexObject {
        fields: vec![field, Field { name: "c".to_string(), value: ConvexValue::Null }],
    };
    assert_eq!(object.size(), 2 + 12 + 3);
    assert_eq!(bytes_object(1024).size(), 1024 + 9);
    assert_eq!(object_of_size(100).size(), 100);
}

#[test]
fn object_get_set_and_merge() {
    let mut object = text_object("a", "1");
    object.set(Field { name: "b".to_string(), value: ConvexValue::Int64(2) });
    object.set(Field { name: "a".to_string(), value: ConvexValue::Boolean(false) });
    assert_eq!(object.fields.len(), 2);
    assert_eq!(object.get(&"a".to_string()), Some(&ConvexValue::Boolean(false)));
    assert_eq!(object.get(&"b".to_string()), Some(&ConvexValue::Int64(2)));
    assert_eq!(object.get(&"c".to_string()), None);
    let patch = PatchValue {
        fields: vec![
            Field { name: "c".to_string(), value: ConvexValue::Null },
            Field { name: "b".to_string(), value: ConvexValue::Int64(3) },
            Field { name: "c".to_string(), value: ConvexValue::Int64(4) },
        ],
    };
    object.merge(&patch);
    let names: Vec<&str> = object.fields.iter().map(|f| f.name.as_str()).collect();
    assert_eq!(names, vec!["a", "b", "c"]);
    assert_eq!(object.get(&"b".to_string()), Some(&ConvexValue::Int64(3)));
    assert_eq!(object.get(&"c".to_string()), Some(&ConvexValue::Int64(4)));
    let copy = object.clone();
    assert_eq!(copy, object);
}

#[test]
fn check_user_size_at_the_ceiling() {
    assert_eq!(check_user_size(10, 10), Ok(()));
    assert_eq!(check_user_size(0, 0), Ok(()));
    assert_eq!(check_user_size(11, 10), Err(ModelError::DocumentTooLarge));
    assert_eq!(DEFAULT_USER_SIZE_LIMIT, 1 << 20);
}

#[test]
fn insert_then_delete_twice_then_get() {
    let mut tx = Transaction::new(Identity::User);
    let mut model = UserFacingModel::new(&mut tx);
    let id1 = model.insert("files".to_string(), bytes_object(1024)).unwrap();
    assert_eq!(id1, DeveloperDocumentId { table: 1, internal_id: 1 });
    let found = model.get(id1, None).unwrap().unwrap();
    assert_eq!(found.id, id1);
    assert_eq!(found.value, bytes_object(1024));
    assert_eq!(found.creation_time, 0);

    let deleted = model.delete(id1).unwrap();
    assert_eq!(deleted.id, id1);
    assert_eq!(deleted.value, bytes_object(1024));

    let error = model.delete(id1).unwrap_err();
    assert_eq!(error, ModelError::DocumentNotFound);
    assert!(error.is_not_found());
    assert_eq!(error.short_msg(), "DocumentNotFound");

    assert_eq!(model.get(id1, None), Ok(None));
    assert_eq!(model.get_with_ts(id1, version()), Ok(None));
    assert!(tx.documents.is_empty());
    assert_eq!(tx.tables.len(), 1);
    assert_eq!(tx.tables[0].name, "files");
}

#[test]
fn insert_gives_rising_identifiers_and_times() {
    let mut tx = Transaction::new(Identity::User);
    let mut model = UserFacingModel::new(&mut tx);
    let a = model.insert("files".to_string(), bytes_object(1)).unwrap();
    let b = model.insert("notes".to_string(), bytes_object(2)).unwrap();
    let c = model.insert("files".to_string(), bytes_object(3)).unwrap();
    assert_eq!(a, DeveloperDocumentId { table: 1, internal_id: 1 });
    assert_eq!(b, DeveloperDocumentId { table: 2, internal_id: 2 });
    assert_eq!(c, DeveloperDocumentId { table: 1, internal_id: 3 });
    let (document, ts) = model.get_with_ts(c, None).unwrap().unwrap();
    assert_eq!(document.creation_time, 2);
    assert_eq!(ts, WriteTimestamp::Pending);
    assert_eq!(tx.tables.len(), 2);
    assert_eq!(tx.documents.len(), 3);
    assert_eq!(tx.documents[1].document.id.tablet_id, tx.tables[1].tablet_id);
    assert_eq!(tx.next_id, 4);
    assert_eq!(tx.next_creation_time, 3);
}

#[test]
fn insert_over_the_size_ceiling_fails() {
    let mut tx = Transaction::new(Identity::User);
    tx.set_user_size_limit(100);
    let mut model = UserFacingModel::new(&mut tx);
    let error = model.insert("files".to_string(), object_of_size(101)).unwrap_err();
    assert_eq!(error, ModelError::DocumentTooLarge);
    assert!(error.is_bad_request());
    assert_eq!(error.short_msg(), "DocumentTooLarge");
    let at_ceiling = model.insert("files".to_string(), object_of_size(100));
    assert!(at_ceiling.is_ok());
    let under = model.insert("files".to_string(), object_of_size(99));
    assert!(under.is_ok());
    assert_eq!(tx.documents.len(), 2);
}

#[test]
fn oversized_insert_changes_nothing() {
    let mut tx = Transaction::new(Identity::User);
    tx.set_user_size_limit(16);
    let mut model = UserFacingModel::new(&mut tx);
    assert_eq!(
        model.insert("files".to_string(), object_of_size(17)),
        Err(ModelError::DocumentTooLarge)
    );
    assert!(tx.tables.is_empty());
    assert!(tx.documents.is_empty());
    assert_eq!(tx.next_id, 1);
    assert_eq!(tx.next_creation_time, 0);
}

#[test]
fn insert_into_virtual_table_fails() {
    let mut tx = Transaction::new(Identity::System);
    tx.insert_table_metadata(&"_file_storage".to_string()).unwrap();
    let backing = tx.tables[0].number;
    tx.add_virtual_table("_storage".to_string(), backing).unwrap();
    let mut model = UserFacingModel::new(&mut tx);
    let error = model.insert("_storage".to_string(), bytes_object(4)).unwrap_err();
    assert_eq!(error, ModelError::ReadOnlyTable);
    assert_eq!(error.kind(), ErrorKind::BadRequest);
    assert_eq!(error.short_msg(), "ReadOnlyTable");
    assert!(tx.documents.is_empty());
    assert_eq!(tx.next_id, 1);
}

#[test]
fn insert_under_system_name_fails() {
    for identity in [Identity::User, Identity::InstanceAdmin, Identity::System] {
        let mut tx = Transaction::new(identity);
        let mut model = UserFacingModel::new(&mut tx);
        let error = model.insert("_secret".to_string(), bytes_object(4)).unwrap_err();
        assert_eq!(error, ModelError::InvalidTableName);
        assert!(error.is_bad_request());
        assert_eq!(error.short_msg(), "InvalidTableName");
        assert!(tx.tables.is_empty());
        assert!(tx.documents.is_empty());
        // The identifier and the creation time were taken before the name was judged.
        assert_eq!(tx.next_id, 2);
        assert_eq!(tx.next_creation_time, 1);
    }
}

#[test]
fn oversized_insert_under_system_name_fails_on_size_first() {
    let mut tx = Transaction::new(Identity::User);
    tx.set_user_size_limit(16);
    let mut model = UserFacingModel::new(&mut tx);
    assert_eq!(
        model.insert("_secret".to_string(), object_of_size(17)),
        Err(ModelError::DocumentTooLarge)
    );
}

#[test]
fn writes_fail_while_retention_falls_behind() {
    let mut tx = Transaction::new(Identity::User);
    let id = UserFacingModel::new(&mut tx).insert("files".to_string(), bytes_object(4)).unwrap();
    tx.set_falling_behind(true);
    assert_eq!(tx.fail_if_falling_behind(), Err(ModelError::RetentionFallingBehind));
    let mut model = UserFacingModel::new(&mut tx);
    let error = model.insert("files".to_string(), bytes_object(4)).unwrap_err();
    assert_eq!(error, ModelError::RetentionFallingBehind);
    assert!(error.is_overloaded());
    assert_eq!(error.short_msg(), "TooManyWritesInTimePeriod");
    assert_eq!(
        model.patch(id, PatchValue { fields: Vec::new() }),
        Err(ModelError::RetentionFallingBehind)
    );
    assert_eq!(model.replace(id, bytes_object(1)), Err(ModelError::RetentionFallingBehind));
    assert_eq!(model.delete(id), Err(ModelError::RetentionFallingBehind));
    // Reads go on.
    assert!(model.get(id, None).unwrap().is_some());
    tx.set_falling_behind(false);
    assert!(UserFacingModel::new(&mut tx).delete(id).is_ok());
}

#[test]
fn insert_fails_when_identifiers_are_used_up() {
    let mut tx = Transaction::new(Identity::User);
    tx.next_id = u64::MAX;
    let mut model = UserFacingModel::new(&mut tx);
    let error = model.insert("files".to_string(), bytes_object(4)).unwrap_err();
    assert_eq!(error, ModelError::CounterExhausted);
    assert_eq!(error.kind(), ErrorKind::Internal);
    assert_eq!(tx.next_id, u64::MAX);
    assert!(tx.tables.is_empty());
}

#[test]
fn patch_merges_fields() {
    let mut tx = Transaction::new(Identity::User);
    let mut model = UserFacingModel::new(&mut tx);
    let id = model.insert("notes".to_string(), text_object("title", "old")).unwrap();
    let patch = PatchValue {
        fields: vec![
            Field { name: "title".to_string(), value: ConvexValue::String("new".to_string()) },
            Field { name: "done".to_string(), value: ConvexValue::Boolean(true) },
        ],
    };
    let patched = model.patch(id, patch).unwrap();
    assert_eq!(patched.id, id);
    assert_eq!(patched.creation_time, 0);
    assert_eq!(
        patched.value,
        ConvexObject {
            fields: vec![
                Field { name: "title".to_string(), value: ConvexValue::String("new".to_string()) },
                Field { name: "done".to_string(), value: ConvexValue::Boolean(true) },
            ]
        }
    );
    assert_eq!(model.get(id, None).unwrap().unwrap(), patched);
}

#[test]
fn replace_swaps_the_value() {
    let mut tx = Transaction::new(Identity::User);
    let mut model = UserFacingModel::new(&mut tx);
    let id = model.insert("notes".to_string(), text_object("title", "old")).unwrap();
    let replaced = model.replace(id, text_object("body", "text")).unwrap();
    assert_eq!(
        replaced,
        DeveloperDocument { id, creation_time: 0, value: text_object("body", "text") }
    );
    assert_eq!(model.get(id, None).unwrap().unwrap(), replaced);
}

#[test]
fn patch_and_replace_hold_the_size_ceiling() {
    let mut tx = Transaction::new(Identity::User);
    tx.set_user_size_limit(40);
    let mut model = UserFacingModel::new(&mut tx);
    let id = model.insert("notes".to_string(), object_of_size(30)).unwrap();
    assert_eq!(model.replace(id, object_of_size(41)), Err(ModelError::DocumentTooLarge));
    assert_eq!(model.get(id, None).unwrap().unwrap().value, object_of_size(30));
    assert!(model.replace(id, object_of_size(40)).is_ok());

    let grow = PatchValue {
        fields: vec![Field { name: "x".to_string(), value: ConvexValue::Null }],
    };
    // 40 and a field of size 3 are over the ceiling; the store has merged by then.
    assert_eq!(model.patch(id, grow), Err(ModelError::DocumentTooLarge));
    assert_eq!(model.get(id, None).unwrap().unwrap().value.size(), 43);
}

#[test]
fn changes_to_missing_documents_fail() {
    let mut tx = Transaction::new(Identity::User);
    let mut model = UserFacingModel::new(&mut tx);
    let id = model.insert("notes".to_string(), bytes_object(1)).unwrap();
    let other = DeveloperDocumentId { table: id.table, internal_id: 99 };
    assert_eq!(model.delete(other), Err(ModelError::DocumentNotFound));
    assert_eq!(model.replace(other, bytes_object(1)), Err(ModelError::DocumentNotFound));
    assert_eq!(
        model.patch(other, PatchValue { fields: Vec::new() }),
        Err(ModelError::DocumentNotFound)
    );
    let nowhere = DeveloperDocumentId { table: 77, internal_id: id.internal_id };
    let error = model.delete(nowhere).unwrap_err();
    assert_eq!(error, ModelError::TableNotFound);
    assert!(error.is_not_found());
    assert_eq!(model.replace(nowhere, bytes_object(1)), Err(ModelError::TableNotFound));
    assert_eq!(
        model.patch(nowhere, PatchValue { fields: Vec::new() }),
        Err(ModelError::TableNotFound)
    );
    assert_eq!(model.get(nowhere, None), Ok(None));
}

/// A transaction with a document in the system table `_modules`.
fn with_system_document(identity: Identity) -> (Transaction, DeveloperDocumentId) {
    let mut tx = Transaction::new(identity);
    tx.insert_table_metadata(&"_modules".to_string()).unwrap();
    let table = &tx.tables[0];
    let internal_id = 1;
    let id = database::types::ResolvedDocumentId {
        tablet_id: table.tablet_id,
        developer_id: DeveloperDocumentId { table: table.number, internal_id },
    };
    assert_eq!(tx.generate_id(), Ok(internal_id));
    let document = database::document::ResolvedDocument {
        id,
        creation_time: tx.increment_creation_time().unwrap(),
        value: bytes_object(8),
    };
    assert_eq!(tx.insert_document(document), Ok(id));
    (tx, id.developer_id)
}

#[test]
fn system_documents_are_kept_from_users() {
    for identity in [Identity::User, Identity::Unknown] {
        let (mut tx, id) = with_system_document(identity);
        assert!(tx.is_system(id.table));
        let mut model = UserFacingModel::new(&mut tx);
        let patch = PatchValue { fields: Vec::new() };
        let error = model.patch(id, patch).unwrap_err();
        assert_eq!(error, ModelError::Unauthorized);
        assert!(error.is_unauthorized());
        assert_eq!(error.kind(), ErrorKind::Unauthorized);
        assert_eq!(error.short_msg(), "Unauthorized");
        assert_eq!(model.replace(id, bytes_object(1)), Err(ModelError::Unauthorized));
        assert_eq!(model.delete(id), Err(ModelError::Unauthorized));
        // A read is no change.
        assert_eq!(model.get(id, None).unwrap().unwrap().value, bytes_object(8));
        assert_eq!(tx.documents.len(), 1);
    }
}

#[test]
fn system_documents_are_open_to_admins_and_the_system() {
    for identity in [Identity::InstanceAdmin, Identity::ActingUser, Identity::System] {
        let (mut tx, id) = with_system_document(identity);
        tx.set_user_size_limit(4);
        let mut model = UserFacingModel::new(&mut tx);
        let patch = PatchValue {
            fields: vec![Field { name: "x".to_string(), value: ConvexValue::Int64(1) }],
        };
        // System documents are not held to the size ceiling.
        let patched = model.patch(id, patch).unwrap();
        assert_eq!(patched.value.fields.len(), 2);
        let replaced = model.replace(id, bytes_object(64)).unwrap();
        assert_eq!(replaced.value, bytes_object(64));
        let deleted = model.delete(id).unwrap();
        assert_eq!(deleted.value, bytes_object(64));
        assert_eq!(model.delete(id), Err(ModelError::DocumentNotFound));
    }
}

/// A transaction with the system table `_file_storage`, the virtual table
/// `_storage` over it, and two files.
fn with_virtual_table() -> (Transaction, u32, Vec<u64>) {
    let mut tx = Transaction::new(Identity::System);
    tx.insert_table_metadata(&"_file_storage".to_string()).unwrap();
    let tablet_id = tx.tables[0].tablet_id;
    let backing = tx.tables[0].number;
    let number = tx.add_virtual_table("_storage".to_string(), backing).unwrap();
    let mut ids = Vec::new();
    for len in [10usize, 20] {
        let internal_id = tx.generate_id().unwrap();
        let document = database::document::ResolvedDocument {
            id: database::types::ResolvedDocumentId {
                tablet_id,
                developer_id: DeveloperDocumentId { table: backing, internal_id },
            },
            creation_time: tx.increment_creation_time().unwrap(),
            value: bytes_object(len),
        };
        tx.insert_document(document).unwrap();
        ids.push(internal_id);
    }
    (tx, number, ids)
}

#[test]
fn get_through_virtual_table_records_the_read() {
    let (mut tx, number, ids) = with_virtual_table();
    let mut model = UserFacingModel::new(&mut tx);
    let id = DeveloperDocumentId { table: number, internal_id: ids[1] };
    let (document, ts) = model.get_with_ts(id, version()).unwrap().unwrap();
    assert_eq!(document.id, id);
    assert_eq!(document.value, bytes_object(20));
    assert_eq!(ts, WriteTimestamp::Pending);
    let missing = DeveloperDocumentId { table: number, internal_id: 999 };
    assert_eq!(model.get(missing, None), Ok(None));
    assert_eq!(
        tx.reads,
        vec![ReadRecord { table_name: "_storage".to_string(), size: 29, is_virtual: true }]
    );
}

#[test]
fn get_from_store_records_nothing() {
    let mut tx = Transaction::new(Identity::User);
    let mut model = UserFacingModel::new(&mut tx);
    let id = model.insert("files".to_string(), bytes_object(4)).unwrap();
    let document = model.get(id, None).unwrap().unwrap();
    assert!(tx.reads.is_empty());
    let mut model = UserFacingModel::new(&mut tx);
    model.record_read_document(&document, &"files".to_string()).unwrap();
    assert_eq!(
        tx.reads,
        vec![ReadRecord { table_name: "files".to_string(), size: 13, is_virtual: false }]
    );
}

#[test]
fn record_read_document_knows_virtual_tables() {
    let (mut tx, number, ids) = with_virtual_table();
    let document = DeveloperDocument {
        id: DeveloperDocumentId { table: number, internal_id: ids[0] },
        creation_time: 0,
        value: bytes_object(10),
    };
    let mut model = UserFacingModel::new(&mut tx);
    assert_eq!(model.record_read_document(&document, &"_storage".to_string()), Ok(()));
    assert_eq!(model.record_read_document(&document, &"_file_storage".to_string()), Ok(()));
    assert_eq!(
        tx.reads,
        vec![
            ReadRecord { table_name: "_storage".to_string(), size: 19, is_virtual: true },
            ReadRecord { table_name: "_file_storage".to_string(), size: 19, is_virtual: false },
        ]
    );
}

#[test]
fn virtual_table_without_backing_table_fails_for_its_key_only() {
    let mut tx = Transaction::new(Identity::User);
    let broken = tx.add_virtual_table("_broken".to_string(), 4000).unwrap();
    let mut model = UserFacingModel::new(&mut tx);
    let good = model.insert("files".to_string(), bytes_object(4)).unwrap();
    let mut ids = BTreeMap::new();
    ids.insert(3, (DeveloperDocumentId { table: broken, internal_id: 1 }, None));
    ids.insert(5, (good, None));
    ids.insert(9, (DeveloperDocumentId { table: 1234, internal_id: 1 }, None));
    let results = model.get_batch(ids);
    assert_eq!(results.len(), 3);
    assert_eq!(results[&3], Err(ModelError::BackingTableMissing));
    assert_eq!(ModelError::BackingTableMissing.kind(), ErrorKind::Internal);
    assert_eq!(results[&5].as_ref().unwrap().as_ref().unwrap().0.id, good);
    assert_eq!(results[&9], Ok(None));
}

#[test]
fn get_batch_answers_every_key() {
    let (mut tx, number, ids) = with_virtual_table();
    let mut model = UserFacingModel::new(&mut tx);
    let a = model.insert("files".to_string(), bytes_object(1)).unwrap();
    let b = model.insert("files".to_string(), bytes_object(2)).unwrap();
    model.delete(b).unwrap();

    let mut batch = BTreeMap::new();
    batch.insert(10, (a, None));
    batch.insert(2, (b, version()));
    batch.insert(7, (DeveloperDocumentId { table: number, internal_id: ids[0] }, None));
    batch.insert(0, (DeveloperDocumentId { table: 9999, internal_id: 1 }, None));
    batch.insert(4, (DeveloperDocumentId { table: number, internal_id: 12345 }, None));
    batch.insert(11, (a, None));
    let results = model.get_batch(batch.clone());
    assert_eq!(results.len(), batch.len());
    assert_eq!(
        results.keys().copied().collect::<Vec<_>>(),
        batch.keys().copied().collect::<Vec<_>>()
    );
    assert_eq!(results[&0], Ok(None));
    assert_eq!(results[&2], Ok(None));
    assert_eq!(results[&4], Ok(None));
    let (virtual_hit, _) = results[&7].clone().unwrap().unwrap();
    assert_eq!(virtual_hit.id.table, number);
    assert_eq!(virtual_hit.value, bytes_object(10));
    assert_eq!(results[&10].clone().unwrap().unwrap().0.id, a);
    assert_eq!(results[&10], results[&11]);
    // Only the document found through the virtual table is on the account.
    assert_eq!(
        tx.reads,
        vec![ReadRecord { table_name: "_storage".to_string(), size: 19, is_virtual: true }]
    );
}

#[test]
fn get_batch_of_nothing_is_empty() {
    let mut tx = Transaction::new(Identity::User);
    let mut model = UserFacingModel::new(&mut tx);
    assert!(model.get_batch(BTreeMap::new()).is_empty());
    assert!(tx.reads.is_empty());
}

#[test]
fn batch_and_single_fetches_agree() {
    let build = || {
        let (mut tx, number, ids) = with_virtual_table();
        let a = UserFacingModel::new(&mut tx).insert("files".to_string(), bytes_object(1)).unwrap();
        let requests = vec![
            a,
            DeveloperDocumentId { table: number, internal_id: ids[0] },
            DeveloperDocumentId { table: number, internal_id: ids[1] },
            DeveloperDocumentId { table: number, internal_id: 777 },
            DeveloperDocumentId { table: 4321, internal_id: 1 },
            DeveloperDocumentId { table: a.table, internal_id: 888 },
        ];
        (tx, requests)
    };
    let (mut tx, requests) = build();
    let batch: BTreeMap<usize, _> =
        requests.iter().enumerate().map(|(k, id)| (k, (*id, None))).collect();
    let together = UserFacingModel::new(&mut tx).get_batch(batch);
    let reads_together = tx.reads;
    let mut reads_alone = Vec::new();
    for (k, id) in requests.iter().enumerate() {
        let (mut fresh, _) = build();
        let alone = UserFacingModel::new(&mut fresh).get_with_ts(*id, None);
        assert_eq!(together[&k], alone);
        reads_alone.extend(fresh.reads);
    }
    assert_eq!(reads_together, reads_alone);
    assert_eq!(reads_together.len(), 2);
}

fn physical(tx: &Transaction, place: usize) -> StableIndexName {
    StableIndexName::Physical(TabletIndexName { tablet_id: tx.tables[place].tablet_id })
}

/// A transaction with five files in `files` and one note in `notes`; the
/// internal identifiers of the files are 1, 2, 4, 5 and 6.
fn with_files() -> (Transaction, Vec<DeveloperDocumentId>) {
    let mut tx = Transaction::new(Identity::User);
    let mut model = UserFacingModel::new(&mut tx);
    let mut ids = Vec::new();
    for k in 0..6usize {
        let table = if k == 2 { "notes" } else { "files" };
        let id = model.insert(table.to_string(), bytes_object(k)).unwrap();
        if k != 2 {
            ids.push(id);
        }
    }
    (tx, ids)
}

fn keys(page: &[(u64, DeveloperDocument, WriteTimestamp)]) -> Vec<u64> {
    page.iter().map(|row| row.0).collect()
}

#[test]
fn index_range_with_empty_interval_is_empty() {
    let (mut tx, _) = with_files();
    let index = physical(&tx, 0);
    let unknown = StableIndexName::Physical(TabletIndexName { tablet_id: 999 });
    let virtual_index = StableIndexName::Virtual(
        IndexName { table: "_nope".to_string() },
        TabletIndexName { tablet_id: 1 },
    );
    let mut model = UserFacingModel::new(&mut tx);
    for interval in [
        Interval { start: 3, end: IntervalEnd::Excluded(3) },
        Interval { start: 3, end: IntervalEnd::Excluded(1) },
        Interval { start: 0, end: IntervalEnd::Excluded(0) },
    ] {
        assert!(interval.is_empty());
        for name in [&index, &unknown, &virtual_index, &StableIndexName::Missing] {
            for order in [Order::Asc, Order::Desc] {
                let (page, cursor) =
                    model.index_range(name, &interval, order, 10, None).unwrap();
                assert!(page.is_empty());
                assert_eq!(cursor, CursorPosition::End);
            }
        }
    }
    assert!(tx.reads.is_empty());
}

#[test]
fn index_range_scans_in_both_orders() {
    let (mut tx, ids) = with_files();
    let index = physical(&tx, 0);
    let mut model = UserFacingModel::new(&mut tx);
    let (page, cursor) = model.index_range(&index, &Interval::all(), Order::Asc, 10, None).unwrap();
    assert_eq!(keys(&page), vec![1, 2, 4, 5, 6]);
    assert_eq!(cursor, CursorPosition::End);
    assert_eq!(page[2].1.id, ids[2]);
    assert_eq!(page[2].1.value, bytes_object(3));
    assert_eq!(page[2].2, WriteTimestamp::Pending);

    let (page, cursor) =
        model.index_range(&index, &Interval::all(), Order::Desc, 10, None).unwrap();
    assert_eq!(keys(&page), vec![6, 5, 4, 2, 1]);
    assert_eq!(cursor, CursorPosition::End);

    let inner = Interval { start: 2, end: IntervalEnd::Excluded(6) };
    assert!(inner.contains(2) && inner.contains(5) && !inner.contains(6) && !inner.contains(1));
    let (page, cursor) = model.index_range(&index, &inner, Order::Asc, 10, None).unwrap();
    assert_eq!(keys(&page), vec![2, 4, 5]);
    assert_eq!(cursor, CursorPosition::End);
    // The page is not put on the account.
    assert!(tx.reads.is_empty());
}

#[test]
fn index_range_pages_and_cursors() {
    let (mut tx, _) = with_files();
    let index = physical(&tx, 0);
    let mut model = UserFacingModel::new(&mut tx);
    let (page, cursor) = model.index_range(&index, &Interval::all(), Order::Asc, 2, None).unwrap();
    assert_eq!(keys(&page), vec![1, 2]);
    assert_eq!(cursor, CursorPosition::After(2));
    let rest = Interval { start: 3, end: IntervalEnd::Unbounded };
    let (page, cursor) = model.index_range(&index, &rest, Order::Asc, 3, None).unwrap();
    assert_eq!(keys(&page), vec![4, 5, 6]);
    assert_eq!(cursor, CursorPosition::End);

    let (page, cursor) =
        model.index_range(&index, &Interval::all(), Order::Desc, 4, None).unwrap();
    assert_eq!(keys(&page), vec![6, 5, 4, 2]);
    assert_eq!(cursor, CursorPosition::After(2));

    let (page, cursor) = model.index_range(&index, &Interval::all(), Order::Asc, 5, None).unwrap();
    assert_eq!(page.len(), 5);
    assert_eq!(cursor, CursorPosition::End);
}

#[test]
fn index_range_with_no_rows_asked_for() {
    let (mut tx, _) = with_files();
    let index = physical(&tx, 0);
    let mut model = UserFacingModel::new(&mut tx);
    let from_four = Interval { start: 4, end: IntervalEnd::Excluded(6) };
    let (page, cursor) = model.index_range(&index, &from_four, Order::Asc, 0, None).unwrap();
    assert!(page.is_empty());
    assert_eq!(cursor, CursorPosition::After(3));
    let (page, cursor) = model.index_range(&index, &from_four, Order::Desc, 0, None).unwrap();
    assert!(page.is_empty());
    assert_eq!(cursor, CursorPosition::After(6));
    let (_, cursor) = model.index_range(&index, &Interval::all(), Order::Asc, 0, None).unwrap();
    assert_eq!(cursor, CursorPosition::After(0));
    let (_, cursor) = model.index_range(&index, &Interval::all(), Order::Desc, 0, None).unwrap();
    assert_eq!(cursor, CursorPosition::After(u64::MAX));
    let nothing_there = Interval { start: 100, end: IntervalEnd::Unbounded };
    let (page, cursor) = model.index_range(&index, &nothing_there, Order::Asc, 0, None).unwrap();
    assert!(page.is_empty());
    assert_eq!(cursor, CursorPosition::End);
}

#[test]
fn index_range_caps_the_page_size() {
    assert_eq!(MAX_PAGE_SIZE, 1024);
    let mut tx = Transaction::new(Identity::User);
    let mut model = UserFacingModel::new(&mut tx);
    for _ in 0..(MAX_PAGE_SIZE + 6) {
        model.insert("files".to_string(), ConvexObject::empty()).unwrap();
    }
    let index = physical(&tx, 0);
    let mut model = UserFacingModel::new(&mut tx);
    let (page, cursor) =
        model.index_range(&index, &Interval::all(), Order::Asc, usize::MAX, None).unwrap();
    assert_eq!(page.len(), MAX_PAGE_SIZE);
    assert_eq!(cursor, CursorPosition::After(1024));
    let (page, cursor) =
        model.index_range(&index, &Interval::all(), Order::Asc, 1025, None).unwrap();
    assert_eq!(page.len(), 1024);
    assert_eq!(cursor, CursorPosition::After(1024));
    let after = Interval { start: 1025, end: IntervalEnd::Unbounded };
    let (page, cursor) = model.index_range(&index, &after, Order::Asc, 5000, None).unwrap();
    assert_eq!(page.len(), 6);
    assert_eq!(cursor, CursorPosition::End);
}

#[test]
fn index_range_over_missing_index_is_empty() {
    let (mut tx, _) = with_files();
    let mut model = UserFacingModel::new(&mut tx);
    let (page, cursor) = model
        .index_range(&StableIndexName::Missing, &Interval::all(), Order::Asc, 10, None)
        .unwrap();
    assert!(page.is_empty());
    assert_eq!(cursor, CursorPosition::End);
    let unknown = StableIndexName::Physical(TabletIndexName { tablet_id: 999 });
    let error = model.index_range(&unknown, &Interval::all(), Order::Asc, 10, None).unwrap_err();
    assert_eq!(error, ModelError::TableNotFound);
}

#[test]
fn index_range_through_virtual_table() {
    let (mut tx, number, ids) = with_virtual_table();
    let tablet_id = tx.tables[0].tablet_id;
    let index = StableIndexName::Virtual(
        IndexName { table: "_storage".to_string() },
        TabletIndexName { tablet_id },
    );
    let mut model = UserFacingModel::new(&mut tx);
    let (page, cursor) =
        model.index_range(&index, &Interval::all(), Order::Desc, 10, version()).unwrap();
    assert_eq!(keys(&page), vec![ids[1], ids[0]]);
    assert_eq!(cursor, CursorPosition::End);
    for row in &page {
        assert_eq!(row.1.id.table, number);
        assert_eq!(row.1.id.internal_id, row.0);
    }
    assert_eq!(page[0].1.value, bytes_object(20));
    let (page, cursor) = model.index_range(&index, &Interval::all(), Order::Asc, 1, None).unwrap();
    assert_eq!(keys(&page), vec![ids[0]]);
    assert_eq!(cursor, CursorPosition::After(ids[0]));

    let unknown = StableIndexName::Virtual(
        IndexName { table: "_nope".to_string() },
        TabletIndexName { tablet_id },
    );
    let error = model.index_range(&unknown, &Interval::all(), Order::Asc, 10, None).unwrap_err();
    assert_eq!(error, ModelError::VirtualTableNotFound);
    assert_eq!(error.kind(), ErrorKind::Internal);
    assert!(tx.reads.is_empty());
}

#[test]
fn store_refuses_identifiers_that_are_not_new() {
    let mut tx = Transaction::new(Identity::System);
    tx.insert_table_metadata(&"files".to_string()).unwrap();
    let tablet_id = tx.tables[0].tablet_id;
    let table = tx.tables[0].number;
    let document = |internal_id: u64| database::document::ResolvedDocument {
        id: database::types::ResolvedDocumentId {
            tablet_id,
            developer_id: DeveloperDocumentId { table, internal_id },
        },
        creation_time: 0,
        value: ConvexObject::empty(),
    };
    // Not handed out yet.
    assert_eq!(tx.insert_document(document(1)), Err(ModelError::DocumentIdNotFresh));
    assert_eq!(tx.generate_id(), Ok(1));
    assert_eq!(tx.generate_id(), Ok(2));
    assert!(tx.insert_document(document(2)).is_ok());
    // Below one that the store holds, and the one that it holds.
    assert_eq!(tx.insert_document(document(1)), Err(ModelError::DocumentIdNotFresh));
    assert_eq!(tx.insert_document(document(2)), Err(ModelError::DocumentIdNotFresh));
    assert_eq!(tx.insert_document(document(0)), Err(ModelError::DocumentIdNotFresh));
    assert_eq!(tx.documents.len(), 1);
}

#[test]
fn table_numbers_can_be_used_up() {
    let mut tx = Transaction::new(Identity::User);
    tx.next_table_number = u32::MAX;
    assert_eq!(
        tx.insert_table_metadata(&"files".to_string()),
        Err(ModelError::CounterExhausted)
    );
    assert_eq!(
        tx.add_virtual_table("_v".to_string(), 1),
        Err(ModelError::CounterExhausted)
    );
    let mut model = UserFacingModel::new(&mut tx);
    assert_eq!(
        model.insert("files".to_string(), ConvexObject::empty()),
        Err(ModelError::CounterExhausted)
    );
    assert_eq!(tx.next_id, 2);
    tx.next_creation_time = u64::MAX;
    assert_eq!(tx.increment_creation_time(), Err(ModelError::CounterExhausted));
}

#[test]
fn every_error_has_a_kind_and_a_short_name() {
    let all = [
        (ModelError::ReadOnlyTable, ErrorKind::BadRequest, "ReadOnlyTable"),
        (ModelError::InvalidTableName, ErrorKind::BadRequest, "InvalidTableName"),
        (ModelError::DocumentTooLarge, ErrorKind::BadRequest, "DocumentTooLarge"),
        (ModelError::Unauthorized, ErrorKind::Unauthorized, "Unauthorized"),
        (ModelError::TableNotFound, ErrorKind::NotFound, "TableNotFound"),
        (ModelError::DocumentNotFound, ErrorKind::NotFound, "DocumentNotFound"),
        (ModelError::RetentionFallingBehind, ErrorKind::Overloaded, "TooManyWritesInTimePeriod"),
        (ModelError::CounterExhausted, ErrorKind::Internal, "CounterExhausted"),
        (ModelError::DocumentIdNotFresh, ErrorKind::Internal, "DocumentIdNotFresh"),
        (ModelError::ComponentMissing, ErrorKind::Internal, "ComponentMissing"),
        (ModelError::RootComponentMissing, ErrorKind::Internal, "RootComponentMissing"),
        (ModelError::ComponentNotFound, ErrorKind::NotFound, "ComponentNotFound"),
        (
            ModelError::ComponentDefinitionMissing,
            ErrorKind::Internal,
            "ComponentDefinitionMissing",
        ),
        (ModelError::DuplicateDefinitionPath, ErrorKind::Internal, "DuplicateDefinitionPath"),
        (ModelError::DuplicateComponent, ErrorKind::BadRequest, "DuplicateComponent"),
        (ModelError::BackingTableMissing, ErrorKind::Internal, "BackingTableMissing"),
        (ModelError::VirtualTableNotFound, ErrorKind::Internal, "VirtualTableNotFound"),
        (ModelError::BatchKeyMissing, ErrorKind::Internal, "BatchKeyMissing"),
        (
            ModelError::InvalidScheduledFunctionDelay,
            ErrorKind::BadRequest,
            "InvalidScheduledFunctionDelay",
        ),
        (ModelError::InvalidScheduledFunction, ErrorKind::BadRequest, "InvalidScheduledFunction"),
        (ModelError::BackendIsNotRunning, ErrorKind::BadRequest, "BackendIsNotRunning"),
        (ModelError::SystemModuleOutsideRoot, ErrorKind::Internal, "SystemModuleOutsideRoot"),
        (ModelError::NotInRootComponent, ErrorKind::Internal, "NotInRootComponent"),
        (ModelError::VisibilityMissing, ErrorKind::Internal, "VisibilityMissing"),
        (ModelError::UnexpectedHttpPath, ErrorKind::Internal, "UnexpectedHttpPath"),
        (ModelError::MissingArgs, ErrorKind::Internal, "MissingArgs"),
        (ModelError::MissingUdfPath, ErrorKind::Internal, "MissingUdfPath"),
        (ModelError::InvalidArgsJson, ErrorKind::Internal, "InvalidArgsJson"),
        (ModelError::InvalidUdfPath, ErrorKind::Internal, "InvalidUdfPath"),
        (ModelError::InvalidVersion, ErrorKind::Internal, "InvalidVersion"),
        (
            ModelError::InvalidComponentDocument,
            ErrorKind::Internal,
            "InvalidComponentDocument",
        ),
        (ModelError::EmptyFile, ErrorKind::BadRequest, "EmptyFile"),
        (ModelError::FileNotFound, ErrorKind::NotFound, "FileNotFound"),
    ];
    for (error, kind, name) in all {
        assert_eq!(error.kind(), kind);
        assert_eq!(error.short_msg(), name);
        assert_eq!(error.is_bad_request(), kind == ErrorKind::BadRequest);
        assert_eq!(error.is_not_found(), kind == ErrorKind::NotFound);
        assert_eq!(error.is_unauthorized(), kind == ErrorKind::Unauthorized);
        assert_eq!(error.is_overloaded(), kind == ErrorKind::Overloaded);
    }
}

#[test]
fn identities_and_versions() {
    assert!(Identity::InstanceAdmin.is_admin());
    assert!(Identity::ActingUser.is_admin());
    assert!(!Identity::System.is_admin());
    assert!(Identity::System.is_system());
    assert!(!Identity::User.is_admin() && !Identity::User.is_system());
    assert!(!Identity::Unknown.is_admin() && !Identity::Unknown.is_system());
    let v = |major, minor, patch| Version { major, minor, patch };
    assert!(v(1, 0, 0).newer_than(&v(0, 9, 9)));
    assert!(v(1, 2, 0).newer_than(&v(1, 1, 9)));
    assert!(v(1, 2, 3).newer_than(&v(1, 2, 2)));
    assert!(!v(1, 2, 3).newer_than(&v(1, 2, 3)));
    assert!(!v(0, 9, 9).newer_than(&v(1, 0, 0)));
}
