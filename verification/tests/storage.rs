use database::errors::ModelError;
use database::storage::{delete_file, file_object, get_file, is_file_id, list_files, store_file};
use database::transaction::Transaction;
use database::types::{DeveloperDocumentId, Identity};
use database::user_facing::UserFacingModel;
use database::validation::BackendState;
use database::value::{ConvexObject, ConvexValue, Field};

#[test]
fn test_backend_not_running_cannot_store_file() {
    let mut tx = Transaction::new(Identity::System);
    let mut model = UserFacingModel::new(&mut tx);
    let ok_result = store_file(&mut model, BackendState::Running, vec![55; 1024 + 1]);
    assert!(ok_result.is_ok());

    for backend_state in [BackendState::Disabled, BackendState::Paused] {
        let result = store_file(&mut model, backend_state, vec![55; 1024 + 1]);
        assert!(result.is_err());
        let error = result.unwrap_err();
        assert!(error.is_bad_request());
        assert_eq!(error.short_msg(), "BackendIsNotRunning");
    }
    assert_eq!(list_files(&tx).len(), 1);
}

#[test]
fn test_store_file() {
    let mut tx = Transaction::new(Identity::User);
    let mut model = UserFacingModel::new(&mut tx);
    let result = store_file(&mut model, BackendState::Running, vec![42; 2048]);
    assert!(result.is_ok());

    let result = store_file(&mut model, BackendState::Running, vec![42; 0]);
    assert!(result.is_err());
    let error = result.unwrap_err();
    assert!(error.is_bad_request());
    assert_eq!(error.short_msg(), "EmptyFile");
    assert_eq!(tx.documents.len(), 1);
    assert_eq!(tx.next_id, 2);
}

#[test]
fn test_delete_file() {
    let mut tx = Transaction::new(Identity::User);
    let mut model = UserFacingModel::new(&mut tx);
    let file_id = store_file(&mut model, BackendState::Running, vec![42; 2048]).unwrap();

    let result = delete_file(&mut model, file_id);
    assert!(result.is_ok());

    let result = delete_file(&mut model, file_id);
    assert!(result.is_err());
    let error = result.unwrap_err();
    assert!(error.is_not_found());
    assert_eq!(error.short_msg(), "FileNotFound");
}

#[test]
fn test_list_files() {
    let mut tx = Transaction::new(Identity::User);
    let mut model = UserFacingModel::new(&mut tx);
    let file_id1 = store_file(&mut model, BackendState::Running, vec![42; 2048]).unwrap();
    let file_id2 = store_file(&mut model, BackendState::Running, vec![43; 2048]).unwrap();
    model.insert("notes".to_string(), ConvexObject::empty()).unwrap();

    let files = list_files(&tx);
    assert_eq!(files.len(), 2);
    assert!(files.iter().any(|file| file.1.id == file_id1));
    assert!(files.iter().any(|file| file.1.id == file_id2));
    assert_eq!(files[0].0, file_id1.internal_id);
    assert_eq!(files[1].1.value, file_object(vec![43; 2048]));
    assert!(list_files(&Transaction::new(Identity::User)).is_empty());
}

#[test]
fn test_get_file() {
    let mut tx = Transaction::new(Identity::User);
    let mut model = UserFacingModel::new(&mut tx);
    let file_id = store_file(&mut model, BackendState::Running, vec![42; 2048]).unwrap();

    let file = get_file(&mut model, file_id).unwrap();
    assert_eq!(file.id, file_id);

    let result = get_file(&mut model, file_id);
    assert!(result.is_ok());

    let non_existent_file_id = DeveloperDocumentId { table: file_id.table, internal_id: 4242 };
    let result = get_file(&mut model, non_existent_file_id);
    assert!(result.is_err());
    let error = result.unwrap_err();
    assert!(error.is_not_found());
    assert_eq!(error.short_msg(), "FileNotFound");
}

#[test]
fn file_is_stored_deleted_and_gone() {
    let mut tx = Transaction::new(Identity::User);
    let mut model = UserFacingModel::new(&mut tx);
    let id1 = store_file(&mut model, BackendState::Running, vec![7; 1024]).unwrap();
    assert_eq!(id1, DeveloperDocumentId { table: 1, internal_id: 1 });
    assert_eq!(tx.tables[0].name, "files");
    assert_eq!(
        tx.documents[0].document.value,
        ConvexObject {
            fields: vec![Field {
                name: "content".to_string(),
                value: ConvexValue::Bytes(vec![7; 1024])
            }]
        }
    );
    let mut model = UserFacingModel::new(&mut tx);
    assert_eq!(
        store_file(&mut model, BackendState::Running, Vec::new()),
        Err(ModelError::EmptyFile)
    );
    assert_eq!(delete_file(&mut model, id1), Ok(()));
    assert_eq!(delete_file(&mut model, id1), Err(ModelError::FileNotFound));
    assert_eq!(get_file(&mut model, id1), Err(ModelError::FileNotFound));
    assert_eq!(model.get(id1, None), Ok(None));
    assert_eq!(model.delete(id1), Err(ModelError::DocumentNotFound));
    assert!(list_files(&tx).is_empty());
}

#[test]
fn documents_of_other_tables_are_no_files() {
    let mut tx = Transaction::new(Identity::User);
    let mut model = UserFacingModel::new(&mut tx);
    let note = model.insert("notes".to_string(), ConvexObject::empty()).unwrap();
    assert_eq!(get_file(&mut model, note), Err(ModelError::FileNotFound));
    assert_eq!(delete_file(&mut model, note), Err(ModelError::FileNotFound));
    let file = store_file(&mut model, BackendState::Running, vec![1]).unwrap();
    assert_eq!(get_file(&mut model, note), Err(ModelError::FileNotFound));
    assert_eq!(delete_file(&mut model, note), Err(ModelError::FileNotFound));
    assert!(model.get(note, None).unwrap().is_some());
    assert!(is_file_id(&tx, file));
    assert!(!is_file_id(&tx, note));
    tx.set_falling_behind(true);
    let mut model = UserFacingModel::new(&mut tx);
    assert_eq!(delete_file(&mut model, file), Err(ModelError::RetentionFallingBehind));
    assert_eq!(
        store_file(&mut model, BackendState::Running, vec![1]),
        Err(ModelError::RetentionFallingBehind)
    );
}
