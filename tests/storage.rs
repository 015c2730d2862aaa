use vector_gpt::database::CodecError;
use vector_gpt::storage::{
    changed_rows_result, decode_embedding_row, found_data, MemoryDB, Observer, StorageError,
};

#[test]
fn create_read_update_delete() {
    let mut db = MemoryDB::new();
    assert_eq!(db.create("a", "x"), Ok(()));
    assert_eq!(db.read("a"), Ok("x".to_string()));
    assert_eq!(db.update("a", "y"), Ok(()));
    assert_eq!(db.read("a"), Ok("y".to_string()));
    assert_eq!(db.delete("a"), Ok(()));
    assert_eq!(db.read("a"), Err(StorageError::NotFound));
}

#[test]
fn create_refuses_existing_id() {
    let mut db = MemoryDB::new();
    db.create("a", "x").unwrap();
    assert_eq!(db.create("a", "z"), Err(StorageError::DuplicateKey));
    assert_eq!(db.read("a"), Ok("x".to_string()));
}

#[test]
fn update_and_delete_of_absent_id_fail() {
    let mut db = MemoryDB::new();
    db.create("b", "1").unwrap();
    assert_eq!(db.update("a", "y"), Err(StorageError::NotFound));
    assert_eq!(db.delete("a"), Err(StorageError::NotFound));
    assert_eq!(db.read("a"), Err(StorageError::NotFound));
    assert_eq!(db.read("b"), Ok("1".to_string()));
}

#[test]
fn records_stay_apart() {
    let mut db = MemoryDB::new();
    db.create("a", "1").unwrap();
    db.create("b", "2").unwrap();
    db.create("c", "3").unwrap();
    db.delete("a").unwrap();
    db.update("c", "33").unwrap();
    assert_eq!(db.read("b"), Ok("2".to_string()));
    assert_eq!(db.read("c"), Ok("33".to_string()));
    assert_eq!(db.create("a", "again"), Ok(()));
    assert_eq!(db.read("a"), Ok("again".to_string()));
}

fn through_trait(store: &mut dyn Observer) -> Result<String, StorageError> {
    store.create("k", "v")?;
    store.update("k", "w")?;
    store.read("k")
}

#[test]
fn memory_store_serves_as_observer() {
    let mut db = MemoryDB::new();
    assert_eq!(through_trait(&mut db), Ok("w".to_string()));
}

#[test]
fn no_changed_row_means_not_found() {
    assert_eq!(changed_rows_result(0), Err(StorageError::NotFound));
    assert_eq!(changed_rows_result(1), Ok(()));
}

#[test]
fn missing_row_means_not_found() {
    assert_eq!(found_data(None), Err(StorageError::NotFound));
    assert_eq!(found_data(Some("d".to_string())), Ok("d".to_string()));
}

#[test]
fn embedding_row_is_decoded() {
    let row = Some(("id".to_string(), "text".to_string(), vec![0, 0, 0x80, 0x3f]));
    let (id, data, values) = decode_embedding_row(row).unwrap();
    assert_eq!(id, "id");
    assert_eq!(data, "text");
    assert_eq!(values, vec![1.0f32.to_bits()]);
}

#[test]
fn malformed_embedding_row_is_a_typed_error() {
    let row = Some(("id".to_string(), "text".to_string(), vec![0, 0, 0x80]));
    assert_eq!(
        decode_embedding_row(row).unwrap_err(),
        StorageError::Codec(CodecError::TruncatedInput)
    );
    assert_eq!(decode_embedding_row(None).unwrap_err(), StorageError::NotFound);
}

#[test]
fn embedding_is_bound_and_read_back() {
    let mut db = MemoryDB::new();
    db.create("doc", "text").unwrap();
    assert_eq!(db.embedding("doc"), Ok(None));
    let values: Vec<u32> = [0.1f32, -0.2, 0.3].iter().map(|x| x.to_bits()).collect();
    assert_eq!(db.set_embedding("doc", &values), Ok(()));
    assert_eq!(db.embedding("doc"), Ok(Some(values.clone())));
    db.update("doc", "new text").unwrap();
    assert_eq!(db.embedding("doc"), Ok(Some(values)));
    assert_eq!(db.read("doc"), Ok("new text".to_string()));
}

#[test]
fn embedding_of_absent_record_is_not_found() {
    let mut db = MemoryDB::new();
    assert_eq!(db.set_embedding("x", &[1]), Err(StorageError::NotFound));
    assert_eq!(db.embedding("x"), Err(StorageError::NotFound));
}

#[test]
fn delete_drops_the_embedding() {
    let mut db = MemoryDB::new();
    db.create("doc", "text").unwrap();
    db.set_embedding("doc", &[7, 8]).unwrap();
    db.delete("doc").unwrap();
    db.create("doc", "again").unwrap();
    assert_eq!(db.embedding("doc"), Ok(None));
}
