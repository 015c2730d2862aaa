use std::collections::HashMap;
use vector_gpt::pinecone_api::{PineconeApiError, VectorOperation};
use vector_gpt::pinecone_data::{IdList, PineconeRequest, Vector};

fn dense(values: &[f32]) -> Vector {
    Vector { values: values.iter().map(|x| x.to_bits()).collect(), ..Default::default() }
}

fn sparse(indices: Vec<i64>, values: &[f32]) -> Vector {
    Vector { indices: Some(indices), ..dense(values) }
}

fn query_cause(r: Result<(), PineconeApiError>) -> String {
    match r {
        Err(PineconeApiError::QueryError(m)) => m,
        other => panic!("expected a query error, got {:?}", other),
    }
}

fn valid_query() -> PineconeRequest {
    PineconeRequest { vector: Some(dense(&[0.1, 0.2])), top_k: Some(3), ..Default::default() }
}

#[test]
fn upsert_with_empty_vectors_is_refused() {
    let v1 = Vector { id: Some("v1".to_string()), ..dense(&[0.1, 0.2, 0.3]) };
    let req = PineconeRequest { vectors: Some(vec![]), vector: Some(v1), ..Default::default() };
    match req.validate_upsert_request() {
        Err(PineconeApiError::UpsertError(m)) => assert_eq!(m, "vectors cannot be empty"),
        other => panic!("unexpected {:?}", other),
    }
}

#[test]
fn upsert_without_vectors_is_refused_and_with_one_passes() {
    let none = PineconeRequest::default();
    assert!(matches!(none.validate_upsert_request(), Err(PineconeApiError::UpsertError(_))));
    let v1 = Vector { id: Some("v1".to_string()), ..dense(&[0.1, 0.2, 0.3]) };
    let one = PineconeRequest { vectors: Some(vec![v1]), ..Default::default() };
    assert!(one.validate_upsert_request().is_ok());
}

#[test]
fn query_with_top_k_zero_is_refused() {
    let req = PineconeRequest { top_k: Some(0), ..valid_query() };
    assert_eq!(query_cause(req.validate_query_request()), "top_k must be at least 1");
}

#[test]
fn query_without_vector_is_refused_whatever_else() {
    let req = PineconeRequest { vector: None, top_k: Some(0), id: Some("x".repeat(600)), ..valid_query() };
    assert_eq!(query_cause(req.validate_query_request()), "vector cannot be empty");
    let bare = PineconeRequest::default();
    assert_eq!(query_cause(bare.validate_query_request()), "vector cannot be empty");
}

#[test]
fn query_sparse_length_mismatch_is_refused() {
    let req = PineconeRequest { sparse_vector: Some(sparse(vec![1, 2], &[0.1, 0.2, 0.3])), ..valid_query() };
    assert_eq!(
        query_cause(req.validate_query_request()),
        "indices and values must have the same length when providing a sparse_vector"
    );
}

#[test]
fn query_sparse_without_indices_is_refused() {
    let req = PineconeRequest { sparse_vector: Some(dense(&[0.1])), ..valid_query() };
    assert_eq!(
        query_cause(req.validate_query_request()),
        "indices cannot be empty when providing a sparse_vector"
    );
}

#[test]
fn query_without_top_k_is_refused() {
    let req = PineconeRequest { top_k: None, ..valid_query() };
    assert_eq!(query_cause(req.validate_query_request()), "top_k cannot be empty");
}

#[test]
fn query_id_length_limit() {
    let at_limit = PineconeRequest { id: Some("i".repeat(512)), ..valid_query() };
    assert!(at_limit.validate_query_request().is_ok());
    let over = PineconeRequest { id: Some("i".repeat(513)), ..valid_query() };
    assert_eq!(query_cause(over.validate_query_request()), "id length must be 512 or less");
}

#[test]
fn valid_query_passes() {
    let req = PineconeRequest { sparse_vector: Some(sparse(vec![1, 2], &[0.5, 0.25])), ..valid_query() };
    assert!(req.validate_query_request().is_ok());
}

fn update_cause(r: Result<(), PineconeApiError>) -> String {
    match r {
        Err(PineconeApiError::UpdateError(m)) => m,
        other => panic!("expected an update error, got {:?}", other),
    }
}

#[test]
fn update_with_empty_id_is_refused() {
    let mut meta = HashMap::new();
    meta.insert("k".to_string(), "v".to_string());
    let req = PineconeRequest { id: Some(String::new()), set_metadata: Some(meta), ..Default::default() };
    assert_eq!(
        update_cause(req.validate_update_request()),
        "id is required and must have a length between 1 and 512"
    );
}

#[test]
fn update_with_nothing_to_change_is_refused() {
    let req = PineconeRequest { id: Some("doc-1".to_string()), ..Default::default() };
    assert_eq!(
        update_cause(req.validate_update_request()),
        "You must provide something to update! Provide either a sparse_values or set_metadata field"
    );
}

#[test]
fn update_with_bad_sparse_values_is_refused() {
    let req = PineconeRequest {
        id: Some("doc-1".to_string()),
        sparse_values: Some(sparse(vec![1], &[0.1, 0.2])),
        ..Default::default()
    };
    assert_eq!(
        update_cause(req.validate_update_request()),
        "sparse indices and values cannot be empty and must have the same length."
    );
}

#[test]
fn valid_update_passes() {
    let req = PineconeRequest {
        id: Some("doc-1".to_string()),
        sparse_values: Some(sparse(vec![4, 9], &[0.1, 0.2])),
        ..Default::default()
    };
    assert!(req.validate_update_request().is_ok());
}

fn delete_cause(r: Result<(), PineconeApiError>) -> String {
    match r {
        Err(PineconeApiError::DeleteError(m)) => m,
        other => panic!("expected a delete error, got {:?}", other),
    }
}

#[test]
fn delete_without_target_is_refused() {
    let req = PineconeRequest::default();
    assert_eq!(
        delete_cause(req.validate_delete_request()),
        "You must provide either delete_all or ids to delete"
    );
}

#[test]
fn delete_with_integer_ids_is_refused() {
    let req = PineconeRequest { ids: Some(IdList::IntegerIds(vec![1, 2])), ..Default::default() };
    assert_eq!(delete_cause(req.validate_delete_request()), "ids must be Strings");
}

#[test]
fn delete_with_empty_text_ids_is_refused() {
    let req = PineconeRequest { ids: Some(IdList::TextIds(vec![])), ..Default::default() };
    assert_eq!(delete_cause(req.validate_delete_request()), "ids cannot be empty");
}

#[test]
fn delete_all_or_text_ids_pass() {
    let all = PineconeRequest { delete_all: Some(true), ..Default::default() };
    assert!(all.validate_delete_request().is_ok());
    let ids = PineconeRequest { ids: Some(IdList::TextIds(vec!["a".to_string()])), ..Default::default() };
    assert!(ids.validate_delete_request().is_ok());
}

#[test]
fn fetch_url_repeats_ids_and_ends_with_namespace() {
    let req = PineconeRequest {
        ids: Some(IdList::TextIds(vec!["a".to_string(), "b".to_string()])),
        namespace: Some("ns".to_string()),
        ..Default::default()
    };
    assert_eq!(
        req.fetch_url("https://index.example/").unwrap(),
        "https://index.example/vectors/fetch?ids=a&ids=b&namespace=ns"
    );
}

#[test]
fn fetch_url_without_namespace() {
    let req = PineconeRequest { ids: Some(IdList::TextIds(vec!["only".to_string()])), ..Default::default() };
    assert_eq!(req.fetch_url("h/").unwrap(), "h/vectors/fetch?ids=only");
}

#[test]
fn fetch_needs_text_ids() {
    let ints = PineconeRequest { ids: Some(IdList::IntegerIds(vec![1])), ..Default::default() };
    assert!(matches!(ints.fetch_url("h/"), Err(PineconeApiError::FetchError(m)) if m == "ids cannot be empty"));
    let none = PineconeRequest::default();
    assert!(matches!(none.fetch_url("h/"), Err(PineconeApiError::FetchError(_))));
}

#[test]
fn error_text_names_the_operation() {
    let e = PineconeApiError::for_operation(VectorOperation::Update, "timed out".to_string());
    assert!(matches!(&e, PineconeApiError::UpdateError(m) if m == "timed out"));
    assert_eq!(e.message(), "UpdateError: timed out");
    let q = PineconeApiError::QueryError("top_k cannot be empty".to_string());
    assert_eq!(q.message(), "QueryError: top_k cannot be empty");
}

#[test]
fn endpoints_of_each_operation() {
    assert_eq!(VectorOperation::Upsert.path(), "vectors/upsert");
    assert_eq!(VectorOperation::Query.path(), "query");
    assert_eq!(VectorOperation::Update.path(), "vectors/update");
    assert_eq!(VectorOperation::Fetch.path(), "vectors/fetch");
    assert_eq!(VectorOperation::Delete.path(), "vectors/delete");
}

#[test]
fn unsuccessful_status_is_an_error_of_the_operation() {
    let e = vector_gpt::pinecone_api::status_error(VectorOperation::Delete, "404 Not Found");
    assert!(matches!(&e, PineconeApiError::DeleteError(m) if m == "Error status: 404 Not Found"));
}

#[test]
fn query_id_limit_counts_bytes() {
    let wide = PineconeRequest { id: Some("é".repeat(300)), ..valid_query() };
    assert_eq!(query_cause(wide.validate_query_request()), "id length must be 512 or less");
    let fits = PineconeRequest { id: Some("é".repeat(256)), ..valid_query() };
    assert!(fits.validate_query_request().is_ok());
}

#[test]
fn update_id_length_counts_bytes() {
    let two_bytes = PineconeRequest {
        id: Some("é".to_string()),
        sparse_values: Some(sparse(vec![4], &[0.1])),
        ..Default::default()
    };
    assert!(two_bytes.validate_update_request().is_ok());
    let one_byte = PineconeRequest { id: Some("e".to_string()), ..two_bytes };
    assert_eq!(
        update_cause(one_byte.validate_update_request()),
        "id is required and must have a length between 1 and 512"
    );
}
