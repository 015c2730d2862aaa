//! Request and response shapes of the vector-database service.
//!
//! Dense and sparse values are IEEE-754 binary32 numbers, held as their bit
//! patterns (`f32::to_bits`); validation only ever reads their count.

use std::collections::HashMap;
use vstd::prelude::*;

verus! {

/// A request to the vector-database service. Each operation reads only the
/// fields that concern it; a field left `None` is left off the wire.
#[derive(Debug, Default)]
pub struct PineconeRequest {
    pub vectors: Option<Vec<Vector>>,
    pub namespace: Option<String>,
    pub vector: Option<Vector>,
    pub top_k: Option<i64>,
    pub include_metadata: Option<bool>,
    pub include_values: Option<bool>,
    pub set_metadata: Option<HashMap<String, String>>,
    pub sparse_vector: Option<Vector>,
    pub sparse_values: Option<Vector>,
    pub ids: Option<IdList>,
    pub id: Option<String>,
    pub filter: Option<HashMap<String, String>>,
    pub delete_all: Option<bool>,
}

/// Record identifiers, either numeric or textual.
#[derive(Debug, Clone)]
pub enum IdList {
    IntegerIds(Vec<i64>),
    TextIds(Vec<String>),
}

/// A dense vector, or a sparse one when `indices` gives the positions of
/// `values`.
#[derive(Debug, Clone, Default)]
pub struct Vector {
    pub id: Option<String>,
    pub values: Vec<u32>,
    pub indices: Option<Vec<i64>>,
    pub metadata: Option<HashMap<String, String>>,
}

/// What the service answers: which fields are present depends on the
/// operation.
#[derive(Debug, Clone, Default)]
pub struct PineconeResponse {
    pub vectors: Option<Vec<AdditionalProp>>,
    pub namespace: Option<String>,
    pub matches: Option<Vec<Match>>,
    pub upserted_count: Option<i64>,
}

/// A stored vector as the service returns it.
#[derive(Debug, Clone)]
pub struct AdditionalProp {
    pub id: String,
    pub values: Vec<u32>,
    pub metadata: HashMap<String, String>,
    pub sparse_values: Vector,
}

/// One hit of a query; `score` is a binary32 bit pattern.
#[derive(Debug, Clone)]
pub struct Match {
    pub id: String,
    pub score: u32,
    pub values: Vec<u32>,
    pub metadata: HashMap<String, String>,
    pub sparse_values: Vector,
}

impl PineconeRequest {
    pub fn vectors(&self) -> (r: &Option<Vec<Vector>>)
        ensures
            r == self.vectors,
    {
        &self.vectors
    }

    pub fn namespace(&self) -> (r: &Option<String>)
        ensures
            r == self.namespace,
    {
        &self.namespace
    }

    pub fn vector(&self) -> (r: &Option<Vector>)
        ensures
            r == self.vector,
    {
        &self.vector
    }

    pub fn top_k(&self) -> (r: &Option<i64>)
        ensures
            r == self.top_k,
    {
        &self.top_k
    }

    pub fn include_metadata(&self) -> (r: &Option<bool>)
        ensures
            r == self.include_metadata,
    {
        &self.include_metadata
    }

    pub fn include_values(&self) -> (r: &Option<bool>)
        ensures
            r == self.include_values,
    {
        &self.include_values
    }

    pub fn set_metadata(&self) -> (r: &Option<HashMap<String, String>>)
        ensures
            r == self.set_metadata,
    {
        &self.set_metadata
    }

    pub fn sparse_vector(&self) -> (r: &Option<Vector>)
        ensures
            r == self.sparse_vector,
    {
        &self.sparse_vector
    }

    pub fn sparse_values(&self) -> (r: &Option<Vector>)
        ensures
            r == self.sparse_values,
    {
        &self.sparse_values
    }

    pub fn ids(&self) -> (r: &Option<IdList>)
        ensures
            r == self.ids,
    {
        &self.ids
    }

    pub fn id(&self) -> (r: &Option<String>)
        ensures
            r == self.id,
    {
        &self.id
    }

    pub fn filter(&self) -> (r: &Option<HashMap<String, String>>)
        ensures
            r == self.filter,
    {
        &self.filter
    }

    pub fn delete_all(&self) -> (r: &Option<bool>)
        ensures
            r == self.delete_all,
    {
        &self.delete_all
    }
}

impl Vector {
    pub fn id(&self) -> (r: &Option<String>)
        ensures
            r == self.id,
    {
        &self.id
    }

    pub fn values(&self) -> (r: &Vec<u32>)
        ensures
            r == self.values,
    {
        &self.values
    }

    pub fn indices(&self) -> (r: &Option<Vec<i64>>)
        ensures
            r == self.indices,
    {
        &self.indices
    }

    pub fn metadata(&self) -> (r: &Option<HashMap<String, String>>)
        ensures
            r == self.metadata,
    {
        &self.metadata
    }
}

impl AdditionalProp {
    pub fn id(&self) -> (r: &String)
        ensures
            r == self.id,
    {
        &self.id
    }

    pub fn values(&self) -> (r: &Vec<u32>)
        ensures
            r == self.values,
    {
        &self.values
    }

    pub fn sparse_values(&self) -> (r: &Vector)
        ensures
            r == self.sparse_values,
    {
        &self.sparse_values
    }

    pub fn metadata(&self) -> (r: &HashMap<String, String>)
        ensures
            r == self.metadata,
    {
        &self.metadata
    }
}

impl Match {
    pub fn id(&self) -> (r: &String)
        ensures
            r == self.id,
    {
        &self.id
    }

    pub fn score(&self) -> (r: u32)
        ensures
            r == self.score,
    {
        self.score
    }

    pub fn values(&self) -> (r: &Vec<u32>)
        ensures
            r == self.values,
    {
        &self.values
    }

    pub fn sparse_values(&self) -> (r: &Vector)
        ensures
            r == self.sparse_values,
    {
        &self.sparse_values
    }

    pub fn metadata(&self) -> (r: &HashMap<String, String>)
        ensures
            r == self.metadata,
    {
        &self.metadata
    }
}

impl PineconeResponse {
    pub fn vectors(&self) -> (r: &Option<Vec<AdditionalProp>>)
        ensures
            r == self.vectors,
    {
        &self.vectors
    }

    pub fn namespace(&self) -> (r: &Option<String>)
        ensures
            r == self.namespace,
    {
        &self.namespace
    }

    pub fn matches(&self) -> (r: &Option<Vec<Match>>)
        ensures
            r == self.matches,
    {
        &self.matches
    }

    pub fn upserted_count(&self) -> (r: &Option<i64>)
        ensures
            r == self.upserted_count,
    {
        &self.upserted_count
    }
}

} // verus!
