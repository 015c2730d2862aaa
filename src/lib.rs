//! Client-side layer for a completion/embedding service and a vector-search
//! service: a binary codec for embeddings, a storage capability with an
//! in-memory backend, and the validation of every outbound request.

pub mod binary64;
pub mod database;
pub mod storage;
pub mod pinecone_data;
pub mod pinecone_api;
pub mod openai_api;
