//! A vector-search engine core: collections of tabular rows whose text
//! columns are embedded and indexed for approximate nearest-neighbour search.
//!
//! The library holds the collection configuration and its defaults, the
//! on-disk layout, the statements sent to the database, the model and
//! collection registries, the batching of the embedding pipeline, the
//! bookkeeping of each column's vector index and the rules of the search
//! endpoint. Database access, model inference and HTTP framing are done by
//! the caller, which hands plain values in and takes plain values back.

pub mod collection;
pub mod collection_manager;
pub mod config;
pub mod error;
pub mod hub;
pub mod layout;
pub mod model;
pub mod search;
pub mod sql;
pub mod vector_index;
