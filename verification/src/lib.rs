//! Query compilation and schema resolution for a full-text search index that
//! lives inside a relational database.
//!
//! [`schema`] turns the declared fields of an index into the schema of the
//! search engine and answers which field a name stands for. [`query`] takes
//! a search as a tree of queries and compiles it against those fields: every
//! field is resolved and held to the type that the query needs, and every
//! literal is written as a term of its field. [`json`] holds the documents
//! in which field configurations are written down, and [`tokenizers`] the
//! tokenizers and normalizers that a configuration can choose.
//!
//! What the engine does is not proved here. Each call into it stands in a
//! small function whose contract is taken on trust; they are in
//! [`schema::engine`], [`query::engine`] and [`json`].

pub mod json;
pub mod query;
pub mod schema;
pub mod tokenizers;
