//! Content-management core: the indexed document model, text cleanup,
//! search query planning, pagination with a hard match cap, term-frequency
//! aggregation, and the indexing pipeline that keeps one document per id.
pub mod aggregation;
pub mod config;
pub mod content;
pub mod document;
pub mod dto;
pub mod error;
pub mod markup;
pub mod member;
pub mod pagination;
pub mod pipeline;
pub mod query;
pub mod repository;
pub mod text;
