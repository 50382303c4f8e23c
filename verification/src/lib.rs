//! The catalog library: product records, the rules that govern their
//! creation and publication, and the small parsers and mappers around them.

pub mod adapter;
pub mod config;
pub mod external;
pub mod ids;
pub mod memory;
pub mod reply;
pub mod store;
pub mod text;

pub use store::{
    CatalogError, CreateProductParams, Product, ProductId, ProductRow, PublicationUpdate, Timestamp,
};
