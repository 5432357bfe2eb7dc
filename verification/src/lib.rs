//! Read-only aggregation of inscription, satoshi and output views over an
//! in-memory picture of a chain index.
//!
//! Every resolver is a total function of its arguments: the identifier asked
//! for, the index as it stands, and the chain whose address rules apply.
//! Missing required data gives `ServerError::NotFound`; missing optional data
//! gives an empty or sentinel field.

pub mod batch;
pub mod chain;
pub mod content;
pub mod ids;
pub mod index;
pub mod laws;
pub mod rest;
pub mod sat;
pub mod table;
pub mod text;
